use vstd::prelude::*;

use crate::bytes::{
    be_u16,
    be_u32,
    read_u16,
    read_u32,
    read_vec3,
    read_vec3_table,
    vec3_at,
    vec3_table,
    Vec3Bits,
    VEC3_SIZE,
};
use crate::error::DecodeError;
use crate::plc::{PLCEntry, PLC};
use crate::octree::{
    decodes_octree,
    highest_index,
    leaf_contains,
    lemma_decoded_has_no_zero,
    lemma_decoded_highest_unique,
    lemma_highest_index_is_max,
    Octree,
};

verus! {

/// Size in bytes of the prism-format header.
pub const KCL_HEADER_SIZE: usize = 56;

/// Size in bytes of a stored prism record.
pub const PRISM_SIZE: usize = 16;

/// A prism record: a height, the index of its base position, of its face normal and of
/// its three edge normals, and the index of its attribute record.
#[derive(Debug, Clone, Copy, PartialEq, Eq)]
pub struct Prism {
    /// The height as the bit pattern of a single-precision float.
    pub height: u32,
    pub pos_i: u16,
    pub fnrm_i: u16,
    pub enrm_i: [u16; 3],
    pub attribute: u16,
}

/// The stored values a prism refers to, gathered from the tables.
#[derive(Debug, Clone, Copy, PartialEq, Eq, Structural)]
pub struct PrismVectors {
    /// The height as the bit pattern of a single-precision float.
    pub height: u32,
    pub pos: Vec3Bits,
    pub fnrm: Vec3Bits,
    pub enrm1: Vec3Bits,
    pub enrm2: Vec3Bits,
    pub enrm3: Vec3Bits,
    pub attribute: u16,
}

/// A decoded prism-format file. Floats are kept as their bit patterns.
#[derive(Debug)]
pub struct KCL {
    pub vtx: Vec<Vec3Bits>,
    pub nrm: Vec<Vec3Bits>,
    pub prism: Vec<Prism>,
    pub octree: Octree,
    pub prism_thickness: u32,
    pub area_min_pos: Vec3Bits,
}

/// `p` is the prism record stored at `at`.
pub open spec fn prism_at(buf: Seq<u8>, at: int, p: Prism) -> bool {
    &&& p.height == be_u32(buf, at)
    &&& p.pos_i == be_u16(buf, at + 4)
    &&& p.fnrm_i == be_u16(buf, at + 6)
    &&& p.enrm_i[0] == be_u16(buf, at + 8)
    &&& p.enrm_i[1] == be_u16(buf, at + 10)
    &&& p.enrm_i[2] == be_u16(buf, at + 12)
    &&& p.attribute == be_u16(buf, at + 14)
}

/// The largest normal index that `p` uses.
pub open spec fn prism_max_nrm(p: Prism) -> nat {
    let a = if p.fnrm_i >= p.enrm_i[0] {
        p.fnrm_i
    } else {
        p.enrm_i[0]
    };
    let b = if p.enrm_i[1] >= p.enrm_i[2] {
        p.enrm_i[1]
    } else {
        p.enrm_i[2]
    };
    if a >= b {
        a as nat
    } else {
        b as nat
    }
}

/// The largest position index of the prisms, or 0 when there are none.
pub open spec fn max_pos_index(ps: Seq<Prism>) -> nat
    decreases ps.len(),
{
    if ps.len() == 0 {
        0
    } else {
        let m = max_pos_index(ps.drop_last());
        if ps.last().pos_i > m {
            ps.last().pos_i as nat
        } else {
            m
        }
    }
}

/// The largest normal index of the prisms, or 0 when there are none.
pub open spec fn max_nrm_index(ps: Seq<Prism>) -> nat
    decreases ps.len(),
{
    if ps.len() == 0 {
        0
    } else {
        let m = max_nrm_index(ps.drop_last());
        if prism_max_nrm(ps.last()) > m {
            prism_max_nrm(ps.last())
        } else {
            m
        }
    }
}

/// The number of top-level cells of the spatial index, from the area masks and shifts.
pub open spec fn root_children(
    x_mask: u32,
    y_mask: u32,
    z_mask: u32,
    shift: u32,
    x_shift: u32,
    xy_shift: u32,
) -> u32 {
    ((!z_mask >> shift) << xy_shift) | ((!y_mask >> shift) << x_shift) | (!x_mask >> shift)
}

/// The three shifts of the header are below 32.
pub open spec fn kcl_shifts_ok(buf: Seq<u8>) -> bool {
    be_u32(buf, 44) < 32 && be_u32(buf, 48) < 32 && be_u32(buf, 52) < 32
}

/// The number of top-level cells that the header of `buf` declares.
pub open spec fn kcl_root_children(buf: Seq<u8>) -> u32 {
    root_children(
        be_u32(buf, 32),
        be_u32(buf, 36),
        be_u32(buf, 40),
        be_u32(buf, 44),
        be_u32(buf, 48),
        be_u32(buf, 52),
    )
}

/// `t` is the spatial index of `buf`: its root is the header's index offset.
pub open spec fn kcl_octree(buf: Seq<u8>, t: Octree) -> bool {
    decodes_octree(buf, be_u32(buf, 12), kcl_root_children(buf) as nat, 0, t)
}

/// `ps` are the first `count` prisms of `buf`; the table's first slot is skipped, since
/// prism indices start at 1.
pub open spec fn kcl_prism_table(buf: Seq<u8>, count: nat, ps: Seq<Prism>) -> bool {
    &&& be_u32(buf, 8) + PRISM_SIZE * (count + 1) <= buf.len()
    &&& ps.len() == count
    &&& forall|i: int|
        0 <= i < count ==> prism_at(buf, be_u32(buf, 8) + PRISM_SIZE * (i + 1), #[trigger] ps[i])
}

/// `k` is what `buf` decodes to: the spatial index, as many prisms as its highest
/// index, and the position and normal tables up to the largest index the prisms use.
pub open spec fn kcl_decodes(buf: Seq<u8>, k: KCL) -> bool {
    &&& buf.len() >= KCL_HEADER_SIZE
    &&& kcl_shifts_ok(buf)
    &&& kcl_octree(buf, k.octree)
    &&& kcl_prism_table(buf, highest_index(k.octree), k.prism@)
    &&& vec3_table(buf, be_u32(buf, 0) as int, (max_pos_index(k.prism@) + 1) as int, k.vtx@)
    &&& vec3_table(buf, be_u32(buf, 4) as int, (max_nrm_index(k.prism@) + 1) as int, k.nrm@)
    &&& k.prism_thickness == be_u32(buf, 16)
    &&& k.area_min_pos == vec3_at(buf, 20)
}

/// A prism record is fixed by the bytes it is read from.
proof fn lemma_prism_at_unique(buf: Seq<u8>, at: int, p1: Prism, p2: Prism)
    requires
        prism_at(buf, at, p1),
        prism_at(buf, at, p2),
    ensures
        p1 == p2,
{
    assert(p1.enrm_i =~= p2.enrm_i);
}

fn read_prism(buf: &[u8], at: usize) -> (p: Prism)
    requires
        at + PRISM_SIZE <= buf.len(),
    ensures
        prism_at(buf@, at as int, p),
{
    let enrm_i = [read_u16(buf, at + 8), read_u16(buf, at + 10), read_u16(buf, at + 12)];
    Prism {
        height: read_u32(buf, at),
        pos_i: read_u16(buf, at + 4),
        fnrm_i: read_u16(buf, at + 6),
        enrm_i,
        attribute: read_u16(buf, at + 14),
    }
}

impl Prism {
    /// Reads the prism record stored at byte offset `at`.
    pub fn from_buffer(buf: &[u8], at: usize) -> (r: Result<Prism, DecodeError>)
        ensures
            at + PRISM_SIZE <= buf@.len() ==> (r matches Ok(p) && prism_at(buf@, at as int, p)),
            at + PRISM_SIZE > buf@.len() ==> r == Err::<Prism, DecodeError>(
                DecodeError::TruncatedBuffer,
            ),
    {
        if buf.len() < PRISM_SIZE || at > buf.len() - PRISM_SIZE {
            return Err(DecodeError::TruncatedBuffer);
        }
        Ok(read_prism(buf, at))
    }
}

/// The prisms' largest position index and largest normal index.
fn max_indices(prisms: &Vec<Prism>) -> (r: (u32, u32))
    ensures
        r.0 == max_pos_index(prisms@),
        r.1 == max_nrm_index(prisms@),
        r.0 <= 0xFFFF,
        r.1 <= 0xFFFF,
{
    let mut num_pos: u16 = 0;
    let mut num_nrm: u16 = 0;
    let mut i: usize = 0;
    while i < prisms.len()
        invariant
            i <= prisms@.len(),
            num_pos == max_pos_index(prisms@.subrange(0, i as int)),
            num_nrm == max_nrm_index(prisms@.subrange(0, i as int)),
        decreases prisms@.len() - i,
    {
        assert(prisms@.subrange(0, i + 1).drop_last() == prisms@.subrange(0, i as int));
        let p = prisms[i];
        if p.pos_i > num_pos {
            num_pos = p.pos_i;
        }
        let a = if p.fnrm_i >= p.enrm_i[0] {
            p.fnrm_i
        } else {
            p.enrm_i[0]
        };
        let b = if p.enrm_i[1] >= p.enrm_i[2] {
            p.enrm_i[1]
        } else {
            p.enrm_i[2]
        };
        let m = if a >= b {
            a
        } else {
            b
        };
        if m > num_nrm {
            num_nrm = m;
        }
        i = i + 1;
    }
    assert(prisms@.subrange(0, i as int) == prisms@);
    (num_pos as u32, num_nrm as u32)
}

/// Every table index of `p` lies inside the tables of `k`.
pub open spec fn prism_in_range(k: KCL, p: Prism) -> bool {
    &&& p.pos_i < k.vtx@.len()
    &&& p.fnrm_i < k.nrm@.len()
    &&& p.enrm_i[0] < k.nrm@.len()
    &&& p.enrm_i[1] < k.nrm@.len()
    &&& p.enrm_i[2] < k.nrm@.len()
}

/// The values of the tables of `k` that `p` refers to.
pub open spec fn vectors_of(k: KCL, p: Prism) -> PrismVectors {
    PrismVectors {
        height: p.height,
        pos: k.vtx@[p.pos_i as int],
        fnrm: k.nrm@[p.fnrm_i as int],
        enrm1: k.nrm@[p.enrm_i[0] as int],
        enrm2: k.nrm@[p.enrm_i[1] as int],
        enrm3: k.nrm@[p.enrm_i[2] as int],
        attribute: p.attribute,
    }
}

proof fn lemma_max_indices_bound(ps: Seq<Prism>, i: int)
    requires
        0 <= i < ps.len(),
    ensures
        ps[i].pos_i <= max_pos_index(ps),
        prism_max_nrm(ps[i]) <= max_nrm_index(ps),
    decreases ps.len(),
{
    if i < ps.len() - 1 {
        lemma_max_indices_bound(ps.drop_last(), i);
    }
}

/// Every prism of a decoded file refers only to entries of its position and normal tables.
pub proof fn lemma_decoded_indices_in_range(buf: Seq<u8>, k: KCL)
    requires
        kcl_decodes(buf, k),
    ensures
        forall|i: int| 0 <= i < k.prism@.len() ==> prism_in_range(k, #[trigger] k.prism@[i]),
{
    assert forall|i: int| 0 <= i < k.prism@.len() implies prism_in_range(
        k,
        #[trigger] k.prism@[i],
    ) by {
        lemma_max_indices_bound(k.prism@, i);
    }
}

/// In a decoded file the prism count is the highest index of the spatial index: every
/// index stored in a leaf names a decoded prism (counting from 1), and the last prism is
/// named by some leaf.
pub proof fn lemma_decoded_prism_count(buf: Seq<u8>, k: KCL)
    requires
        kcl_decodes(buf, k),
    ensures
        k.prism@.len() == highest_index(k.octree),
        forall|x: u16| leaf_contains(k.octree, x) ==> 1 <= x <= k.prism@.len(),
        k.prism@.len() > 0 ==> leaf_contains(k.octree, k.prism@.len() as u16),
{
    lemma_highest_index_is_max(k.octree);
    lemma_decoded_has_no_zero(buf, be_u32(buf, 12), kcl_root_children(buf) as nat, 0, k.octree);
}

impl KCL {
    /// For each prism, in order, the stored values it refers to; fails when a prism's
    /// index lies outside its table.
    pub fn get_prism_vectors(&self) -> (r: Result<Vec<PrismVectors>, DecodeError>)
        ensures
            r is Ok <==> forall|i: int|
                0 <= i < self.prism@.len() ==> prism_in_range(*self, #[trigger] self.prism@[i]),
            r matches Ok(v) ==> v@.len() == self.prism@.len() && forall|i: int|
                0 <= i < self.prism@.len() ==> #[trigger] v@[i] == vectors_of(
                    *self,
                    self.prism@[i],
                ),
            r is Err ==> r == Err::<Vec<PrismVectors>, DecodeError>(DecodeError::IndexOutOfRange),
    {
        let mut v: Vec<PrismVectors> = Vec::new();
        let mut i: usize = 0;
        while i < self.prism.len()
            invariant
                i <= self.prism@.len(),
                v@.len() == i,
                forall|k: int| 0 <= k < i ==> prism_in_range(*self, #[trigger] self.prism@[k]),
                forall|k: int|
                    0 <= k < i ==> #[trigger] v@[k] == vectors_of(*self, self.prism@[k]),
            decreases self.prism@.len() - i,
        {
            let p = self.prism[i];
            let nv = self.vtx.len();
            let nn = self.nrm.len();
            if p.pos_i as usize >= nv || p.fnrm_i as usize >= nn || p.enrm_i[0] as usize >= nn
                || p.enrm_i[1] as usize >= nn || p.enrm_i[2] as usize >= nn {
                return Err(DecodeError::IndexOutOfRange);
            }
            v.push(
                PrismVectors {
                    height: p.height,
                    pos: self.vtx[p.pos_i as usize],
                    fnrm: self.nrm[p.fnrm_i as usize],
                    enrm1: self.nrm[p.enrm_i[0] as usize],
                    enrm2: self.nrm[p.enrm_i[1] as usize],
                    enrm3: self.nrm[p.enrm_i[2] as usize],
                    attribute: p.attribute,
                },
            );
            i = i + 1;
        }
        Ok(v)
    }

    /// The attribute record of each prism, in order; fails when a prism's attribute
    /// index is not below the number of records.
    pub fn get_properties(&self, plc: &PLC) -> (r: Result<Vec<PLCEntry>, DecodeError>)
        ensures
            r is Ok <==> forall|i: int|
                0 <= i < self.prism@.len() ==> #[trigger] self.prism@[i].attribute
                    < plc.entries@.len(),
            r matches Ok(v) ==> v@.len() == self.prism@.len() && forall|i: int|
                0 <= i < self.prism@.len() ==> #[trigger] v@[i]
                    == plc.entries@[self.prism@[i].attribute as int],
            r is Err ==> r == Err::<Vec<PLCEntry>, DecodeError>(DecodeError::IndexOutOfRange),
    {
        let mut indices: Vec<u16> = Vec::new();
        let mut i: usize = 0;
        while i < self.prism.len()
            invariant
                i <= self.prism@.len(),
                indices@.len() == i,
                forall|k: int| 0 <= k < i ==> #[trigger] indices@[k] == self.prism@[k].attribute,
            decreases self.prism@.len() - i,
        {
            indices.push(self.prism[i].attribute);
            i = i + 1;
        }
        let r = plc.entries_for(&indices);
        assert((forall|k: int| 0 <= k < i ==> #[trigger] indices@[k] < plc.entries@.len()) <==> (
        forall|k: int| 0 <= k < i ==> #[trigger] self.prism@[k].attribute < plc.entries@.len()))
            by {
            if forall|k: int| 0 <= k < i ==> #[trigger] self.prism@[k].attribute
                < plc.entries@.len() {
                assert forall|k: int| 0 <= k < i implies #[trigger] indices@[k]
                    < plc.entries@.len() by {
                    assert(indices@[k] == self.prism@[k].attribute);
                }
            }
            if forall|k: int| 0 <= k < i ==> #[trigger] indices@[k] < plc.entries@.len() {
                assert forall|k: int| 0 <= k < i implies #[trigger] self.prism@[k].attribute
                    < plc.entries@.len() by {
                    assert(indices@[k] == self.prism@[k].attribute);
                }
            }
        }
        r
    }

    /// Decodes a prism-format file: the header, the spatial index, as many prisms as
    /// its highest index (skipping the table's first slot), then the position and normal
    /// tables up to the largest index the prisms use.
    pub fn from_file(buf: &[u8]) -> (r: Result<KCL, DecodeError>)
        ensures
            r matches Ok(k) ==> kcl_decodes(buf@, k),
            r is Err ==> forall|k: KCL| !kcl_decodes(buf@, k),
            buf@.len() < KCL_HEADER_SIZE ==> r == Err::<KCL, DecodeError>(
                DecodeError::TruncatedBuffer,
            ),
            buf@.len() >= KCL_HEADER_SIZE && (!kcl_shifts_ok(buf@) || forall|t: Octree|
                !kcl_octree(buf@, t)) ==> r == Err::<KCL, DecodeError>(
                DecodeError::MalformedOctree,
            ),
            buf@.len() >= KCL_HEADER_SIZE && kcl_shifts_ok(buf@) && (exists|t: Octree|
                kcl_octree(buf@, t)) && r is Err ==> r == Err::<KCL, DecodeError>(
                DecodeError::TruncatedBuffer,
            ),
    {
        let len = buf.len();
        if len < KCL_HEADER_SIZE {
            return Err(DecodeError::TruncatedBuffer);
        }
        let pos_data_offset = read_u32(buf, 0);
        let nrm_data_offset = read_u32(buf, 4);
        let prism_data_offset = read_u32(buf, 8);
        let block_data_offset = read_u32(buf, 12);
        let prism_thickness = read_u32(buf, 16);
        let area_min_pos = read_vec3(buf, 20);
        let area_x_width_mask = read_u32(buf, 32);
        let area_y_width_mask = read_u32(buf, 36);
        let area_z_width_mask = read_u32(buf, 40);
        let block_width_shift = read_u32(buf, 44);
        let area_x_blocks_shift = read_u32(buf, 48);
        let area_xy_blocks_shift = read_u32(buf, 52);
        if block_width_shift >= 32 || area_x_blocks_shift >= 32 || area_xy_blocks_shift >= 32 {
            return Err(DecodeError::MalformedOctree);
        }

        // Spatial index
        let shift = block_width_shift;
        let num_initial = ((!area_z_width_mask >> shift) << area_xy_blocks_shift) | ((
        !area_y_width_mask >> shift) << area_x_blocks_shift) | (!area_x_width_mask >> shift);
        assert(num_initial == kcl_root_children(buf@));
        let octree = match Octree::new(block_data_offset, buf, num_initial) {
            Ok(t) => t,
            Err(e) => {
                return Err(e);
            },
        };
        let num_prisms = octree.get_highest_index();
        let ghost t0 = octree;
        assert(kcl_octree(buf@, t0));
        assert forall|k: KCL| kcl_decodes(buf@, k) implies highest_index(k.octree) == num_prisms by {
            lemma_decoded_highest_unique(
                buf@,
                block_data_offset,
                num_initial as nat,
                0,
                k.octree,
                t0,
            );
        }

        // Prisms, from the second slot of the table
        if (len as u64) < prism_data_offset as u64 + 16 * (num_prisms as u64 + 1) {
            return Err(DecodeError::TruncatedBuffer);
        }
        let mut prisms: Vec<Prism> = Vec::new();
        let mut i: usize = 0;
        while i < num_prisms
            invariant
                len == buf@.len(),
                prism_data_offset == be_u32(buf@, 8),
                prism_data_offset + PRISM_SIZE * (num_prisms + 1) <= len,
                i <= num_prisms,
                prisms@.len() == i,
                forall|k: int|
                    0 <= k < i ==> prism_at(
                        buf@,
                        prism_data_offset + PRISM_SIZE * (k + 1),
                        #[trigger] prisms@[k],
                    ),
            decreases num_prisms - i,
        {
            let p = read_prism(buf, prism_data_offset as usize + 16 * (i + 1));
            prisms.push(p);
            i = i + 1;
        }
        assert(kcl_prism_table(buf@, num_prisms as nat, prisms@));
        assert forall|k: KCL| kcl_decodes(buf@, k) implies k.prism@ == prisms@ by {
            assert forall|j: int| 0 <= j < num_prisms implies k.prism@[j] == prisms@[j] by {
                lemma_prism_at_unique(
                    buf@,
                    prism_data_offset + PRISM_SIZE * (j + 1),
                    k.prism@[j],
                    prisms@[j],
                );
            }
            assert(k.prism@ =~= prisms@);
        }

        // Positions and normals, each up to the largest index used
        let (max_pos, max_nrm) = max_indices(&prisms);
        let vtx = match read_vec3_table(buf, pos_data_offset, max_pos + 1) {
            Ok(v) => v,
            Err(e) => {
                return Err(e);
            },
        };
        let nrm = match read_vec3_table(buf, nrm_data_offset, max_nrm + 1) {
            Ok(v) => v,
            Err(e) => {
                return Err(e);
            },
        };
        Ok(KCL { vtx, nrm, prism: prisms, octree, prism_thickness, area_min_pos })
    }
}

} // verus!
