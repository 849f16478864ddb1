use vstd::prelude::*;

use crate::bytes::{
    be_u16,
    be_u32,
    read_u16,
    read_u32,
    read_vec3,
    read_vec3_table,
    vec3_at,
    vec3_table,
    Vec3Bits,
    VEC3_SIZE,
};
use crate::error::DecodeError;
use crate::plc::{PLCEntry, PLC};

verus! {

/// Size in bytes of the flat-format header: six (count, offset) pairs and a padding word.
pub const DZB_HEADER_SIZE: usize = 52;

/// Sizes in bytes of the stored records of each section.
pub const TRIANGLE_SIZE: usize = 10;
pub const BLOCK_SIZE: usize = 2;
pub const OCTREE_NODE_SIZE: usize = 20;
pub const GROUP_SIZE: usize = 50;
pub const PROPERTY_SIZE: usize = 16;

/// A triangle: three vertex indices, a property index and a group index.
#[derive(Debug, Clone, Copy, PartialEq, Eq)]
pub struct Triangle {
    pub vert_idx: [u16; 3],
    pub prop_idx: u16,
    pub group_idx: u16,
}

/// A node of the in-memory octree of the flat format.
#[derive(Debug, Clone, Copy, PartialEq, Eq)]
pub struct OctreeNode {
    pub flags: u16,
    pub parent_node_idx: u16,
    pub branches: [u16; 8],
}

/// The first triangle of an octree leaf's run.
#[derive(Debug, Clone, Copy, PartialEq, Eq, Structural)]
pub struct Block {
    pub starting_tri_idx: u16,
}

/// A node of the group hierarchy. Scale and translation are float bit patterns.
#[derive(Debug, Clone, Copy, PartialEq, Eq)]
pub struct Group {
    pub name_offset: u32,
    pub scale: Vec3Bits,
    pub rotation: [i16; 3],
    pub unk1: u16,
    pub translation: Vec3Bits,
    pub parent_group_idx: u16,
    pub next_sibling_group: u16,
    pub first_child_group_index: u16,
    pub room_id: u16,
    pub first_vtx_idx: u16,
    pub tree_index: u16,
    pub info: u16,
}

/// Four packed attribute codes embedded in the file.
#[derive(Debug, Clone, Copy, PartialEq, Eq, Structural)]
pub struct Property {
    pub info1: u32,
    pub info2: u32,
    pub info3: u32,
    pub pass_flag: u32,
}

/// A decoded flat-format file. Vertices are float bit patterns.
#[derive(Debug, Clone)]
pub struct DZB {
    pub verts: Vec<Vec3Bits>,
    pub tris: Vec<Triangle>,
    pub blocks: Vec<Block>,
    pub tree_nodes: Vec<OctreeNode>,
    pub groups: Vec<Group>,
    pub properties: Vec<Property>,
}

/// The three corners of a triangle, in the order of its vertex indices.
#[derive(Debug, Clone, Copy, PartialEq, Eq, Structural)]
pub struct TriangleCorners {
    pub v0: Vec3Bits,
    pub v1: Vec3Bits,
    pub v2: Vec3Bits,
}

/// The record count of section `s` (0 to 5: vertices, triangles, blocks, tree nodes,
/// groups, properties).
pub open spec fn section_count(buf: Seq<u8>, s: int) -> u32 {
    be_u32(buf, 8 * s)
}

/// The byte offset of section `s`.
pub open spec fn section_offset(buf: Seq<u8>, s: int) -> u32 {
    be_u32(buf, 8 * s + 4)
}

/// Section `s`, of records of `size` bytes, lies inside the buffer.
pub open spec fn section_fits(buf: Seq<u8>, s: int, size: int) -> bool {
    section_offset(buf, s) + size * section_count(buf, s) <= buf.len()
}

/// The header is present and every section lies inside the buffer.
pub open spec fn dzb_fits(buf: Seq<u8>) -> bool {
    &&& buf.len() >= DZB_HEADER_SIZE
    &&& section_fits(buf, 0, VEC3_SIZE as int)
    &&& section_fits(buf, 1, TRIANGLE_SIZE as int)
    &&& section_fits(buf, 2, BLOCK_SIZE as int)
    &&& section_fits(buf, 3, OCTREE_NODE_SIZE as int)
    &&& section_fits(buf, 4, GROUP_SIZE as int)
    &&& section_fits(buf, 5, PROPERTY_SIZE as int)
}

pub open spec fn triangle_at(buf: Seq<u8>, at: int, t: Triangle) -> bool {
    &&& t.vert_idx[0] == be_u16(buf, at)
    &&& t.vert_idx[1] == be_u16(buf, at + 2)
    &&& t.vert_idx[2] == be_u16(buf, at + 4)
    &&& t.prop_idx == be_u16(buf, at + 6)
    &&& t.group_idx == be_u16(buf, at + 8)
}

pub open spec fn block_at(buf: Seq<u8>, at: int, b: Block) -> bool {
    b.starting_tri_idx == be_u16(buf, at)
}

pub open spec fn node_at(buf: Seq<u8>, at: int, n: OctreeNode) -> bool {
    &&& n.flags == be_u16(buf, at)
    &&& n.parent_node_idx == be_u16(buf, at + 2)
    &&& forall|k: int| 0 <= k < 8 ==> #[trigger] n.branches[k] == be_u16(buf, at + 4 + 2 * k)
}

pub open spec fn group_at(buf: Seq<u8>, at: int, g: Group) -> bool {
    &&& g.name_offset == be_u32(buf, at)
    &&& g.scale == vec3_at(buf, at + 4)
    &&& g.rotation[0] == be_u16(buf, at + 16) as i16
    &&& g.rotation[1] == be_u16(buf, at + 18) as i16
    &&& g.rotation[2] == be_u16(buf, at + 20) as i16
    &&& g.unk1 == be_u16(buf, at + 22)
    &&& g.translation == vec3_at(buf, at + 24)
    &&& g.parent_group_idx == be_u16(buf, at + 36)
    &&& g.next_sibling_group == be_u16(buf, at + 38)
    &&& g.first_child_group_index == be_u16(buf, at + 40)
    &&& g.room_id == be_u16(buf, at + 42)
    &&& g.first_vtx_idx == be_u16(buf, at + 44)
    &&& g.tree_index == be_u16(buf, at + 46)
    &&& g.info == be_u16(buf, at + 48)
}

pub open spec fn property_at(buf: Seq<u8>, at: int, p: Property) -> bool {
    &&& p.info1 == be_u32(buf, at)
    &&& p.info2 == be_u32(buf, at + 4)
    &&& p.info3 == be_u32(buf, at + 8)
    &&& p.pass_flag == be_u32(buf, at + 12)
}

/// `d` holds exactly the records of every section of `buf`, in the order stored.
pub open spec fn dzb_decodes(buf: Seq<u8>, d: DZB) -> bool {
    &&& dzb_fits(buf)
    &&& vec3_table(buf, section_offset(buf, 0) as int, section_count(buf, 0) as int, d.verts@)
    &&& d.tris@.len() == section_count(buf, 1)
    &&& forall|i: int|
        0 <= i < d.tris@.len() ==> triangle_at(
            buf,
            section_offset(buf, 1) + TRIANGLE_SIZE * i,
            #[trigger] d.tris@[i],
        )
    &&& d.blocks@.len() == section_count(buf, 2)
    &&& forall|i: int|
        0 <= i < d.blocks@.len() ==> block_at(
            buf,
            section_offset(buf, 2) + BLOCK_SIZE * i,
            #[trigger] d.blocks@[i],
        )
    &&& d.tree_nodes@.len() == section_count(buf, 3)
    &&& forall|i: int|
        0 <= i < d.tree_nodes@.len() ==> node_at(
            buf,
            section_offset(buf, 3) + OCTREE_NODE_SIZE * i,
            #[trigger] d.tree_nodes@[i],
        )
    &&& d.groups@.len() == section_count(buf, 4)
    &&& forall|i: int|
        0 <= i < d.groups@.len() ==> group_at(
            buf,
            section_offset(buf, 4) + GROUP_SIZE * i,
            #[trigger] d.groups@[i],
        )
    &&& d.properties@.len() == section_count(buf, 5)
    &&& forall|i: int|
        0 <= i < d.properties@.len() ==> property_at(
            buf,
            section_offset(buf, 5) + PROPERTY_SIZE * i,
            #[trigger] d.properties@[i],
        )
}

fn read_triangle(buf: &[u8], at: usize) -> (t: Triangle)
    requires
        at + TRIANGLE_SIZE <= buf.len(),
    ensures
        triangle_at(buf@, at as int, t),
{
    let vert_idx = [read_u16(buf, at), read_u16(buf, at + 2), read_u16(buf, at + 4)];
    Triangle { vert_idx, prop_idx: read_u16(buf, at + 6), group_idx: read_u16(buf, at + 8) }
}

fn read_block(buf: &[u8], at: usize) -> (b: Block)
    requires
        at + BLOCK_SIZE <= buf.len(),
    ensures
        block_at(buf@, at as int, b),
{
    Block { starting_tri_idx: read_u16(buf, at) }
}

fn read_node(buf: &[u8], at: usize) -> (n: OctreeNode)
    requires
        at + OCTREE_NODE_SIZE <= buf.len(),
    ensures
        node_at(buf@, at as int, n),
{
    let branches = [
        read_u16(buf, at + 4),
        read_u16(buf, at + 6),
        read_u16(buf, at + 8),
        read_u16(buf, at + 10),
        read_u16(buf, at + 12),
        read_u16(buf, at + 14),
        read_u16(buf, at + 16),
        read_u16(buf, at + 18),
    ];
    let n = OctreeNode { flags: read_u16(buf, at), parent_node_idx: read_u16(buf, at + 2), branches };
    assert forall|k: int| 0 <= k < 8 implies #[trigger] n.branches[k] == be_u16(
        buf@,
        at + 4 + 2 * k,
    ) by {
        if k == 0 {
        } else if k == 1 {
        } else if k == 2 {
        } else if k == 3 {
        } else if k == 4 {
        } else if k == 5 {
        } else if k == 6 {
        } else {
        }
    }
    n
}

fn read_group(buf: &[u8], at: usize) -> (g: Group)
    requires
        at + GROUP_SIZE <= buf.len(),
    ensures
        group_at(buf@, at as int, g),
{
    let name_offset = read_u32(buf, at);
    let scale = read_vec3(buf, at + 4);
    let rotation = [
        read_u16(buf, at + 16) as i16,
        read_u16(buf, at + 18) as i16,
        read_u16(buf, at + 20) as i16,
    ];
    Group {
        name_offset,
        scale,
        rotation,
        unk1: read_u16(buf, at + 22),
        translation: read_vec3(buf, at + 24),
        parent_group_idx: read_u16(buf, at + 36),
        next_sibling_group: read_u16(buf, at + 38),
        first_child_group_index: read_u16(buf, at + 40),
        room_id: read_u16(buf, at + 42),
        first_vtx_idx: read_u16(buf, at + 44),
        tree_index: read_u16(buf, at + 46),
        info: read_u16(buf, at + 48),
    }
}

fn read_property(buf: &[u8], at: usize) -> (p: Property)
    requires
        at + PROPERTY_SIZE <= buf.len(),
    ensures
        property_at(buf@, at as int, p),
{
    Property {
        info1: read_u32(buf, at),
        info2: read_u32(buf, at + 4),
        info3: read_u32(buf, at + 8),
        pass_flag: read_u32(buf, at + 12),
    }
}

fn read_triangles(buf: &[u8], offset: u32, count: u32) -> (v: Vec<Triangle>)
    requires
        offset + TRIANGLE_SIZE * count <= buf.len(),
    ensures
        v@.len() == count,
        forall|i: int| 0 <= i < count ==> triangle_at(buf@, offset + TRIANGLE_SIZE * i, #[trigger] v@[i]),
{
    let mut v: Vec<Triangle> = Vec::new();
    let mut i: u32 = 0;
    while i < count
        invariant
            offset + TRIANGLE_SIZE * count <= buf.len(),
            i <= count,
            v@.len() == i,
            forall|k: int| 0 <= k < i ==> triangle_at(buf@, offset + TRIANGLE_SIZE * k, #[trigger] v@[k]),
        decreases count - i,
    {
        v.push(read_triangle(buf, offset as usize + TRIANGLE_SIZE * (i as usize)));
        i = i + 1;
    }
    v
}

fn read_blocks(buf: &[u8], offset: u32, count: u32) -> (v: Vec<Block>)
    requires
        offset + BLOCK_SIZE * count <= buf.len(),
    ensures
        v@.len() == count,
        forall|i: int| 0 <= i < count ==> block_at(buf@, offset + BLOCK_SIZE * i, #[trigger] v@[i]),
{
    let mut v: Vec<Block> = Vec::new();
    let mut i: u32 = 0;
    while i < count
        invariant
            offset + BLOCK_SIZE * count <= buf.len(),
            i <= count,
            v@.len() == i,
            forall|k: int| 0 <= k < i ==> block_at(buf@, offset + BLOCK_SIZE * k, #[trigger] v@[k]),
        decreases count - i,
    {
        v.push(read_block(buf, offset as usize + BLOCK_SIZE * (i as usize)));
        i = i + 1;
    }
    v
}

fn read_nodes(buf: &[u8], offset: u32, count: u32) -> (v: Vec<OctreeNode>)
    requires
        offset + OCTREE_NODE_SIZE * count <= buf.len(),
    ensures
        v@.len() == count,
        forall|i: int| 0 <= i < count ==> node_at(buf@, offset + OCTREE_NODE_SIZE * i, #[trigger] v@[i]),
{
    let mut v: Vec<OctreeNode> = Vec::new();
    let mut i: u32 = 0;
    while i < count
        invariant
            offset + OCTREE_NODE_SIZE * count <= buf.len(),
            i <= count,
            v@.len() == i,
            forall|k: int| 0 <= k < i ==> node_at(buf@, offset + OCTREE_NODE_SIZE * k, #[trigger] v@[k]),
        decreases count - i,
    {
        v.push(read_node(buf, offset as usize + OCTREE_NODE_SIZE * (i as usize)));
        i = i + 1;
    }
    v
}

fn read_groups(buf: &[u8], offset: u32, count: u32) -> (v: Vec<Group>)
    requires
        offset + GROUP_SIZE * count <= buf.len(),
    ensures
        v@.len() == count,
        forall|i: int| 0 <= i < count ==> group_at(buf@, offset + GROUP_SIZE * i, #[trigger] v@[i]),
{
    let mut v: Vec<Group> = Vec::new();
    let mut i: u32 = 0;
    while i < count
        invariant
            offset + GROUP_SIZE * count <= buf.len(),
            i <= count,
            v@.len() == i,
            forall|k: int| 0 <= k < i ==> group_at(buf@, offset + GROUP_SIZE * k, #[trigger] v@[k]),
        decreases count - i,
    {
        v.push(read_group(buf, offset as usize + GROUP_SIZE * (i as usize)));
        i = i + 1;
    }
    v
}

fn read_properties(buf: &[u8], offset: u32, count: u32) -> (v: Vec<Property>)
    requires
        offset + PROPERTY_SIZE * count <= buf.len(),
    ensures
        v@.len() == count,
        forall|i: int| 0 <= i < count ==> property_at(buf@, offset + PROPERTY_SIZE * i, #[trigger] v@[i]),
{
    let mut v: Vec<Property> = Vec::new();
    let mut i: u32 = 0;
    while i < count
        invariant
            offset + PROPERTY_SIZE * count <= buf.len(),
            i <= count,
            v@.len() == i,
            forall|k: int| 0 <= k < i ==> property_at(buf@, offset + PROPERTY_SIZE * k, #[trigger] v@[k]),
        decreases count - i,
    {
        v.push(read_property(buf, offset as usize + PROPERTY_SIZE * (i as usize)));
        i = i + 1;
    }
    v
}

/// Whether a section of `count` records of `size` bytes at `offset` lies inside the buffer.
fn fits(len: usize, offset: u32, count: u32, size: u64) -> (r: bool)
    requires
        size <= 64,
    ensures
        r == (offset + size * count <= len),
{
    assert(size * count <= 64 * 0xFFFF_FFFF) by (nonlinear_arith)
        requires
            size <= 64,
            count <= 0xFFFF_FFFF,
    ;
    (offset as u64) + size * (count as u64) <= len as u64
}

/// Every vertex index of `t` lies inside the vertex table of `d`.
pub open spec fn triangle_in_range(d: DZB, t: Triangle) -> bool {
    &&& t.vert_idx[0] < d.verts@.len()
    &&& t.vert_idx[1] < d.verts@.len()
    &&& t.vert_idx[2] < d.verts@.len()
}

/// The corners of `t`, looked up in the vertex table of `d`.
pub open spec fn corners_of(d: DZB, t: Triangle) -> TriangleCorners {
    TriangleCorners {
        v0: d.verts@[t.vert_idx[0] as int],
        v1: d.verts@[t.vert_idx[1] as int],
        v2: d.verts@[t.vert_idx[2] as int],
    }
}

impl DZB {
    /// The corners of each triangle, in order; fails when a vertex index lies outside
    /// the vertex table.
    pub fn get_triangle_corners(&self) -> (r: Result<Vec<TriangleCorners>, DecodeError>)
        ensures
            r is Ok <==> forall|i: int|
                0 <= i < self.tris@.len() ==> triangle_in_range(*self, #[trigger] self.tris@[i]),
            r matches Ok(v) ==> v@.len() == self.tris@.len() && forall|i: int|
                0 <= i < self.tris@.len() ==> #[trigger] v@[i] == corners_of(
                    *self,
                    self.tris@[i],
                ),
            r is Err ==> r == Err::<Vec<TriangleCorners>, DecodeError>(
                DecodeError::IndexOutOfRange,
            ),
    {
        let mut v: Vec<TriangleCorners> = Vec::new();
        let mut i: usize = 0;
        while i < self.tris.len()
            invariant
                i <= self.tris@.len(),
                v@.len() == i,
                forall|k: int| 0 <= k < i ==> triangle_in_range(*self, #[trigger] self.tris@[k]),
                forall|k: int| 0 <= k < i ==> #[trigger] v@[k] == corners_of(*self, self.tris@[k]),
            decreases self.tris@.len() - i,
        {
            let t = self.tris[i];
            let n = self.verts.len();
            if t.vert_idx[0] as usize >= n || t.vert_idx[1] as usize >= n || t.vert_idx[2] as usize
                >= n {
                return Err(DecodeError::IndexOutOfRange);
            }
            v.push(
                TriangleCorners {
                    v0: self.verts[t.vert_idx[0] as usize],
                    v1: self.verts[t.vert_idx[1] as usize],
                    v2: self.verts[t.vert_idx[2] as usize],
                },
            );
            i = i + 1;
        }
        Ok(v)
    }

    /// The attribute record of each triangle, in order; fails when a triangle's property
    /// index is not below the number of records.
    pub fn get_properties(&self, plc: &PLC) -> (r: Result<Vec<PLCEntry>, DecodeError>)
        ensures
            r is Ok <==> forall|i: int|
                0 <= i < self.tris@.len() ==> #[trigger] self.tris@[i].prop_idx
                    < plc.entries@.len(),
            r matches Ok(v) ==> v@.len() == self.tris@.len() && forall|i: int|
                0 <= i < self.tris@.len() ==> #[trigger] v@[i]
                    == plc.entries@[self.tris@[i].prop_idx as int],
            r is Err ==> r == Err::<Vec<PLCEntry>, DecodeError>(DecodeError::IndexOutOfRange),
    {
        let mut indices: Vec<u16> = Vec::new();
        let mut i: usize = 0;
        while i < self.tris.len()
            invariant
                i <= self.tris@.len(),
                indices@.len() == i,
                forall|k: int| 0 <= k < i ==> #[trigger] indices@[k] == self.tris@[k].prop_idx,
            decreases self.tris@.len() - i,
        {
            indices.push(self.tris[i].prop_idx);
            i = i + 1;
        }
        let r = plc.entries_for(&indices);
        assert((forall|k: int| 0 <= k < i ==> #[trigger] indices@[k] < plc.entries@.len()) <==> (
        forall|k: int| 0 <= k < i ==> #[trigger] self.tris@[k].prop_idx < plc.entries@.len()))
            by {
            if forall|k: int| 0 <= k < i ==> #[trigger] self.tris@[k].prop_idx
                < plc.entries@.len() {
                assert forall|k: int| 0 <= k < i implies #[trigger] indices@[k]
                    < plc.entries@.len() by {
                    assert(indices@[k] == self.tris@[k].prop_idx);
                }
            }
            if forall|k: int| 0 <= k < i ==> #[trigger] indices@[k] < plc.entries@.len() {
                assert forall|k: int| 0 <= k < i implies #[trigger] self.tris@[k].prop_idx
                    < plc.entries@.len() by {
                    assert(indices@[k] == self.tris@[k].prop_idx);
                }
            }
        }
        r
    }

    /// Decodes a flat-format file: a header of six (count, offset) pairs and a padding
    /// word, then each section's records read at its offset. Fails when the header or a
    /// section does not lie inside the buffer.
    pub fn from_file(buf: &[u8]) -> (r: Result<DZB, DecodeError>)
        ensures
            dzb_fits(buf@) ==> (r matches Ok(d) && dzb_decodes(buf@, d)),
            !dzb_fits(buf@) ==> r == Err::<DZB, DecodeError>(DecodeError::TruncatedBuffer),
    {
        let len = buf.len();
        if len < DZB_HEADER_SIZE {
            return Err(DecodeError::TruncatedBuffer);
        }
        let vert_count = read_u32(buf, 0);
        let vert_offset = read_u32(buf, 4);
        let triangle_count = read_u32(buf, 8);
        let triangle_offset = read_u32(buf, 12);
        let blocks_count = read_u32(buf, 16);
        let blocks_offset = read_u32(buf, 20);
        let tree_nodes_count = read_u32(buf, 24);
        let tree_nodes_offset = read_u32(buf, 28);
        let groups_count = read_u32(buf, 32);
        let groups_offset = read_u32(buf, 36);
        let properties_count = read_u32(buf, 40);
        let properties_offset = read_u32(buf, 44);
        if !(fits(len, vert_offset, vert_count, 12) && fits(
            len,
            triangle_offset,
            triangle_count,
            10,
        ) && fits(len, blocks_offset, blocks_count, 2) && fits(
            len,
            tree_nodes_offset,
            tree_nodes_count,
            20,
        ) && fits(len, groups_offset, groups_count, 50) && fits(
            len,
            properties_offset,
            properties_count,
            16,
        )) {
            return Err(DecodeError::TruncatedBuffer);
        }
        let verts = match read_vec3_table(buf, vert_offset, vert_count) {
            Ok(v) => v,
            Err(e) => {
                return Err(e);
            },
        };
        let tris = read_triangles(buf, triangle_offset, triangle_count);
        let blocks = read_blocks(buf, blocks_offset, blocks_count);
        let tree_nodes = read_nodes(buf, tree_nodes_offset, tree_nodes_count);
        let groups = read_groups(buf, groups_offset, groups_count);
        let properties = read_properties(buf, properties_offset, properties_count);
        Ok(DZB { verts, tris, blocks, tree_nodes, groups, properties })
    }
}

} // verus!
