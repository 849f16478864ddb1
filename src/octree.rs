use vstd::prelude::*;

use crate::bytes::{be_u16, be_u32, read_u16, read_u32};
use crate::error::DecodeError;

verus! {

broadcast use vstd::std_specs::vec::group_vec_axioms;

/// The deepest branch level the decoder accepts; the root is level 0.
pub const MAX_OCTREE_DEPTH: u32 = 32;

/// A node value with this bit set points at a leaf.
pub const LEAF_FLAG: u32 = 0x8000_0000;

/// The spatial index of the prism format.
#[derive(Debug)]
pub enum Octree {
    /// Prism indices, 1-based, in the order stored.
    Leaf(Vec<u16>),
    /// Child subtrees, in the order of their offsets.
    Branch(Vec<Octree>),
}

/// The node value has its top bit set: it points at a leaf.
pub open spec fn is_leaf_value(value: u32) -> bool {
    value >= LEAF_FLAG
}

/// Where a leaf's entries begin: the stored pointer addresses the slot before the first entry.
pub open spec fn leaf_start(value: u32) -> int {
    value - LEAF_FLAG + 2
}

/// `idx` is the run of big-endian 16-bit entries from `start` up to, and excluding,
/// the first 0; that 0 lies inside the buffer.
pub open spec fn leaf_run(buf: Seq<u8>, start: int, idx: Seq<u16>) -> bool {
    &&& 0 <= start
    &&& start + 2 * idx.len() + 2 <= buf.len()
    &&& forall|k: int|
        0 <= k < idx.len() ==> #[trigger] idx[k] == be_u16(buf, start + 2 * k) && idx[k] != 0
    &&& be_u16(buf, start + 2 * idx.len()) == 0
}

/// The node value of child `i` of the branch at `base`: the stored offset plus the base.
pub open spec fn child_value(buf: Seq<u8>, base: u32, i: int) -> int {
    be_u32(buf, base + 4 * i) as int + base as int
}

/// A child value the decoder follows: it fits in 32 bits and, for a branch, lies
/// strictly after its parent.
pub open spec fn child_ok(base: u32, c: int) -> bool {
    &&& c < 0x1_0000_0000
    &&& (c < LEAF_FLAG ==> c > base)
}

/// Child `i` of the branch at `base`, on branch level `depth`, decodes to `t`.
pub open spec fn child_decodes(buf: Seq<u8>, base: u32, depth: nat, i: int, t: Octree) -> bool
    decreases t, 1nat,
{
    &&& child_ok(base, child_value(buf, base, i))
    &&& decodes_octree(buf, child_value(buf, base, i) as u32, 8, depth + 1, t)
}

/// `t` is what the node `value` with `n` children, at branch level `depth`, decodes to.
pub open spec fn decodes_octree(buf: Seq<u8>, value: u32, n: nat, depth: nat, t: Octree) -> bool
    decreases t, 0nat,
{
    match t {
        Octree::Leaf(v) => is_leaf_value(value) && leaf_run(buf, leaf_start(value), v@),
        Octree::Branch(ch) => {
            &&& !is_leaf_value(value)
            &&& depth < MAX_OCTREE_DEPTH
            &&& ch.len() == n
            &&& value + 4 * n <= buf.len()
            &&& forall|i: int| 0 <= i < n ==> child_decodes(buf, value, depth, i, #[trigger] ch[i])
        },
    }
}

/// Reads the entries of a leaf that begin at `start`, up to the first 0.
pub fn read_leaf(buf: &[u8], start: usize) -> (r: Result<Vec<u16>, DecodeError>)
    ensures
        r matches Ok(v) ==> leaf_run(buf@, start as int, v@),
        r is Err ==> r == Err::<Vec<u16>, DecodeError>(DecodeError::MalformedOctree)
            && forall|v: Seq<u16>| !leaf_run(buf@, start as int, v),
{
    let mut indices: Vec<u16> = Vec::new();
    let mut pos: usize = start;
    while pos <= buf.len() && buf.len() - pos >= 2
        invariant
            pos == start + 2 * indices@.len(),
            forall|k: int|
                0 <= k < indices@.len() ==> #[trigger] indices@[k] == be_u16(buf@, start + 2 * k)
                    && indices@[k] != 0,
        decreases buf.len() + 2 - pos,
    {
        let idx = read_u16(buf, pos);
        if idx == 0 {
            return Ok(indices);
        }
        indices.push(idx);
        pos = pos + 2;
    }
    assert forall|v: Seq<u16>| !leaf_run(buf@, start as int, v) by {
        if leaf_run(buf@, start as int, v) {
            if v.len() < indices@.len() {
                assert(indices@[v.len() as int] == be_u16(buf@, start + 2 * v.len()));
            }
        }
    }
    Err(DecodeError::MalformedOctree)
}

/// The largest entry of `s`, or 0 when `s` is empty.
pub open spec fn seq_max(s: Seq<u16>) -> nat
    decreases s.len(),
{
    if s.len() == 0 {
        0
    } else {
        let m = seq_max(s.drop_last());
        if s.last() as nat > m {
            s.last() as nat
        } else {
            m
        }
    }
}

/// The largest prism index in any leaf of the trees of `s`, or 0 when they hold none.
pub open spec fn forest_max(s: Seq<Octree>) -> nat
    decreases s,
{
    if s.len() == 0 {
        0
    } else {
        let rest = forest_max(s.subrange(0, s.len() - 1));
        let last = match s[s.len() - 1] {
            Octree::Leaf(v) => seq_max(v@),
            Octree::Branch(ch) => forest_max(ch@),
        };
        if last > rest {
            last
        } else {
            rest
        }
    }
}

/// The largest prism index in any leaf of `t`, or 0 when it holds none.
pub open spec fn highest_index(t: Octree) -> nat {
    forest_max(seq![t])
}

/// The largest index directly below the root of `t`.
pub open spec fn node_max(t: Octree) -> nat {
    match t {
        Octree::Leaf(v) => seq_max(v@),
        Octree::Branch(ch) => forest_max(ch@),
    }
}

proof fn lemma_highest_index_unfold(t: Octree)
    ensures
        highest_index(t) == node_max(t),
{
    reveal_with_fuel(forest_max, 2);
    assert(seq![t].subrange(0, 0) == Seq::<Octree>::empty());
}

proof fn lemma_forest_max_push(s: Seq<Octree>, i: int)
    requires
        0 <= i < s.len(),
    ensures
        forest_max(s.subrange(0, i + 1)) == if node_max(s[i]) > forest_max(s.subrange(0, i)) {
            node_max(s[i])
        } else {
            forest_max(s.subrange(0, i))
        },
{
    assert(s.subrange(0, i + 1).subrange(0, i) == s.subrange(0, i));
}

/// `x` is an entry of some leaf of the trees of `s`.
pub open spec fn forest_contains(s: Seq<Octree>, x: u16) -> bool
    decreases s,
{
    if s.len() == 0 {
        false
    } else {
        ||| forest_contains(s.subrange(0, s.len() - 1), x)
        ||| match s[s.len() - 1] {
            Octree::Leaf(v) => v@.contains(x),
            Octree::Branch(ch) => forest_contains(ch@, x),
        }
    }
}

/// `x` is an entry of some leaf of `t`.
pub open spec fn leaf_contains(t: Octree, x: u16) -> bool {
    forest_contains(seq![t], x)
}

proof fn lemma_seq_max(s: Seq<u16>)
    ensures
        forall|x: u16| s.contains(x) ==> x <= seq_max(s),
        seq_max(s) > 0 ==> s.contains(seq_max(s) as u16),
        seq_max(s) <= 0xFFFF,
    decreases s.len(),
{
    if s.len() > 0 {
        let rest = s.drop_last();
        lemma_seq_max(rest);
        assert(s == rest.push(s.last()));
        assert forall|x: u16| s.contains(x) implies x <= seq_max(s) by {
            let k = choose|k: int| 0 <= k < s.len() && s[k] == x;
            if k < s.len() - 1 {
                assert(rest[k] == x);
                assert(rest.contains(x));
            }
        }
        if seq_max(s) > 0 && seq_max(s) != s.last() {
            let k = choose|k: int| 0 <= k < rest.len() && rest[k] == seq_max(rest) as u16;
            assert(s[k] == seq_max(s) as u16);
        }
        if seq_max(s) == s.last() {
            assert(s[s.len() - 1] == seq_max(s) as u16);
        }
    }
}

proof fn lemma_forest_max(s: Seq<Octree>)
    ensures
        forall|x: u16| forest_contains(s, x) ==> x <= forest_max(s),
        forest_max(s) > 0 ==> forest_contains(s, forest_max(s) as u16),
        forest_max(s) <= 0xFFFF,
    decreases s,
{
    if s.len() > 0 {
        let rest = s.subrange(0, s.len() - 1);
        lemma_forest_max(rest);
        match s[s.len() - 1] {
            Octree::Leaf(v) => {
                lemma_seq_max(v@);
                assert forall|x: u16| forest_contains(s, x) implies x <= forest_max(s) by {
                    if forest_contains(rest, x) {
                        assert(x <= forest_max(rest));
                    } else {
                        assert(v@.contains(x));
                    }
                }
            },
            Octree::Branch(ch) => {
                lemma_forest_max(ch@);
                assert forall|x: u16| forest_contains(s, x) implies x <= forest_max(s) by {
                    if forest_contains(rest, x) {
                        assert(x <= forest_max(rest));
                    } else {
                        assert(forest_contains(ch@, x));
                    }
                }
            },
        }
    }
}

/// The highest index of a tree is the largest entry of its leaves: no leaf holds a
/// larger one and, unless it is 0, some leaf holds it.
pub proof fn lemma_highest_index_is_max(t: Octree)
    ensures
        forall|x: u16| leaf_contains(t, x) ==> x <= highest_index(t),
        highest_index(t) > 0 ==> leaf_contains(t, highest_index(t) as u16),
{
    lemma_forest_max(seq![t]);
}

/// A decoded spatial index never lists the sentinel 0 as a prism index.
pub proof fn lemma_decoded_has_no_zero(buf: Seq<u8>, value: u32, n: nat, depth: nat, t: Octree)
    requires
        decodes_octree(buf, value, n, depth, t),
    ensures
        !leaf_contains(t, 0),
    decreases t, 0nat,
{
    reveal_with_fuel(forest_contains, 2);
    assert(seq![t].subrange(0, 0) == Seq::<Octree>::empty());
    match t {
        Octree::Leaf(v) => {
            if v@.contains(0) {
                let k = choose|k: int| 0 <= k < v@.len() && v@[k] == 0;
                assert(v@[k] != 0);
            }
        },
        Octree::Branch(ch) => {
            assert(decreases_to!(t => t->Branch_0));
            lemma_children_have_no_zero(buf, value, depth, ch@, n as int);
            assert(ch@.subrange(0, n as int) == ch@);
        },
    }
}

proof fn lemma_children_have_no_zero(buf: Seq<u8>, base: u32, depth: nat, ch: Seq<Octree>, k: int)
    requires
        0 <= k <= ch.len(),
        forall|i: int| 0 <= i < k ==> child_decodes(buf, base, depth, i, #[trigger] ch[i]),
    ensures
        !forest_contains(ch.subrange(0, k), 0),
    decreases ch, k,
{
    if k > 0 {
        lemma_children_have_no_zero(buf, base, depth, ch, k - 1);
        assert(ch.subrange(0, k).subrange(0, k - 1) == ch.subrange(0, k - 1));
        assert(child_decodes(buf, base, depth, k - 1, ch[k - 1]));
        lemma_decoded_has_no_zero(
            buf,
            child_value(buf, base, k - 1) as u32,
            8,
            depth + 1,
            ch[k - 1],
        );
        reveal_with_fuel(forest_contains, 2);
        assert(seq![ch[k - 1]].subrange(0, 0) == Seq::<Octree>::empty());
        assert(ch.subrange(0, k)[k - 1] == ch[k - 1]);
    }
}

/// A leaf's entries are fixed by the buffer and the start offset.
pub proof fn lemma_leaf_run_unique(buf: Seq<u8>, start: int, v1: Seq<u16>, v2: Seq<u16>)
    requires
        leaf_run(buf, start, v1),
        leaf_run(buf, start, v2),
    ensures
        v1 == v2,
{
    if v1.len() < v2.len() {
        assert(v2[v1.len() as int] == be_u16(buf, start + 2 * v1.len()));
    } else if v2.len() < v1.len() {
        assert(v1[v2.len() as int] == be_u16(buf, start + 2 * v2.len()));
    } else {
        assert forall|k: int| 0 <= k < v1.len() implies v1[k] == v2[k] by {
            assert(v1[k] == be_u16(buf, start + 2 * k));
            assert(v2[k] == be_u16(buf, start + 2 * k));
        }
        assert(v1 =~= v2);
    }
}

/// All trees that a node decodes to agree on their highest index.
pub proof fn lemma_decoded_highest_unique(
    buf: Seq<u8>,
    value: u32,
    n: nat,
    depth: nat,
    t1: Octree,
    t2: Octree,
)
    requires
        decodes_octree(buf, value, n, depth, t1),
        decodes_octree(buf, value, n, depth, t2),
    ensures
        highest_index(t1) == highest_index(t2),
    decreases t1, 0nat,
{
    lemma_highest_index_unfold(t1);
    lemma_highest_index_unfold(t2);
    match t1 {
        Octree::Leaf(v1) => {
            if let Octree::Leaf(v2) = t2 {
                lemma_leaf_run_unique(buf, leaf_start(value), v1@, v2@);
            }
        },
        Octree::Branch(c1) => {
            if let Octree::Branch(c2) = t2 {
                assert(decreases_to!(t1 => t1->Branch_0));
                lemma_children_highest_unique(buf, value, depth, c1@, c2@, n as int);
                assert(c1@.subrange(0, n as int) == c1@);
                assert(c2@.subrange(0, n as int) == c2@);
            }
        },
    }
}

proof fn lemma_children_highest_unique(
    buf: Seq<u8>,
    base: u32,
    depth: nat,
    c1: Seq<Octree>,
    c2: Seq<Octree>,
    k: int,
)
    requires
        0 <= k <= c1.len(),
        k <= c2.len(),
        forall|i: int| 0 <= i < k ==> child_decodes(buf, base, depth, i, #[trigger] c1[i]),
        forall|i: int| 0 <= i < k ==> child_decodes(buf, base, depth, i, #[trigger] c2[i]),
    ensures
        forest_max(c1.subrange(0, k)) == forest_max(c2.subrange(0, k)),
    decreases c1, k,
{
    if k > 0 {
        lemma_children_highest_unique(buf, base, depth, c1, c2, k - 1);
        assert(child_decodes(buf, base, depth, k - 1, c1[k - 1]));
        assert(child_decodes(buf, base, depth, k - 1, c2[k - 1]));
        lemma_decoded_highest_unique(
            buf,
            child_value(buf, base, k - 1) as u32,
            8,
            depth + 1,
            c1[k - 1],
            c2[k - 1],
        );
        lemma_highest_index_unfold(c1[k - 1]);
        lemma_highest_index_unfold(c2[k - 1]);
        lemma_forest_max_push(c1, k - 1);
        lemma_forest_max_push(c2, k - 1);
    }
}

impl Octree {
    /// Decodes the node `value` of a spatial index in `buf`. The root call passes the
    /// header's index offset and the top-level cell count; every deeper branch has 8 children.
    pub fn new(value: u32, buf: &[u8], num_children: u32) -> (r: Result<Octree, DecodeError>)
        ensures
            r matches Ok(t) ==> decodes_octree(buf@, value, num_children as nat, 0, t),
            r is Err ==> r == Err::<Octree, DecodeError>(DecodeError::MalformedOctree)
                && forall|t: Octree| !decodes_octree(buf@, value, num_children as nat, 0, t),
    {
        Octree::decode(value, buf, num_children, 0)
    }

    fn decode(value: u32, buf: &[u8], num_children: u32, depth: u32) -> (r: Result<
        Octree,
        DecodeError,
    >)
        requires
            depth <= MAX_OCTREE_DEPTH,
        ensures
            r matches Ok(t) ==> decodes_octree(buf@, value, num_children as nat, depth as nat, t),
            r is Err ==> r == Err::<Octree, DecodeError>(DecodeError::MalformedOctree)
                && forall|t: Octree|
                !decodes_octree(buf@, value, num_children as nat, depth as nat, t),
        decreases MAX_OCTREE_DEPTH - depth,
    {
        if value >= LEAF_FLAG {
            let start = (value - LEAF_FLAG + 2) as usize;
            match read_leaf(buf, start) {
                Ok(indices) => {
                    return Ok(Octree::Leaf(indices));
                },
                Err(e) => {
                    assert forall|t: Octree|
                        !decodes_octree(buf@, value, num_children as nat, depth as nat, t) by {
                        if let Octree::Leaf(v) = t {
                            assert(!leaf_run(buf@, leaf_start(value), v@));
                        }
                    }
                    return Err(e);
                },
            }
        }
        if depth >= MAX_OCTREE_DEPTH || (buf.len() as u64) < (value as u64) + 4 * (
        num_children as u64) {
            return Err(DecodeError::MalformedOctree);
        }
        let len = buf.len();
        let mut children: Vec<Octree> = Vec::new();
        let mut i: u32 = 0;
        while i < num_children
            invariant
                len == buf@.len(),
                !is_leaf_value(value),
                depth < MAX_OCTREE_DEPTH,
                i <= num_children,
                value + 4 * num_children <= buf@.len(),
                children@.len() == i,
                forall|k: int|
                    0 <= k < i ==> child_decodes(buf@, value, depth as nat, k, #[trigger] children@[k]),
            decreases num_children - i,
        {
            let at: usize = value as usize + 4 * (i as usize);
            let rel = read_u32(buf, at);
            let c: u64 = rel as u64 + value as u64;
            assert(c == child_value(buf@, value, i as int));
            if c >= 0x1_0000_0000 || (c < LEAF_FLAG as u64 && c <= value as u64) {
                assert forall|t: Octree|
                    !decodes_octree(buf@, value, num_children as nat, depth as nat, t) by {
                    if let Octree::Branch(ch) = t {
                        if decodes_octree(buf@, value, num_children as nat, depth as nat, t) {
                            let _ = ch[i as int];
                        }
                    }
                }
                return Err(DecodeError::MalformedOctree);
            }
            let ghost old_children = children@;
            match Octree::decode(c as u32, buf, 8, depth + 1) {
                Ok(child) => {
                    children.push(child);
                    assert forall|k: int| 0 <= k < i + 1 implies child_decodes(
                        buf@,
                        value,
                        depth as nat,
                        k,
                        #[trigger] children@[k],
                    ) by {
                        if k < i {
                            assert(children@[k] == old_children[k]);
                        }
                    }
                },
                Err(e) => {
                    assert(child_value(buf@, value, i as int) as u32 == c as u32);
                    assert forall|t: Octree|
                        !decodes_octree(buf@, value, num_children as nat, depth as nat, t) by {
                        if let Octree::Branch(ch) = t {
                            assert(!decodes_octree(
                                buf@,
                                c as u32,
                                8,
                                (depth + 1) as nat,
                                ch[i as int],
                            ));
                        }
                    }
                    return Err(e);
                },
            }
            i = i + 1;
        }
        Ok(Octree::Branch(children))
    }

    /// The largest prism index stored in any leaf, or 0 when no leaf holds one.
    pub fn get_highest_index(&self) -> (r: usize)
        ensures
            r == highest_index(*self),
            r <= 0xFFFF,
        decreases self,
    {
        proof {
            lemma_highest_index_unfold(*self);
        }
        match self {
            Octree::Leaf(vals) => {
                let mut max: u16 = 0;
                let mut i: usize = 0;
                while i < vals.len()
                    invariant
                        i <= vals@.len(),
                        max == seq_max(vals@.subrange(0, i as int)),
                    decreases vals@.len() - i,
                {
                    assert(vals@.subrange(0, i + 1).drop_last() == vals@.subrange(0, i as int));
                    if vals[i] > max {
                        max = vals[i];
                    }
                    i = i + 1;
                }
                assert(vals@.subrange(0, i as int) == vals@);
                max as usize
            },
            Octree::Branch(children) => {
                let mut max: usize = 0;
                let mut i: usize = 0;
                while i < children.len()
                    invariant
                        i <= children@.len(),
                        *self == Octree::Branch(*children),
                        max == forest_max(children@.subrange(0, i as int)),
                        max <= 0xFFFF,
                    decreases children@.len() - i,
                {
                    proof {
                        lemma_highest_index_unfold(children@[i as int]);
                        lemma_forest_max_push(children@, i as int);
                        assert(decreases_to!(*self => self->Branch_0));
                        assert(decreases_to!(*children => children[i as int]));
                    }
                    let val = children[i].get_highest_index();
                    if val > max {
                        max = val;
                    }
                    i = i + 1;
                }
                assert(children@.subrange(0, i as int) == children@);
                max
            },
        }
    }
}

} // verus!
