use vstd::prelude::*;

use crate::error::DecodeError;

verus! {

/// Three single-precision floats (x, y, z), kept as their IEEE-754 bit patterns.
#[derive(Debug, Clone, Copy, PartialEq, Eq, Structural)]
pub struct Vec3Bits {
    pub x: u32,
    pub y: u32,
    pub z: u32,
}

/// Size in bytes of a stored vector.
pub const VEC3_SIZE: usize = 12;

/// The big-endian 16-bit value stored at `at` in `b`.
pub open spec fn be_u16(b: Seq<u8>, at: int) -> u16 {
    (b[at] as int * 0x100 + b[at + 1] as int) as u16
}

/// The big-endian 32-bit value stored at `at` in `b`.
pub open spec fn be_u32(b: Seq<u8>, at: int) -> u32 {
    (b[at] as int * 0x100_0000 + b[at + 1] as int * 0x1_0000 + b[at + 2] as int * 0x100
        + b[at + 3] as int) as u32
}

/// Reads a big-endian `u16` at byte offset `at`.
pub fn read_u16(buf: &[u8], at: usize) -> (r: u16)
    requires
        at + 2 <= buf.len(),
    ensures
        r == be_u16(buf@, at as int),
{
    (buf[at] as u16) * 0x100 + (buf[at + 1] as u16)
}

/// Reads a big-endian `u32` at byte offset `at`.
pub fn read_u32(buf: &[u8], at: usize) -> (r: u32)
    requires
        at + 4 <= buf.len(),
    ensures
        r == be_u32(buf@, at as int),
{
    (buf[at] as u32) * 0x100_0000 + (buf[at + 1] as u32) * 0x1_0000 + (buf[at + 2] as u32) * 0x100
        + (buf[at + 3] as u32)
}

/// The vector stored at `at` in `b`.
pub open spec fn vec3_at(b: Seq<u8>, at: int) -> Vec3Bits {
    Vec3Bits { x: be_u32(b, at), y: be_u32(b, at + 4), z: be_u32(b, at + 8) }
}

/// `v` is the table of `count` vectors stored from `offset` in `b`, which holds all of them.
pub open spec fn vec3_table(b: Seq<u8>, offset: int, count: int, v: Seq<Vec3Bits>) -> bool {
    &&& offset + VEC3_SIZE * count <= b.len()
    &&& v.len() == count
    &&& forall|i: int| 0 <= i < count ==> #[trigger] v[i] == vec3_at(b, offset + VEC3_SIZE * i)
}

/// Reads the vector stored at byte offset `at`.
pub fn read_vec3(buf: &[u8], at: usize) -> (r: Vec3Bits)
    requires
        at + VEC3_SIZE <= buf.len(),
    ensures
        r == vec3_at(buf@, at as int),
{
    Vec3Bits { x: read_u32(buf, at), y: read_u32(buf, at + 4), z: read_u32(buf, at + 8) }
}

/// Reads `count` vectors stored from byte offset `offset`; fails when they do not fit.
pub fn read_vec3_table(buf: &[u8], offset: u32, count: u32) -> (r: Result<
    Vec<Vec3Bits>,
    DecodeError,
>)
    ensures
        offset + VEC3_SIZE * count <= buf@.len() ==> (r matches Ok(v) && vec3_table(
            buf@,
            offset as int,
            count as int,
            v@,
        )),
        offset + VEC3_SIZE * count > buf@.len() ==> r == Err::<Vec<Vec3Bits>, DecodeError>(
            DecodeError::TruncatedBuffer,
        ),
{
    let len = buf.len();
    if (len as u64) < offset as u64 + 12 * (count as u64) {
        return Err(DecodeError::TruncatedBuffer);
    }
    let mut v: Vec<Vec3Bits> = Vec::new();
    let mut i: u32 = 0;
    while i < count
        invariant
            len == buf@.len(),
            offset + VEC3_SIZE * count <= len,
            i <= count,
            v@.len() == i,
            forall|k: int| 0 <= k < i ==> #[trigger] v@[k] == vec3_at(buf@, offset + VEC3_SIZE * k),
        decreases count - i,
    {
        let e = read_vec3(buf, offset as usize + 12 * (i as usize));
        v.push(e);
        i = i + 1;
    }
    Ok(v)
}

} // verus!
