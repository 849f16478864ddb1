use vstd::prelude::*;

use crate::bytes::{be_u16, be_u32, read_u16, read_u32};
use crate::error::DecodeError;

verus! {

/// Size in bytes of one attribute record: five 32-bit codes.
pub const PLC_ENTRY_SIZE: u16 = 0x14;

/// Size in bytes of the table header: signature, record size and record count.
pub const PLC_HEADER_SIZE: usize = 8;

/// One attribute record: five packed codes.
#[derive(Debug, Clone, Copy, PartialEq, Eq)]
pub struct PLCEntry {
    pub codes: [u32; 5],
}

/// A decoded attribute table.
#[derive(Debug, Clone)]
pub struct PLC {
    pub entries: Vec<PLCEntry>,
}

/// The table starts with the ASCII signature `SPLC`.
pub open spec fn has_plc_magic(buf: Seq<u8>) -> bool {
    &&& buf.len() >= 4
    &&& buf[0] == 0x53u8
    &&& buf[1] == 0x50u8
    &&& buf[2] == 0x4Cu8
    &&& buf[3] == 0x43u8
}

/// The record count stored in the header.
pub open spec fn plc_count(buf: Seq<u8>) -> int {
    be_u16(buf, 6) as int
}

/// `e` holds the five codes stored at byte offset `at`.
pub open spec fn entry_at(buf: Seq<u8>, at: int, e: PLCEntry) -> bool {
    forall|k: int| 0 <= k < 5 ==> #[trigger] e.codes[k] == be_u32(buf, at + 4 * k)
}

/// `entries` are the records of the table in `buf`, in the order stored.
pub open spec fn plc_entries(buf: Seq<u8>, entries: Seq<PLCEntry>) -> bool {
    &&& entries.len() == plc_count(buf)
    &&& forall|i: int|
        0 <= i < entries.len() ==> entry_at(
            buf,
            PLC_HEADER_SIZE + PLC_ENTRY_SIZE * i,
            #[trigger] entries[i],
        )
}

/// Reads the five codes of the record at byte offset `at`.
fn read_entry(buf: &[u8], at: usize) -> (e: PLCEntry)
    requires
        at + 20 <= buf.len(),
    ensures
        entry_at(buf@, at as int, e),
{
    let codes = [
        read_u32(buf, at),
        read_u32(buf, at + 4),
        read_u32(buf, at + 8),
        read_u32(buf, at + 12),
        read_u32(buf, at + 16),
    ];
    let e = PLCEntry { codes };
    assert forall|k: int| 0 <= k < 5 implies #[trigger] e.codes[k] == be_u32(buf@, at + 4 * k) by {
        if k == 0 {
        } else if k == 1 {
        } else if k == 2 {
        } else if k == 3 {
        } else {
        }
    }
    e
}

impl PLC {
    /// The records that `indices` name, in order; fails when an index is not below the
    /// number of records.
    pub fn entries_for(&self, indices: &Vec<u16>) -> (r: Result<Vec<PLCEntry>, DecodeError>)
        ensures
            r is Ok <==> forall|i: int|
                0 <= i < indices@.len() ==> #[trigger] indices@[i] < self.entries@.len(),
            r matches Ok(v) ==> v@.len() == indices@.len() && forall|i: int|
                0 <= i < indices@.len() ==> #[trigger] v@[i] == self.entries@[indices@[i] as int],
            r is Err ==> r == Err::<Vec<PLCEntry>, DecodeError>(DecodeError::IndexOutOfRange),
    {
        let mut v: Vec<PLCEntry> = Vec::new();
        let mut i: usize = 0;
        while i < indices.len()
            invariant
                i <= indices@.len(),
                v@.len() == i,
                forall|k: int| 0 <= k < i ==> #[trigger] indices@[k] < self.entries@.len(),
                forall|k: int|
                    0 <= k < i ==> #[trigger] v@[k] == self.entries@[indices@[k] as int],
            decreases indices@.len() - i,
        {
            let idx = indices[i] as usize;
            if idx >= self.entries.len() {
                return Err(DecodeError::IndexOutOfRange);
            }
            v.push(self.entries[idx]);
            i = i + 1;
        }
        Ok(v)
    }

    /// Decodes an attribute table: the signature `SPLC`, a 16-bit record size that must
    /// be 20, a 16-bit record count, then the records.
    pub fn from_file(buf: &[u8]) -> (r: Result<PLC, DecodeError>)
        ensures
            buf@.len() < 4 ==> r == Err::<PLC, DecodeError>(DecodeError::TruncatedBuffer),
            buf@.len() >= 4 && !has_plc_magic(buf@) ==> r == Err::<PLC, DecodeError>(
                DecodeError::InvalidMagic,
            ),
            has_plc_magic(buf@) && buf@.len() < 6 ==> r == Err::<PLC, DecodeError>(
                DecodeError::TruncatedBuffer,
            ),
            has_plc_magic(buf@) && buf@.len() >= 6 && be_u16(buf@, 4) != PLC_ENTRY_SIZE ==> r
                == Err::<PLC, DecodeError>(DecodeError::InvalidStride),
            has_plc_magic(buf@) && buf@.len() >= 6 && be_u16(buf@, 4) == PLC_ENTRY_SIZE ==> {
                if buf@.len() >= PLC_HEADER_SIZE && PLC_HEADER_SIZE + PLC_ENTRY_SIZE * plc_count(
                    buf@,
                ) <= buf@.len() {
                    r matches Ok(p) && plc_entries(buf@, p.entries@)
                } else {
                    r == Err::<PLC, DecodeError>(DecodeError::TruncatedBuffer)
                }
            },
    {
        if buf.len() < 4 {
            return Err(DecodeError::TruncatedBuffer);
        }
        if !(buf[0] == 0x53u8 && buf[1] == 0x50u8 && buf[2] == 0x4Cu8 && buf[3] == 0x43u8) {
            return Err(DecodeError::InvalidMagic);
        }
        if buf.len() < 6 {
            return Err(DecodeError::TruncatedBuffer);
        }
        let entry_size = read_u16(buf, 4);
        if entry_size != PLC_ENTRY_SIZE {
            return Err(DecodeError::InvalidStride);
        }
        if buf.len() < PLC_HEADER_SIZE {
            return Err(DecodeError::TruncatedBuffer);
        }
        let num_entries = read_u16(buf, 6);
        let size: usize = 20;
        if (buf.len() - PLC_HEADER_SIZE) / size < num_entries as usize {
            return Err(DecodeError::TruncatedBuffer);
        }
        let mut entries: Vec<PLCEntry> = Vec::new();
        let mut i: usize = 0;
        while i < num_entries as usize
            invariant
                num_entries == plc_count(buf@),
                PLC_HEADER_SIZE + 20 * num_entries <= buf@.len(),
                i <= num_entries,
                entries@.len() == i,
                forall|k: int|
                    0 <= k < i ==> entry_at(
                        buf@,
                        PLC_HEADER_SIZE + PLC_ENTRY_SIZE * k,
                        #[trigger] entries@[k],
                    ),
            decreases num_entries - i,
        {
            let e = read_entry(buf, PLC_HEADER_SIZE + 20 * i);
            entries.push(e);
            i = i + 1;
        }
        Ok(PLC { entries })
    }
}

} // verus!
