use vstd::prelude::*;

use crate::plc::PLCEntry;

verus! {

/// How many field descriptors the table holds.
pub const FIELD_DESCRIPTOR_COUNT: usize = 32;

/// Where a field lies in an attribute record: `(codes[code_idx] >> shift) & mask`.
#[derive(Debug, Clone, Copy, PartialEq, Eq, Structural)]
pub struct ShiftMask {
    pub code_idx: usize,
    pub shift: u32,
    pub mask: u32,
}

/// How a field of an attribute record is read and shown.
#[derive(Debug, Clone, Copy, PartialEq, Eq, Structural)]
pub enum EntryType {
    /// No bitfield: show the face normal instead.
    Norm,
    /// A field of several values.
    Range(ShiftMask),
    /// A single flag bit.
    Single(ShiftMask),
}

/// The display color chosen for a field value.
#[derive(Debug, Clone, Copy, PartialEq, Eq, Structural)]
pub enum FieldColor {
    /// The value equals the selected one.
    Selected,
    /// A gray level of `value / max`.
    Gray { value: u32, max: u32 },
    /// The flag is set.
    FlagSet,
    /// The flag is clear.
    FlagClear,
}

impl ShiftMask {
    /// The code index names one of the five codes and the shift is below 32.
    pub open spec fn wf(self) -> bool {
        self.code_idx < 5 && self.shift < 32
    }

    /// The field's value in `e`.
    pub open spec fn field_value(self, e: PLCEntry) -> u32
        recommends
            self.wf(),
    {
        (e.codes[self.code_idx as int] >> self.shift) & self.mask
    }

    pub fn new(code_idx: usize, shift: u32, mask: u32) -> (r: ShiftMask)
        ensures
            r == (ShiftMask { code_idx, shift, mask }),
    {
        ShiftMask { code_idx, shift, mask }
    }

    /// Reads the field from `e`.
    pub fn extract(&self, e: &PLCEntry) -> (r: u32)
        requires
            self.wf(),
        ensures
            r == self.field_value(*e),
    {
        (e.codes[self.code_idx] >> self.shift) & self.mask
    }
}

/// The descriptor with number `id`, for `id` below the table's size.
pub open spec fn descriptor(id: usize) -> Option<EntryType> {
    match id {
        0 => Some(EntryType::Norm),
        1 => Some(EntryType::Range(ShiftMask { code_idx: 0, shift: 0, mask: 0x3F })),
        2 => Some(EntryType::Range(ShiftMask { code_idx: 0, shift: 6, mask: 0xFF })),
        3 => Some(EntryType::Single(ShiftMask { code_idx: 0, shift: 14, mask: 1 })),
        4 => Some(EntryType::Single(ShiftMask { code_idx: 0, shift: 15, mask: 1 })),
        5 => Some(EntryType::Single(ShiftMask { code_idx: 0, shift: 16, mask: 1 })),
        6 => Some(EntryType::Single(ShiftMask { code_idx: 0, shift: 17, mask: 1 })),
        7 => Some(EntryType::Single(ShiftMask { code_idx: 0, shift: 18, mask: 1 })),
        8 => Some(EntryType::Single(ShiftMask { code_idx: 0, shift: 19, mask: 1 })),
        9 => Some(EntryType::Single(ShiftMask { code_idx: 0, shift: 20, mask: 1 })),
        10 => Some(EntryType::Single(ShiftMask { code_idx: 0, shift: 21, mask: 1 })),
        11 => Some(EntryType::Single(ShiftMask { code_idx: 0, shift: 22, mask: 1 })),
        12 => Some(EntryType::Single(ShiftMask { code_idx: 0, shift: 23, mask: 1 })),
        13 => Some(EntryType::Single(ShiftMask { code_idx: 0, shift: 24, mask: 1 })),
        14 => Some(EntryType::Range(ShiftMask { code_idx: 0, shift: 28, mask: 0x3 })),
        15 => Some(EntryType::Single(ShiftMask { code_idx: 0, shift: 30, mask: 1 })),
        16 => Some(EntryType::Single(ShiftMask { code_idx: 0, shift: 31, mask: 1 })),
        17 => Some(EntryType::Range(ShiftMask { code_idx: 1, shift: 0, mask: 0xFF })),
        18 => Some(EntryType::Range(ShiftMask { code_idx: 1, shift: 8, mask: 0xF })),
        19 => Some(EntryType::Range(ShiftMask { code_idx: 1, shift: 17, mask: 0x7 })),
        20 => Some(EntryType::Range(ShiftMask { code_idx: 1, shift: 20, mask: 0x1F })),
        21 => Some(EntryType::Single(ShiftMask { code_idx: 1, shift: 25, mask: 1 })),
        22 => Some(EntryType::Single(ShiftMask { code_idx: 1, shift: 26, mask: 1 })),
        23 => Some(EntryType::Single(ShiftMask { code_idx: 1, shift: 27, mask: 1 })),
        24 => Some(EntryType::Range(ShiftMask { code_idx: 1, shift: 28, mask: 0xF })),
        25 => Some(EntryType::Range(ShiftMask { code_idx: 2, shift: 0, mask: 0xFF })),
        26 => Some(EntryType::Range(ShiftMask { code_idx: 2, shift: 8, mask: 0xFF })),
        27 => Some(EntryType::Range(ShiftMask { code_idx: 2, shift: 16, mask: 0xFF })),
        28 => Some(EntryType::Range(ShiftMask { code_idx: 2, shift: 24, mask: 0xFF })),
        29 => Some(EntryType::Range(ShiftMask { code_idx: 3, shift: 0, mask: 0x1F })),
        30 => Some(EntryType::Range(ShiftMask { code_idx: 3, shift: 5, mask: 0x3F })),
        31 => Some(EntryType::Range(ShiftMask { code_idx: 4, shift: 0, mask: 0xFFFF_FFFF })),
        _ => None,
    }
}

/// The value that descriptor `id` reads from `e`; none for the normal descriptor and
/// for numbers past the table.
pub open spec fn field_of(e: PLCEntry, id: usize) -> Option<u32> {
    match descriptor(id) {
        Some(EntryType::Range(sm)) => Some(sm.field_value(e)),
        Some(EntryType::Single(sm)) => Some(sm.field_value(e)),
        _ => None,
    }
}

/// The color that descriptor `id` gives `e` when `selection` is the highlighted value.
pub open spec fn color_of(e: PLCEntry, id: usize, selection: u32) -> Option<FieldColor> {
    match descriptor(id) {
        Some(EntryType::Range(sm)) => if sm.field_value(e) == selection {
            Some(FieldColor::Selected)
        } else {
            Some(FieldColor::Gray { value: sm.field_value(e), max: sm.mask })
        },
        Some(EntryType::Single(sm)) => if sm.field_value(e) & 1 == 1 {
            Some(FieldColor::FlagSet)
        } else {
            Some(FieldColor::FlagClear)
        },
        _ => None,
    }
}

/// The number of field descriptors.
pub fn field_descriptor_count() -> (r: usize)
    ensures
        r == FIELD_DESCRIPTOR_COUNT,
        forall|id: usize| id < r <==> #[trigger] descriptor(id) is Some,
{
    FIELD_DESCRIPTOR_COUNT
}

/// The descriptor with number `id`, or none past the end of the table.
pub fn field_descriptor(id: usize) -> (r: Option<EntryType>)
    ensures
        r == descriptor(id),
{
    match id {
        0 => Some(EntryType::Norm),
        1 => Some(EntryType::Range(ShiftMask::new(0, 0, 0x3F))),
        2 => Some(EntryType::Range(ShiftMask::new(0, 6, 0xFF))),
        3 => Some(EntryType::Single(ShiftMask::new(0, 14, 1))),
        4 => Some(EntryType::Single(ShiftMask::new(0, 15, 1))),
        5 => Some(EntryType::Single(ShiftMask::new(0, 16, 1))),
        6 => Some(EntryType::Single(ShiftMask::new(0, 17, 1))),
        7 => Some(EntryType::Single(ShiftMask::new(0, 18, 1))),
        8 => Some(EntryType::Single(ShiftMask::new(0, 19, 1))),
        9 => Some(EntryType::Single(ShiftMask::new(0, 20, 1))),
        10 => Some(EntryType::Single(ShiftMask::new(0, 21, 1))),
        11 => Some(EntryType::Single(ShiftMask::new(0, 22, 1))),
        12 => Some(EntryType::Single(ShiftMask::new(0, 23, 1))),
        13 => Some(EntryType::Single(ShiftMask::new(0, 24, 1))),
        14 => Some(EntryType::Range(ShiftMask::new(0, 28, 0x3))),
        15 => Some(EntryType::Single(ShiftMask::new(0, 30, 1))),
        16 => Some(EntryType::Single(ShiftMask::new(0, 31, 1))),
        17 => Some(EntryType::Range(ShiftMask::new(1, 0, 0xFF))),
        18 => Some(EntryType::Range(ShiftMask::new(1, 8, 0xF))),
        19 => Some(EntryType::Range(ShiftMask::new(1, 17, 0x7))),
        20 => Some(EntryType::Range(ShiftMask::new(1, 20, 0x1F))),
        21 => Some(EntryType::Single(ShiftMask::new(1, 25, 1))),
        22 => Some(EntryType::Single(ShiftMask::new(1, 26, 1))),
        23 => Some(EntryType::Single(ShiftMask::new(1, 27, 1))),
        24 => Some(EntryType::Range(ShiftMask::new(1, 28, 0xF))),
        25 => Some(EntryType::Range(ShiftMask::new(2, 0, 0xFF))),
        26 => Some(EntryType::Range(ShiftMask::new(2, 8, 0xFF))),
        27 => Some(EntryType::Range(ShiftMask::new(2, 16, 0xFF))),
        28 => Some(EntryType::Range(ShiftMask::new(2, 24, 0xFF))),
        29 => Some(EntryType::Range(ShiftMask::new(3, 0, 0x1F))),
        30 => Some(EntryType::Range(ShiftMask::new(3, 5, 0x3F))),
        31 => Some(EntryType::Range(ShiftMask::new(4, 0, 0xFFFF_FFFF))),
        _ => None,
    }
}

/// Every descriptor of the table reads one of the five codes with a shift below 32.
pub proof fn lemma_descriptors_wf(id: usize)
    ensures
        descriptor(id) matches Some(EntryType::Range(sm)) ==> sm.wf(),
        descriptor(id) matches Some(EntryType::Single(sm)) ==> sm.wf() && sm.mask == 1,
{
}

/// A field's value and color depend on the record's codes and the descriptor alone:
/// records with equal codes read alike under every descriptor and selection.
pub proof fn lemma_extract_deterministic(a: PLCEntry, b: PLCEntry, id: usize, selection: u32)
    requires
        a.codes@ == b.codes@,
    ensures
        field_of(a, id) == field_of(b, id),
        color_of(a, id, selection) == color_of(b, id, selection),
{
    lemma_descriptors_wf(id);
    match descriptor(id) {
        Some(EntryType::Range(sm)) => {
            assert(a.codes[sm.code_idx as int] == b.codes[sm.code_idx as int]);
        },
        Some(EntryType::Single(sm)) => {
            assert(a.codes[sm.code_idx as int] == b.codes[sm.code_idx as int]);
        },
        _ => {},
    }
}

impl PLCEntry {
    /// Whether objects pass through this surface: the flag that descriptor 3 reads.
    pub fn get_pass_object(&self) -> (r: bool)
        ensures
            r == (self.codes[0] & 0x0000_4000 != 0),
            r == (field_of(*self, 3) == Some(1u32)),
    {
        let c = self.codes[0];
        assert((c >> 14u32) & 1u32 == 1u32 <==> c & 0x0000_4000u32 != 0u32) by (bit_vector);
        assert((c >> 14u32) & 1u32 == 0u32 || (c >> 14u32) & 1u32 == 1u32) by (bit_vector);
        c & 0x0000_4000 != 0
    }

    /// Whether the camera pass through this surface: the flag that descriptor 4 reads.
    pub fn get_pass_camera(&self) -> (r: bool)
        ensures
            r == (self.codes[0] & 0x0000_8000 != 0),
            r == (field_of(*self, 4) == Some(1u32)),
    {
        let c = self.codes[0];
        assert((c >> 15u32) & 1u32 == 1u32 <==> c & 0x0000_8000u32 != 0u32) by (bit_vector);
        assert((c >> 15u32) & 1u32 == 0u32 || (c >> 15u32) & 1u32 == 1u32) by (bit_vector);
        c & 0x0000_8000 != 0
    }

    /// Whether the player pass through this surface: the flag that descriptor 5 reads.
    pub fn get_pass_link(&self) -> (r: bool)
        ensures
            r == (self.codes[0] & 0x0001_0000 != 0),
            r == (field_of(*self, 5) == Some(1u32)),
    {
        let c = self.codes[0];
        assert((c >> 16u32) & 1u32 == 1u32 <==> c & 0x0001_0000u32 != 0u32) by (bit_vector);
        assert((c >> 16u32) & 1u32 == 0u32 || (c >> 16u32) & 1u32 == 1u32) by (bit_vector);
        c & 0x0001_0000 != 0
    }

    /// Whether arrows pass through this surface: the flag that descriptor 6 reads.
    pub fn get_pass_arrow(&self) -> (r: bool)
        ensures
            r == (self.codes[0] & 0x0002_0000 != 0),
            r == (field_of(*self, 6) == Some(1u32)),
    {
        let c = self.codes[0];
        assert((c >> 17u32) & 1u32 == 1u32 <==> c & 0x0002_0000u32 != 0u32) by (bit_vector);
        assert((c >> 17u32) & 1u32 == 0u32 || (c >> 17u32) & 1u32 == 1u32) by (bit_vector);
        c & 0x0002_0000 != 0
    }

    /// Whether slingshot seeds pass through this surface: the flag that descriptor 7 reads.
    pub fn get_pass_slingshot(&self) -> (r: bool)
        ensures
            r == (self.codes[0] & 0x0004_0000 != 0),
            r == (field_of(*self, 7) == Some(1u32)),
    {
        let c = self.codes[0];
        assert((c >> 18u32) & 1u32 == 1u32 <==> c & 0x0004_0000u32 != 0u32) by (bit_vector);
        assert((c >> 18u32) & 1u32 == 0u32 || (c >> 18u32) & 1u32 == 1u32) by (bit_vector);
        c & 0x0004_0000 != 0
    }

    /// Whether the beetle pass through this surface: the flag that descriptor 8 reads.
    pub fn get_pass_beetle(&self) -> (r: bool)
        ensures
            r == (self.codes[0] & 0x0008_0000 != 0),
            r == (field_of(*self, 8) == Some(1u32)),
    {
        let c = self.codes[0];
        assert((c >> 19u32) & 1u32 == 1u32 <==> c & 0x0008_0000u32 != 0u32) by (bit_vector);
        assert((c >> 19u32) & 1u32 == 0u32 || (c >> 19u32) & 1u32 == 1u32) by (bit_vector);
        c & 0x0008_0000 != 0
    }

    /// Whether the clawshot pass through this surface: the flag that descriptor 9 reads.
    pub fn get_pass_clawshot(&self) -> (r: bool)
        ensures
            r == (self.codes[0] & 0x0010_0000 != 0),
            r == (field_of(*self, 9) == Some(1u32)),
    {
        let c = self.codes[0];
        assert((c >> 20u32) & 1u32 == 1u32 <==> c & 0x0010_0000u32 != 0u32) by (bit_vector);
        assert((c >> 20u32) & 1u32 == 0u32 || (c >> 20u32) & 1u32 == 1u32) by (bit_vector);
        c & 0x0010_0000 != 0
    }

    /// Whether Z-targeting pass through this surface: the flag that descriptor 10 reads.
    pub fn get_pass_target(&self) -> (r: bool)
        ensures
            r == (self.codes[0] & 0x0020_0000 != 0),
            r == (field_of(*self, 10) == Some(1u32)),
    {
        let c = self.codes[0];
        assert((c >> 21u32) & 1u32 == 1u32 <==> c & 0x0020_0000u32 != 0u32) by (bit_vector);
        assert((c >> 21u32) & 1u32 == 0u32 || (c >> 21u32) & 1u32 == 1u32) by (bit_vector);
        c & 0x0020_0000 != 0
    }

    /// Whether shadows pass through this surface: the flag that descriptor 11 reads.
    pub fn get_pass_shadow(&self) -> (r: bool)
        ensures
            r == (self.codes[0] & 0x0040_0000 != 0),
            r == (field_of(*self, 11) == Some(1u32)),
    {
        let c = self.codes[0];
        assert((c >> 22u32) & 1u32 == 1u32 <==> c & 0x0040_0000u32 != 0u32) by (bit_vector);
        assert((c >> 22u32) & 1u32 == 0u32 || (c >> 22u32) & 1u32 == 1u32) by (bit_vector);
        c & 0x0040_0000 != 0
    }

    /// Whether bombs pass through this surface: the flag that descriptor 12 reads.
    pub fn get_pass_bomb(&self) -> (r: bool)
        ensures
            r == (self.codes[0] & 0x0080_0000 != 0),
            r == (field_of(*self, 12) == Some(1u32)),
    {
        let c = self.codes[0];
        assert((c >> 23u32) & 1u32 == 1u32 <==> c & 0x0080_0000u32 != 0u32) by (bit_vector);
        assert((c >> 23u32) & 1u32 == 0u32 || (c >> 23u32) & 1u32 == 1u32) by (bit_vector);
        c & 0x0080_0000 != 0
    }

    /// Whether the whip pass through this surface: the flag that descriptor 13 reads.
    pub fn get_pass_whip(&self) -> (r: bool)
        ensures
            r == (self.codes[0] & 0x0100_0000 != 0),
            r == (field_of(*self, 13) == Some(1u32)),
    {
        let c = self.codes[0];
        assert((c >> 24u32) & 1u32 == 1u32 <==> c & 0x0100_0000u32 != 0u32) by (bit_vector);
        assert((c >> 24u32) & 1u32 == 0u32 || (c >> 24u32) & 1u32 == 1u32) by (bit_vector);
        c & 0x0100_0000 != 0
    }

    /// The value of field `descriptor_id`; none for the normal descriptor and past the table.
    pub fn extract(&self, descriptor_id: usize) -> (r: Option<u32>)
        ensures
            r == field_of(*self, descriptor_id),
    {
        proof {
            lemma_descriptors_wf(descriptor_id);
        }
        match field_descriptor(descriptor_id) {
            Some(EntryType::Range(sm)) => Some(sm.extract(self)),
            Some(EntryType::Single(sm)) => Some(sm.extract(self)),
            _ => None,
        }
    }

    /// The color of this record under field `filter_type`, with `range_selection` as
    /// the highlighted value of a multi-valued field; none for the normal descriptor and
    /// past the table, where the caller colors by the face normal.
    pub fn get_color(&self, filter_type: usize, range_selection: u32) -> (r: Option<FieldColor>)
        ensures
            r == color_of(*self, filter_type, range_selection),
    {
        proof {
            lemma_descriptors_wf(filter_type);
        }
        match field_descriptor(filter_type) {
            Some(EntryType::Range(sm)) => {
                let code = sm.extract(self);
                if code == range_selection {
                    Some(FieldColor::Selected)
                } else {
                    Some(FieldColor::Gray { value: code, max: sm.mask })
                }
            },
            Some(EntryType::Single(sm)) => {
                let code = sm.extract(self);
                if code & 1 == 1 {
                    Some(FieldColor::FlagSet)
                } else {
                    Some(FieldColor::FlagClear)
                }
            },
            _ => None,
        }
    }
}

} // verus!
