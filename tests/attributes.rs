use ss_collision::fields::{field_descriptor, field_descriptor_count, EntryType, FieldColor, ShiftMask};
use ss_collision::{DecodeError, PLCEntry, PLC};

fn push_u16(b: &mut Vec<u8>, x: u16) {
    b.extend_from_slice(&x.to_be_bytes());
}

fn push_u32(b: &mut Vec<u8>, x: u32) {
    b.extend_from_slice(&x.to_be_bytes());
}

fn table(magic: &[u8], stride: u16, count: u16, records: &[[u32; 5]]) -> Vec<u8> {
    let mut b = magic.to_vec();
    push_u16(&mut b, stride);
    push_u16(&mut b, count);
    for r in records {
        for c in r {
            push_u32(&mut b, *c);
        }
    }
    b
}

fn entry(codes: [u32; 5]) -> PLCEntry {
    PLCEntry { codes }
}

#[test]
fn decodes_two_records() {
    let recs = [
        [0x0000_4000, 0x01F0_0000, 0x1122_3344, 0x0000_000C, 0xDEAD_BEEF],
        [0x8000_0001, 0x0000_0F00, 0x0000_0000, 0x0000_07E0, 0x0000_0001],
    ];
    let b = table(b"SPLC", 0x14, 2, &recs);
    let plc = PLC::from_file(&b).unwrap();
    assert_eq!(plc.entries.len(), 2);
    assert_eq!(plc.entries[0].codes, recs[0]);
    assert_eq!(plc.entries[1].codes, recs[1]);
}

#[test]
fn empty_table() {
    let b = table(b"SPLC", 0x14, 0, &[]);
    assert_eq!(PLC::from_file(&b).unwrap().entries.len(), 0);
}

#[test]
fn bad_magic() {
    let b = table(b"SPLD", 0x14, 0, &[]);
    assert_eq!(PLC::from_file(&b).unwrap_err(), DecodeError::InvalidMagic);
}

#[test]
fn bad_stride() {
    let b = table(b"SPLC", 0x10, 0, &[]);
    assert_eq!(PLC::from_file(&b).unwrap_err(), DecodeError::InvalidStride);
}

#[test]
fn bad_stride_before_count() {
    let b = vec![b'S', b'P', b'L', b'C', 0x00, 0x18];
    assert_eq!(PLC::from_file(&b).unwrap_err(), DecodeError::InvalidStride);
}

#[test]
fn short_magic() {
    assert_eq!(PLC::from_file(b"SPL").unwrap_err(), DecodeError::TruncatedBuffer);
}

#[test]
fn count_beyond_buffer() {
    let b = table(b"SPLC", 0x14, 2, &[[1, 2, 3, 4, 5]]);
    assert_eq!(PLC::from_file(&b).unwrap_err(), DecodeError::TruncatedBuffer);
}

#[test]
fn missing_count() {
    let b = vec![b'S', b'P', b'L', b'C', 0x00, 0x14, 0x00];
    assert_eq!(PLC::from_file(&b).unwrap_err(), DecodeError::TruncatedBuffer);
}

#[test]
fn entries_for_names_records() {
    let plc = PLC { entries: vec![entry([1, 0, 0, 0, 0]), entry([2, 0, 0, 0, 0])] };
    let got = plc.entries_for(&vec![1, 0, 1]).unwrap();
    assert_eq!(got.iter().map(|e| e.codes[0]).collect::<Vec<_>>(), vec![2, 1, 2]);
}

#[test]
fn entries_for_index_out_of_range() {
    let plc = PLC { entries: vec![entry([1, 0, 0, 0, 0]), entry([2, 0, 0, 0, 0])] };
    assert_eq!(plc.entries_for(&vec![0, 2]).unwrap_err(), DecodeError::IndexOutOfRange);
}

#[test]
fn single_flag_extract() {
    assert_eq!(entry([0x0000_4000, 0, 0, 0, 0]).extract(3), Some(1));
    assert_eq!(entry([0, 0, 0, 0, 0]).extract(3), Some(0));
    assert_eq!(field_descriptor(3), Some(EntryType::Single(ShiftMask::new(0, 14, 1))));
}

#[test]
fn ground_type_extract() {
    assert_eq!(field_descriptor(20), Some(EntryType::Range(ShiftMask::new(1, 20, 0x1F))));
    assert_eq!(entry([0, 0x01F0_0000, 0, 0, 0]).extract(20), Some(0x1F));
    assert_eq!(entry([0, 0x00A0_0000, 0, 0, 0]).extract(20), Some(10));
}

#[test]
fn extract_is_repeatable() {
    let e = entry([0xFFFF_FFFF, 0x1234_5678, 0x9ABC_DEF0, 0x0000_07E0, 0xCAFE_BABE]);
    for id in 0..40 {
        assert_eq!(e.extract(id), e.extract(id));
        assert_eq!(e.get_color(id, 3), e.get_color(id, 3));
    }
}

#[test]
fn extract_normal_and_past_table() {
    let e = entry([u32::MAX; 5]);
    assert_eq!(e.extract(0), None);
    assert_eq!(e.extract(32), None);
    assert_eq!(e.extract(usize::MAX), None);
}

#[test]
fn extract_full_word() {
    let e = entry([0, 0, 0, 0, 0xCAFE_BABE]);
    assert_eq!(e.extract(31), Some(0xCAFE_BABE));
}

#[test]
fn extract_each_code() {
    let e = entry([0xC000_0000, 0x3000_0000, 0xAB00_0000, 0x0000_07E0, 7]);
    assert_eq!(e.extract(14), Some(0));
    assert_eq!(e.extract(15), Some(1));
    assert_eq!(e.extract(16), Some(1));
    assert_eq!(e.extract(24), Some(3));
    assert_eq!(e.extract(28), Some(0xAB));
    assert_eq!(e.extract(30), Some(0x3F));
    assert_eq!(e.extract(29), Some(0));
}

#[test]
fn descriptor_table_size() {
    assert_eq!(field_descriptor_count(), 32);
    assert_eq!(field_descriptor(0), Some(EntryType::Norm));
    assert_eq!(field_descriptor(31), Some(EntryType::Range(ShiftMask::new(4, 0, 0xFFFF_FFFF))));
    assert_eq!(field_descriptor(32), None);
}

#[test]
fn color_normal_is_none() {
    assert_eq!(entry([1, 2, 3, 4, 5]).get_color(0, 0), None);
    assert_eq!(entry([1, 2, 3, 4, 5]).get_color(32, 0), None);
}

#[test]
fn color_range_selected_and_gray() {
    let e = entry([0, 0x00A0_0000, 0, 0, 0]);
    assert_eq!(e.get_color(20, 10), Some(FieldColor::Selected));
    assert_eq!(e.get_color(20, 11), Some(FieldColor::Gray { value: 10, max: 0x1F }));
}

#[test]
fn color_single_set_and_clear() {
    assert_eq!(entry([0x0002_0000, 0, 0, 0, 0]).get_color(6, 0), Some(FieldColor::FlagSet));
    assert_eq!(entry([0xFFFD_FFFF, 0, 0, 0, 0]).get_color(6, 1), Some(FieldColor::FlagClear));
}

#[test]
fn pass_flags() {
    let e = entry([0x0000_4000 | 0x0002_0000 | 0x0100_0000, 0, 0, 0, 0]);
    assert!(e.get_pass_object());
    assert!(!e.get_pass_camera());
    assert!(!e.get_pass_link());
    assert!(e.get_pass_arrow());
    assert!(!e.get_pass_slingshot());
    assert!(!e.get_pass_beetle());
    assert!(!e.get_pass_clawshot());
    assert!(!e.get_pass_target());
    assert!(!e.get_pass_shadow());
    assert!(!e.get_pass_bomb());
    assert!(e.get_pass_whip());
    let all = entry([0x01FF_C000, 0, 0, 0, 0]);
    assert!(all.get_pass_camera() && all.get_pass_link() && all.get_pass_slingshot());
    assert!(all.get_pass_beetle() && all.get_pass_clawshot() && all.get_pass_target());
    assert!(all.get_pass_shadow() && all.get_pass_bomb());
}

#[test]
fn shift_mask_extract() {
    let sm = ShiftMask::new(2, 8, 0xFF);
    assert_eq!(sm.code_idx, 2);
    assert_eq!(sm.extract(&entry([0, 0, 0x0000_AB00, 0, 0])), 0xAB);
}
