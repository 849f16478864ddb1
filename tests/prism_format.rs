use ss_collision::bytes::Vec3Bits;
use ss_collision::kcl::{Prism, KCL_HEADER_SIZE};
use ss_collision::octree::Octree;
use ss_collision::{DecodeError, PLCEntry, KCL, PLC};

fn push_u16(b: &mut Vec<u8>, x: u16) {
    b.extend_from_slice(&x.to_be_bytes());
}

fn push_u32(b: &mut Vec<u8>, x: u32) {
    b.extend_from_slice(&x.to_be_bytes());
}

fn put_u32(b: &mut [u8], at: usize, x: u32) {
    b[at..at + 4].copy_from_slice(&x.to_be_bytes());
}

fn v3(x: f32, y: f32, z: f32) -> Vec3Bits {
    Vec3Bits { x: x.to_bits(), y: y.to_bits(), z: z.to_bits() }
}

fn push_v3(b: &mut Vec<u8>, v: Vec3Bits) {
    push_u32(b, v.x);
    push_u32(b, v.y);
    push_u32(b, v.z);
}

fn push_prism(b: &mut Vec<u8>, height: f32, pos: u16, fnrm: u16, enrm: [u16; 3], attr: u16) {
    push_u32(b, height.to_bits());
    push_u16(b, pos);
    push_u16(b, fnrm);
    for e in enrm {
        push_u16(b, e);
    }
    push_u16(b, attr);
}

const POS_OFF: u32 = 56;
const NRM_OFF: u32 = 92;
const PRISM_OFF: u32 = 152;
const BLOCK_OFF: u32 = 200;

fn positions() -> Vec<Vec3Bits> {
    vec![v3(0.0, 0.0, 0.0), v3(1.0, 2.0, 3.0), v3(-4.0, 5.5, 6.25)]
}

fn normals() -> Vec<Vec3Bits> {
    vec![v3(0.0, 1.0, 0.0), v3(1.0, 0.0, 0.0), v3(0.0, 1.0, 0.0), v3(0.0, 0.0, 1.0), v3(0.0, 0.0, -1.0)]
}

/// A file whose single top-level cell is a leaf listing `leaf` (then 0).
fn kcl_file(leaf: &[u16], masks: [u32; 3], shifts: [u32; 3]) -> Vec<u8> {
    let mut b = Vec::new();
    push_u32(&mut b, POS_OFF);
    push_u32(&mut b, NRM_OFF);
    push_u32(&mut b, PRISM_OFF);
    push_u32(&mut b, BLOCK_OFF);
    push_u32(&mut b, 300.0f32.to_bits());
    push_v3(&mut b, v3(-20000.0, -15000.0, -26315.0));
    for m in masks {
        push_u32(&mut b, m);
    }
    for s in shifts {
        push_u32(&mut b, s);
    }
    assert_eq!(b.len(), KCL_HEADER_SIZE);
    for p in positions() {
        push_v3(&mut b, p);
    }
    for n in normals() {
        push_v3(&mut b, n);
    }
    assert_eq!(b.len(), PRISM_OFF as usize);
    push_prism(&mut b, 99.0, 0xFFFF, 0xFFFF, [0xFFFF; 3], 0xFFFF);
    push_prism(&mut b, 10.0, 1, 2, [3, 4, 1], 0);
    push_prism(&mut b, 5.0, 2, 0, [1, 2, 3], 1);
    assert_eq!(b.len(), BLOCK_OFF as usize);
    // Root table of one entry, then the leaf list at 204 (first slot skipped).
    push_u32(&mut b, 0x8000_0000 + 4);
    push_u16(&mut b, 0xBEEF);
    for &i in leaf {
        push_u16(&mut b, i);
    }
    push_u16(&mut b, 0);
    b
}

const ONE_CELL_MASKS: [u32; 3] = [0xFFFF_FFFE, 0xFFFF_FFFF, 0xFFFF_FFFF];

fn plc(n: u32) -> PLC {
    PLC { entries: (0..n).map(|i| PLCEntry { codes: [i, 0, 0, 0, 0] }).collect() }
}

#[test]
fn decodes_tables_up_to_highest_indices() {
    let b = kcl_file(&[2, 1], ONE_CELL_MASKS, [0, 0, 0]);
    let k = KCL::from_file(&b).unwrap();
    match &k.octree {
        Octree::Branch(c) => {
            assert_eq!(c.len(), 1);
            match &c[0] {
                Octree::Leaf(v) => assert_eq!(v, &vec![2, 1]),
                Octree::Branch(_) => panic!("expected a leaf"),
            }
        }
        Octree::Leaf(_) => panic!("expected a branch"),
    }
    assert_eq!(k.octree.get_highest_index(), 2);
    assert_eq!(k.prism.len(), 2);
    assert_eq!(
        k.prism[0],
        Prism { height: 10.0f32.to_bits(), pos_i: 1, fnrm_i: 2, enrm_i: [3, 4, 1], attribute: 0 }
    );
    assert_eq!(
        k.prism[1],
        Prism { height: 5.0f32.to_bits(), pos_i: 2, fnrm_i: 0, enrm_i: [1, 2, 3], attribute: 1 }
    );
    assert_eq!(k.vtx, positions());
    assert_eq!(k.nrm, normals());
    assert_eq!(k.prism_thickness, 300.0f32.to_bits());
    assert_eq!(k.area_min_pos, v3(-20000.0, -15000.0, -26315.0));
}

#[test]
fn prism_count_follows_highest_index() {
    let b = kcl_file(&[1], ONE_CELL_MASKS, [0, 0, 0]);
    let k = KCL::from_file(&b).unwrap();
    assert_eq!(k.prism.len(), 1);
    assert_eq!(k.vtx.len(), 2);
    assert_eq!(k.nrm.len(), 5);
}

#[test]
fn empty_leaf_reads_one_position_and_normal() {
    let b = kcl_file(&[], ONE_CELL_MASKS, [0, 0, 0]);
    let k = KCL::from_file(&b).unwrap();
    assert_eq!(k.prism.len(), 0);
    assert_eq!(k.vtx, vec![positions()[0]]);
    assert_eq!(k.nrm, vec![normals()[0]]);
}

#[test]
fn root_cell_count_from_masks() {
    // Masks and shifts as found in real files: 31 top-level cells.
    let mut b = kcl_file(&[2], [0xFFFF_0000, 0xFFFF_8000, 0xFFFF_0000], [14, 2, 3]);
    let leaf = b.len() - 6;
    let table = b.len();
    b.resize(table + 31 * 4, 0);
    put_u32(&mut b, 12, table as u32);
    for i in 0..31 {
        put_u32(&mut b, table + 4 * i, 0x8000_0000u32.wrapping_add(leaf as u32).wrapping_sub(table as u32));
    }
    let k = KCL::from_file(&b).unwrap();
    match &k.octree {
        Octree::Branch(c) => assert_eq!(c.len(), 31),
        Octree::Leaf(_) => panic!("expected a branch"),
    }
    assert_eq!(k.prism.len(), 2);
}

#[test]
fn truncated_header() {
    let b = kcl_file(&[1], ONE_CELL_MASKS, [0, 0, 0]);
    assert_eq!(KCL::from_file(&b[..55]).unwrap_err(), DecodeError::TruncatedBuffer);
}

#[test]
fn shift_too_large() {
    let b = kcl_file(&[1], ONE_CELL_MASKS, [0, 32, 0]);
    assert_eq!(KCL::from_file(&b).unwrap_err(), DecodeError::MalformedOctree);
}

#[test]
fn leaf_missing_sentinel() {
    let b = kcl_file(&[1], ONE_CELL_MASKS, [0, 0, 0]);
    assert_eq!(KCL::from_file(&b[..b.len() - 2]).unwrap_err(), DecodeError::MalformedOctree);
}

#[test]
fn prism_table_past_end() {
    let b = kcl_file(&[9], ONE_CELL_MASKS, [0, 0, 0]);
    assert_eq!(KCL::from_file(&b).unwrap_err(), DecodeError::TruncatedBuffer);
}

#[test]
fn position_table_past_end() {
    let mut b = kcl_file(&[1], ONE_CELL_MASKS, [0, 0, 0]);
    // Prism 1 now names position 1000.
    b[PRISM_OFF as usize + 16 + 4] = 0x03;
    b[PRISM_OFF as usize + 16 + 5] = 0xE8;
    assert_eq!(KCL::from_file(&b).unwrap_err(), DecodeError::TruncatedBuffer);
}

#[test]
fn prism_from_buffer() {
    let mut b = vec![0u8; 3];
    push_prism(&mut b, 2.5, 7, 8, [9, 10, 11], 12);
    let p = Prism::from_buffer(&b, 3).unwrap();
    assert_eq!(p, Prism { height: 2.5f32.to_bits(), pos_i: 7, fnrm_i: 8, enrm_i: [9, 10, 11], attribute: 12 });
    assert_eq!(Prism::from_buffer(&b, 4).unwrap_err(), DecodeError::TruncatedBuffer);
    assert_eq!(Prism::from_buffer(&b, usize::MAX).unwrap_err(), DecodeError::TruncatedBuffer);
}

#[test]
fn prism_vectors_follow_indices() {
    let b = kcl_file(&[2, 1], ONE_CELL_MASKS, [0, 0, 0]);
    let k = KCL::from_file(&b).unwrap();
    let v = k.get_prism_vectors().unwrap();
    assert_eq!(v.len(), 2);
    assert_eq!(v[0].height, 10.0f32.to_bits());
    assert_eq!(v[0].pos, positions()[1]);
    assert_eq!(v[0].fnrm, normals()[2]);
    assert_eq!(v[0].enrm1, normals()[3]);
    assert_eq!(v[0].enrm2, normals()[4]);
    assert_eq!(v[0].enrm3, normals()[1]);
    assert_eq!(v[1].pos, positions()[2]);
    assert_eq!(v[1].attribute, 1);
}

#[test]
fn prism_vectors_index_out_of_range() {
    let b = kcl_file(&[2, 1], ONE_CELL_MASKS, [0, 0, 0]);
    let mut k = KCL::from_file(&b).unwrap();
    k.nrm.pop();
    assert_eq!(k.get_prism_vectors().unwrap_err(), DecodeError::IndexOutOfRange);
}

#[test]
fn attributes_pair_with_records() {
    let b = kcl_file(&[2, 1], ONE_CELL_MASKS, [0, 0, 0]);
    let k = KCL::from_file(&b).unwrap();
    let props = k.get_properties(&plc(2)).unwrap();
    assert_eq!(props.iter().map(|e| e.codes[0]).collect::<Vec<_>>(), vec![0, 1]);
}

#[test]
fn attribute_index_out_of_range() {
    let b = kcl_file(&[2, 1], ONE_CELL_MASKS, [0, 0, 0]);
    let k = KCL::from_file(&b).unwrap();
    assert_eq!(k.get_properties(&plc(1)).unwrap_err(), DecodeError::IndexOutOfRange);
}
