use ss_collision::bytes::Vec3Bits;
use ss_collision::dzb::{Block, Group, OctreeNode, Property, Triangle, TriangleCorners, DZB_HEADER_SIZE};
use ss_collision::{DecodeError, PLCEntry, DZB, PLC};

fn push_u16(b: &mut Vec<u8>, x: u16) {
    b.extend_from_slice(&x.to_be_bytes());
}

fn push_u32(b: &mut Vec<u8>, x: u32) {
    b.extend_from_slice(&x.to_be_bytes());
}

fn v3(x: f32, y: f32, z: f32) -> Vec3Bits {
    Vec3Bits { x: x.to_bits(), y: y.to_bits(), z: z.to_bits() }
}

fn push_v3(b: &mut Vec<u8>, v: Vec3Bits) {
    push_u32(b, v.x);
    push_u32(b, v.y);
    push_u32(b, v.z);
}

fn verts() -> Vec<Vec3Bits> {
    vec![v3(0.0, 0.0, 0.0), v3(1.0, 0.0, 0.0), v3(0.0, 0.0, 1.0)]
}

/// A file of three vertices, one triangle, one block, one tree node, one group and one
/// property, laid out one section after the other.
fn dzb_file(tri: [u16; 5]) -> Vec<u8> {
    let counts = [3u32, 1, 1, 1, 1, 1];
    let offsets = [52u32, 88, 98, 100, 120, 170];
    let mut b = Vec::new();
    for s in 0..6 {
        push_u32(&mut b, counts[s]);
        push_u32(&mut b, offsets[s]);
    }
    push_u32(&mut b, 0);
    assert_eq!(b.len(), DZB_HEADER_SIZE);
    for v in verts() {
        push_v3(&mut b, v);
    }
    for x in tri {
        push_u16(&mut b, x);
    }
    push_u16(&mut b, 0x0007);
    push_u16(&mut b, 0x8001);
    push_u16(&mut b, 0xFFFF);
    for i in 0..8 {
        push_u16(&mut b, i);
    }
    push_u32(&mut b, 0x0000_0010);
    push_v3(&mut b, v3(1.0, 1.0, 1.0));
    push_u16(&mut b, 0x8000);
    push_u16(&mut b, 0x0001);
    push_u16(&mut b, 0xFFFF);
    push_u16(&mut b, 0x0002);
    push_v3(&mut b, v3(10.0, -20.0, 30.0));
    for x in [0xFFFFu16, 0xFFFF, 1, 4, 0, 0, 0x0100] {
        push_u16(&mut b, x);
    }
    for x in [0x11u32, 0x22, 0x33, 0x44] {
        push_u32(&mut b, x);
    }
    assert_eq!(b.len(), 186);
    b
}

#[test]
fn decodes_all_sections() {
    let d = DZB::from_file(&dzb_file([0, 1, 2, 1, 0])).unwrap();
    assert_eq!(d.verts, verts());
    assert_eq!(d.tris, vec![Triangle { vert_idx: [0, 1, 2], prop_idx: 1, group_idx: 0 }]);
    assert_eq!(d.blocks, vec![Block { starting_tri_idx: 7 }]);
    assert_eq!(
        d.tree_nodes,
        vec![OctreeNode { flags: 0x8001, parent_node_idx: 0xFFFF, branches: [0, 1, 2, 3, 4, 5, 6, 7] }]
    );
    assert_eq!(
        d.groups,
        vec![Group {
            name_offset: 0x10,
            scale: v3(1.0, 1.0, 1.0),
            rotation: [-0x8000, 1, -1],
            unk1: 2,
            translation: v3(10.0, -20.0, 30.0),
            parent_group_idx: 0xFFFF,
            next_sibling_group: 0xFFFF,
            first_child_group_index: 1,
            room_id: 4,
            first_vtx_idx: 0,
            tree_index: 0,
            info: 0x0100,
        }]
    );
    assert_eq!(d.properties, vec![Property { info1: 0x11, info2: 0x22, info3: 0x33, pass_flag: 0x44 }]);
}

#[test]
fn empty_sections() {
    let mut b = vec![0u8; 52];
    b[7] = 52;
    let d = DZB::from_file(&b).unwrap();
    assert!(d.verts.is_empty() && d.tris.is_empty() && d.blocks.is_empty());
    assert!(d.tree_nodes.is_empty() && d.groups.is_empty() && d.properties.is_empty());
}

#[test]
fn truncated_header_flat() {
    let b = dzb_file([0, 1, 2, 1, 0]);
    assert_eq!(DZB::from_file(&b[..51]).unwrap_err(), DecodeError::TruncatedBuffer);
}

#[test]
fn truncated_last_section() {
    let b = dzb_file([0, 1, 2, 1, 0]);
    assert_eq!(DZB::from_file(&b[..185]).unwrap_err(), DecodeError::TruncatedBuffer);
}

#[test]
fn huge_count() {
    let mut b = dzb_file([0, 1, 2, 1, 0]);
    b[8..12].copy_from_slice(&u32::MAX.to_be_bytes());
    assert_eq!(DZB::from_file(&b).unwrap_err(), DecodeError::TruncatedBuffer);
}

#[test]
fn triangle_corners() {
    let d = DZB::from_file(&dzb_file([2, 0, 1, 1, 0])).unwrap();
    let c = d.get_triangle_corners().unwrap();
    assert_eq!(c, vec![TriangleCorners { v0: verts()[2], v1: verts()[0], v2: verts()[1] }]);
}

#[test]
fn triangle_vertex_out_of_range() {
    let d = DZB::from_file(&dzb_file([0, 3, 1, 1, 0])).unwrap();
    assert_eq!(d.get_triangle_corners().unwrap_err(), DecodeError::IndexOutOfRange);
}

#[test]
fn property_pairing() {
    let plc = PLC {
        entries: vec![PLCEntry { codes: [1, 0, 0, 0, 0] }, PLCEntry { codes: [2, 0, 0, 0, 0] }],
    };
    let d = DZB::from_file(&dzb_file([0, 1, 2, 1, 0])).unwrap();
    assert_eq!(d.get_properties(&plc).unwrap(), vec![PLCEntry { codes: [2, 0, 0, 0, 0] }]);
    let short = PLC { entries: vec![PLCEntry { codes: [1, 0, 0, 0, 0] }] };
    assert_eq!(d.get_properties(&short).unwrap_err(), DecodeError::IndexOutOfRange);
}
