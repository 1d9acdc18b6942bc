use qbsp::{Bsp, Error, LeafType, LumpId, MapVersion, PlaneType, Side, Vec3};

// ---- helpers to assemble synthetic map buffers ----

const Q1_LUMPS: usize = 15;

/// Quake1/Goldsrc header: version, then 15 lump entries; lump data follows
/// in order.
fn assemble_q1(version: u32, lumps: &[Vec<u8>]) -> Vec<u8> {
    assert_eq!(lumps.len(), Q1_LUMPS);
    let header_size = 4 + 8 * Q1_LUMPS;
    let mut header = Vec::new();
    header.extend_from_slice(&version.to_le_bytes());
    let mut body = Vec::new();
    let mut off = header_size;
    for l in lumps {
        header.extend_from_slice(&(off as i32).to_le_bytes());
        header.extend_from_slice(&(l.len() as i32).to_le_bytes());
        off += l.len();
        body.extend_from_slice(l);
    }
    header.extend_from_slice(&body);
    header
}

/// Quake2 header: 4-byte magic, version, then 19 empty lump entries.
fn assemble_q2_empty(version: u32) -> Vec<u8> {
    let header_size = 4 + 4 + 8 * 19;
    let mut buf = Vec::new();
    buf.extend_from_slice(b"IBSP");
    buf.extend_from_slice(&version.to_le_bytes());
    for _ in 0..19 {
        buf.extend_from_slice(&(header_size as i32).to_le_bytes());
        buf.extend_from_slice(&0i32.to_le_bytes());
    }
    buf
}

fn empty_q1_lumps() -> Vec<Vec<u8>> {
    (0..Q1_LUMPS).map(|_| Vec::new()).collect()
}

const Q2_LUMPS: usize = 19;

/// Quake2 header: magic, version, 19 lump entries; lump data follows.
fn assemble_q2(version: u32, lumps: &[Vec<u8>]) -> Vec<u8> {
    assert_eq!(lumps.len(), Q2_LUMPS);
    let header_size = 4 + 4 + 8 * Q2_LUMPS;
    let mut header = Vec::new();
    header.extend_from_slice(b"IBSP");
    header.extend_from_slice(&version.to_le_bytes());
    let mut body = Vec::new();
    let mut off = header_size;
    for l in lumps {
        header.extend_from_slice(&(off as i32).to_le_bytes());
        header.extend_from_slice(&(l.len() as i32).to_le_bytes());
        off += l.len();
        body.extend_from_slice(l);
    }
    header.extend_from_slice(&body);
    header
}

// Lump slots in the Quake1 layout.
const PLANES: usize = 1;
const VERTICES: usize = 3;
const VISLIST: usize = 4;
const NODES: usize = 5;
const FACES: usize = 7;
const LEAVES: usize = 10;
const LFACES: usize = 11;
const EDGES: usize = 12;
const LEDGES: usize = 13;
const MODELS: usize = 14;

fn plane_rec(normal: [f32; 3], dist: f32, ptype: i32) -> Vec<u8> {
    let mut r = Vec::new();
    for c in normal {
        r.extend_from_slice(&c.to_bits().to_le_bytes());
    }
    r.extend_from_slice(&dist.to_bits().to_le_bytes());
    r.extend_from_slice(&ptype.to_le_bytes());
    r
}

fn branch_rec(plane_id: i32, front: i16, back: i16, bounds: [i16; 6]) -> Vec<u8> {
    let mut r = Vec::new();
    r.extend_from_slice(&plane_id.to_le_bytes());
    r.extend_from_slice(&front.to_le_bytes());
    r.extend_from_slice(&back.to_le_bytes());
    for c in bounds {
        r.extend_from_slice(&c.to_le_bytes());
    }
    r.extend_from_slice(&0u16.to_le_bytes());
    r.extend_from_slice(&0u16.to_le_bytes());
    r
}

fn leaf_rec(leaf_type: i32, vis_index: i32, bounds: [i16; 6], fid: u16, flen: u16) -> Vec<u8> {
    let mut r = Vec::new();
    r.extend_from_slice(&leaf_type.to_le_bytes());
    r.extend_from_slice(&vis_index.to_le_bytes());
    for c in bounds {
        r.extend_from_slice(&c.to_le_bytes());
    }
    r.extend_from_slice(&fid.to_le_bytes());
    r.extend_from_slice(&flen.to_le_bytes());
    r.extend_from_slice(&[1, 2, 3, 4]);
    r
}

fn face_rec(plane_id: u16, side: u16, ledge_id: u32, ledge_len: u32) -> Vec<u8> {
    let mut r = Vec::new();
    r.extend_from_slice(&plane_id.to_le_bytes());
    r.extend_from_slice(&side.to_le_bytes());
    r.extend_from_slice(&ledge_id.to_le_bytes());
    r.extend_from_slice(&ledge_len.to_le_bytes());
    r.extend_from_slice(&7u16.to_le_bytes()); // texinfo_id
    r.push(1); // typelight
    r.push(2); // baselight
    r.extend_from_slice(&[3, 4]); // light
    r.extend_from_slice(&[0, 0]); // record padding
    r.extend_from_slice(&9i32.to_le_bytes()); // lightmap
    r
}

fn model_rec(hull0: i32) -> Vec<u8> {
    let mut r = Vec::new();
    for _ in 0..9 {
        r.extend_from_slice(&0f32.to_bits().to_le_bytes()); // bound + origin
    }
    r.extend_from_slice(&hull0.to_le_bytes());
    for _ in 0..3 {
        r.extend_from_slice(&0i32.to_le_bytes()); // hulls 1..3
    }
    r.extend_from_slice(&0i32.to_le_bytes()); // numleafs
    r.extend_from_slice(&0i32.to_le_bytes()); // face_id
    r.extend_from_slice(&0i32.to_le_bytes()); // face_len
    r
}

fn vertex_rec(v: [f32; 3]) -> Vec<u8> {
    let mut r = Vec::new();
    for c in v {
        r.extend_from_slice(&c.to_bits().to_le_bytes());
    }
    r
}

// ---- version policy boundaries ----

#[test]
fn version_boundaries() {
    assert!(MapVersion::Quake1.accepts_version(0x1d));
    assert!(!MapVersion::Quake2.accepts_version(0x1d));
    assert!(MapVersion::Goldsrc.accepts_version(0x1e));
    assert!(!MapVersion::Quake1.accepts_version(0x1e));
    assert!(!MapVersion::Quake2.accepts_version(0x1e));
    assert!(MapVersion::Quake2.accepts_version(0x26));
    assert!(!MapVersion::Quake1.accepts_version(0x27));
    assert!(!MapVersion::Goldsrc.accepts_version(0x27));
    assert!(!MapVersion::Quake2.accepts_version(0x27));
}

#[test]
fn version_boundaries_at_construction() {
    let q1 = assemble_q1(0x1d, &empty_q1_lumps());
    assert!(Bsp::new(q1, MapVersion::Quake1).is_ok());

    let gs = assemble_q1(0x1e, &empty_q1_lumps());
    match Bsp::new(gs.clone(), MapVersion::Quake1) {
        Err(Error::VersionMismatch(v)) => assert_eq!(v, 0x1e),
        other => panic!("expected VersionMismatch, got {:?}", other.map(|_| ())),
    }
    assert!(Bsp::new(gs, MapVersion::Goldsrc).is_ok());

    assert!(Bsp::new(assemble_q2_empty(0x26), MapVersion::Quake2).is_ok());
    match Bsp::new(assemble_q2_empty(0x1d), MapVersion::Quake2) {
        Err(Error::VersionMismatch(v)) => assert_eq!(v, 0x1d),
        other => panic!("expected VersionMismatch, got {:?}", other.map(|_| ())),
    }
    match Bsp::new(assemble_q2_empty(0x1e), MapVersion::Quake2) {
        Err(Error::VersionMismatch(v)) => assert_eq!(v, 0x1e),
        other => panic!("expected VersionMismatch, got {:?}", other.map(|_| ())),
    }
    match Bsp::new(assemble_q2_empty(0x27), MapVersion::Quake2) {
        Err(Error::VersionMismatch(v)) => assert_eq!(v, 0x27),
        other => panic!("expected VersionMismatch, got {:?}", other.map(|_| ())),
    }
}

// ---- construction-time validation ----

#[test]
fn header_too_short() {
    assert_eq!(
        Bsp::new(vec![0u8; 10], MapVersion::Quake1).err(),
        Some(Error::HeaderCorrupted)
    );
    // 124 bytes satisfy the Quake1 header but not Quake2's 160.
    let buf = assemble_q1(0x20, &empty_q1_lumps());
    assert_eq!(
        Bsp::new(buf, MapVersion::Quake2).err(),
        Some(Error::HeaderCorrupted)
    );
}

#[test]
fn entry_corrupted_names_the_lump() {
    // The planes lump claims one byte more than the buffer holds.
    let mut lumps = empty_q1_lumps();
    lumps[PLANES] = vec![0u8; 20];
    let mut buf = assemble_q1(0x1d, &lumps);
    // Rewrite the planes entry length to one byte past the end.
    let entry_off = 4 + 8 * PLANES;
    let bad_len = (buf.len() as i32) - 124 + 1;
    buf[entry_off + 4..entry_off + 8].copy_from_slice(&bad_len.to_le_bytes());
    assert_eq!(
        Bsp::new(buf, MapVersion::Quake1).err(),
        Some(Error::EntryCorrupted(LumpId::Planes))
    );

    // A negative offset is rejected too, naming the first bad lump.
    let mut buf2 = assemble_q1(0x1d, &empty_q1_lumps());
    buf2[4..8].copy_from_slice(&(-1i32).to_le_bytes());
    assert_eq!(
        Bsp::new(buf2, MapVersion::Quake1).err(),
        Some(Error::EntryCorrupted(LumpId::Entities))
    );

    // With two bad entries the earlier one in layout order is named.
    let mut buf3 = assemble_q1(0x1d, &empty_q1_lumps());
    let miptex_off = 4 + 8 * 2;
    let models_off = 4 + 8 * MODELS;
    buf3[miptex_off + 4..miptex_off + 8].copy_from_slice(&i32::MAX.to_le_bytes());
    buf3[models_off + 4..models_off + 8].copy_from_slice(&i32::MAX.to_le_bytes());
    assert_eq!(
        Bsp::new(buf3, MapVersion::Quake1).err(),
        Some(Error::EntryCorrupted(LumpId::Miptex))
    );
}

#[test]
fn quake2_layout_uses_its_own_lump_order() {
    // In the Quake2 layout planes sit in slot 1 but leaves in slot 8.
    let mut lumps: Vec<Vec<u8>> = (0..Q2_LUMPS).map(|_| Vec::new()).collect();
    lumps[1] = plane_rec([0.0, 0.0, 1.0], -4.25, 2);
    lumps[8] = leaf_rec(-6, -1, [0; 6], 0, 0);
    let bsp = Bsp::new(assemble_q2(0x26, &lumps), MapVersion::Quake2).unwrap();
    assert_eq!(bsp.version(), 0x26);
    assert_eq!(bsp.header().lumps.len(), 19);
    let p = bsp.plane(0).unwrap();
    assert_eq!(p.plane_type, PlaneType::AxialZ);
    assert_eq!(p.distance, (-4.25f32).to_bits());
    let l = bsp.leaf(0).unwrap().unwrap();
    assert_eq!(l.leaf_type(), LeafType::Sky);

    // A bad entry is named by the Quake2 layout: slot 2 holds vertices.
    let mut buf = assemble_q2(0x26, &(0..Q2_LUMPS).map(|_| Vec::new()).collect::<Vec<_>>());
    let entry_off = 8 + 8 * 2;
    buf[entry_off + 4..entry_off + 8].copy_from_slice(&i32::MAX.to_le_bytes());
    assert_eq!(
        Bsp::new(buf, MapVersion::Quake2).err(),
        Some(Error::EntryCorrupted(LumpId::Vertices))
    );
}

// ---- record decoding ----

fn one_of_each_map() -> Bsp {
    let mut lumps = empty_q1_lumps();
    lumps[PLANES] = plane_rec([0.0, 1.0, 0.0], 32.5, 1);
    lumps[LEAVES] = leaf_rec(-3, 5, [1, 2, 3, 4, 5, 6], 0, 1);
    lumps[FACES] = face_rec(0, 0, 0, 1);
    lumps[VERTICES] = {
        let mut v = vertex_rec([1.5, 2.5, 3.5]);
        v.extend_from_slice(&vertex_rec([-1.0, -2.0, -3.0]));
        v
    };
    lumps[EDGES] = {
        let mut e = Vec::new();
        e.extend_from_slice(&0u16.to_le_bytes());
        e.extend_from_slice(&1u16.to_le_bytes());
        e
    };
    lumps[LFACES] = 0u16.to_le_bytes().to_vec();
    lumps[LEDGES] = 0i16.to_le_bytes().to_vec();
    lumps[MODELS] = model_rec(0);
    Bsp::new(assemble_q1(0x1d, &lumps), MapVersion::Quake1).unwrap()
}

#[test]
fn repeated_decode_is_deterministic() {
    let bsp = one_of_each_map();
    assert_eq!(bsp.plane(0), bsp.plane(0));
    assert_eq!(bsp.leaf(0), bsp.leaf(0));
    assert_eq!(bsp.face(0), bsp.face(0));

    let p = bsp.plane(0).unwrap();
    assert_eq!(p.plane_type, PlaneType::AxialY);
    assert_eq!(p.normal, Vec3 { x: 0f32.to_bits(), y: 1f32.to_bits(), z: 0f32.to_bits() });
    assert_eq!(p.distance, 32.5f32.to_bits());

    let l = bsp.leaf(0).unwrap().unwrap();
    assert_eq!(l.leaf_type, LeafType::Water);
    assert_eq!(l.vis_index, 5);
    assert_eq!(l.bounds.aa, Vec3 { x: 1, y: 2, z: 3 });
    assert_eq!(l.bounds.bb, Vec3 { x: 4, y: 5, z: 6 });
    assert_eq!(l.sounds.water, 1);
    assert_eq!(l.sounds.lava, 4);

    let f = bsp.face(0).unwrap();
    assert_eq!(f.texinfo_id, 7);
    assert_eq!(f.lightmap, 9);
    assert_eq!(f.side(), Side::Front);
}

#[test]
fn unknown_enum_values_are_rejected() {
    let mut lumps = empty_q1_lumps();
    lumps[PLANES] = plane_rec([1.0, 0.0, 0.0], 0.0, 6);
    lumps[LEAVES] = leaf_rec(-7, -1, [0; 6], 0, 0);
    let bsp = Bsp::new(assemble_q1(0x1d, &lumps), MapVersion::Quake1).unwrap();
    assert_eq!(bsp.plane(0).err(), Some(Error::InvalidEnumValue(6)));
    assert_eq!(bsp.leaf(0).err(), Some(Error::InvalidEnumValue(-7)));
}

#[test]
fn out_of_range_indices_are_rejected() {
    let bsp = one_of_each_map();
    assert_eq!(bsp.plane(1).err(), Some(Error::IndexOutOfRange));
    assert_eq!(bsp.branch(0).err(), Some(Error::IndexOutOfRange));
    assert_eq!(bsp.leaf(7).err(), Some(Error::IndexOutOfRange));
    assert_eq!(bsp.vertex(2).err(), Some(Error::IndexOutOfRange));
    assert_eq!(bsp.model(1).err(), Some(Error::IndexOutOfRange));
}

#[test]
fn edges_resolve_vertices() {
    let bsp = one_of_each_map();
    let e = bsp.edge(0).unwrap();
    assert_eq!(e.start(), Vec3 { x: 1.5f32.to_bits(), y: 2.5f32.to_bits(), z: 3.5f32.to_bits() });
    assert_eq!(
        e.end(),
        Vec3 { x: (-1.0f32).to_bits(), y: (-2.0f32).to_bits(), z: (-3.0f32).to_bits() }
    );
}

#[test]
fn getters_report_the_header() {
    let bsp = one_of_each_map();
    assert_eq!(bsp.version(), 0x1d);
    assert_eq!(bsp.header().version, 0x1d);
    assert_eq!(bsp.header().lumps.len(), 15);
    let n = bsp.len();
    let bsp = bsp.into_static();
    assert_eq!(bsp.len(), n);
    assert_eq!(bsp.leaf_count(), 1);
    assert_eq!(bsp.plane_count(), 1);
    assert_eq!(bsp.model_count(), 1);
}

// ---- the tree navigator ----

#[test]
fn navigator_never_surfaces_invalid_leaves() {
    let mut lumps = empty_q1_lumps();
    lumps[PLANES] = plane_rec([1.0, 0.0, 0.0], 0.0, 0);
    let mut leaves = leaf_rec(-2, -1, [0; 6], 0, 0); // leaf 0: Invalid
    leaves.extend_from_slice(&leaf_rec(-1, -1, [0; 6], 0, 0)); // leaf 1: Ordinary
    lumps[LEAVES] = leaves;
    let bsp = Bsp::new(assemble_q1(0x1d, &lumps), MapVersion::Quake1).unwrap();

    // id -1 names leaf 0, which is Invalid: no such node.
    assert!(matches!(bsp.node(-1), Ok(None)));
    assert!(bsp.leaf(0).unwrap().is_none());
    // id -2 names leaf 1, a real leaf.
    let node = bsp.node(-2).unwrap().unwrap();
    let leaf = node.leaf().unwrap();
    assert_eq!(leaf.leaf_type(), LeafType::Ordinary);
    assert!(!leaf.is_invalid());
    // id -3 names leaf 2, which does not exist.
    assert_eq!(bsp.node(-3).err(), Some(Error::IndexOutOfRange));
    // id 0 names branch 0, and there are no branches.
    assert_eq!(bsp.node(0).err(), Some(Error::IndexOutOfRange));
}

// ---- point classification ----

#[test]
fn classification_reaches_the_golden_leaf() {
    // Two branches, three leaves; the query point descends front at the
    // first plane and back at the second, ending in leaf 2.
    let mut lumps = empty_q1_lumps();
    let mut planes = plane_rec([1.0, 0.0, 0.0], 1000.0, 0);
    planes.extend_from_slice(&plane_rec([0.0, 1.0, 0.0], 0.0, 1));
    lumps[PLANES] = planes;
    let mut branches = branch_rec(0, 1, -1, [0; 6]);
    branches.extend_from_slice(&branch_rec(1, -2, -3, [0; 6]));
    lumps[NODES] = branches;
    let mut leaves = leaf_rec(-1, -1, [-100, -100, -100, 100, 100, 100], 0, 0);
    leaves.extend_from_slice(&leaf_rec(-1, -1, [200, 200, 200, 300, 300, 300], 0, 0));
    leaves.extend_from_slice(&leaf_rec(-1, -1, [544, 536, 0, 672, 800, 218], 0, 0));
    lumps[LEAVES] = leaves;
    lumps[MODELS] = model_rec(0);
    let bsp = Bsp::new(assemble_q1(0x1d, &lumps), MapVersion::Quake1).unwrap();

    let pos = Vec3 { x: 20184i16, y: -12445i16, z: -21673i16 };

    let map = bsp.map_model().unwrap();
    let leaf = bsp.classify_point(&map, &pos).unwrap().unwrap();
    assert_eq!(leaf.bounds().aa, Vec3 { x: 544, y: 536, z: 0 });
    assert_eq!(leaf.bounds().bb, Vec3 { x: 672, y: 800, z: 218 });

    // The same walk through the explicit root and branch API.
    let root = bsp.root().unwrap().unwrap().branch().unwrap();
    assert_eq!(root.bounds().aa, Vec3 { x: 0, y: 0, z: 0 });
    let leaf2 = root.traverse(&bsp, &pos).unwrap().unwrap();
    assert_eq!(leaf2.bounds(), leaf.bounds());

    // And the plane accessors agree with what was written.
    let p0 = root.plane(&bsp).unwrap();
    assert_eq!(p0.plane_type, PlaneType::AxialX);
    let front = root.front(&bsp).unwrap().unwrap().branch().unwrap();
    let back = root.back(&bsp).unwrap().unwrap().leaf().unwrap();
    assert_eq!(front.plane_id, 1);
    assert_eq!(back.bounds().bb, Vec3 { x: 100, y: 100, z: 100 });
}

#[test]
fn classification_survives_cyclic_trees() {
    // Branch 0 points back at itself on both sides: a corrupted, cyclic
    // tree. The walk must stop with a distinct error, not hang.
    let mut lumps = empty_q1_lumps();
    lumps[PLANES] = plane_rec([1.0, 0.0, 0.0], 0.0, 0);
    lumps[NODES] = branch_rec(0, 0, 0, [0; 6]);
    lumps[MODELS] = model_rec(0);
    let bsp = Bsp::new(assemble_q1(0x1d, &lumps), MapVersion::Quake1).unwrap();

    let root = bsp.root().unwrap().unwrap().branch().unwrap();
    let pos = Vec3 { x: 1i16, y: 1i16, z: 1i16 };
    assert_eq!(root.traverse(&bsp, &pos).err(), Some(Error::TraversalOverrun));
}

// ---- faces and edges of a leaf ----

#[test]
fn leaf_faces_and_face_edges() {
    let bsp = one_of_each_map();
    let leaf = bsp.leaf(0).unwrap().unwrap();
    let mut faces = leaf.faces(&bsp).unwrap();
    let face = faces.next().unwrap();
    assert_eq!(face.plane_id, 0);
    assert!(faces.next().is_none());

    let mut edges = face.edges(&bsp).unwrap();
    let edge = edges.next().unwrap();
    assert_eq!(edge.start().x, 1.5f32.to_bits());
    assert!(edges.next().is_none());

    // side == 0 leaves the plane as stored.
    assert_eq!(face.plane(&bsp).unwrap(), bsp.plane(0).unwrap());
}

#[test]
fn face_side_flag_flips_the_plane() {
    let mut lumps = empty_q1_lumps();
    lumps[PLANES] = plane_rec([0.0, 1.0, 0.0], 32.5, 1);
    lumps[FACES] = face_rec(0, 1, 0, 0);
    let bsp = Bsp::new(assemble_q1(0x1d, &lumps), MapVersion::Quake1).unwrap();
    let face = bsp.face(0).unwrap();
    let p = face.plane(&bsp).unwrap();
    assert_eq!(p.normal.y, (-1.0f32).to_bits());
    assert_eq!(p.normal.x, (-0.0f32).to_bits());
    assert_eq!(p.distance, (-32.5f32).to_bits());
    assert_eq!(p.plane_type, PlaneType::AxialY);
}

#[test]
fn out_of_range_face_and_edge_refs_fail() {
    let mut lumps = empty_q1_lumps();
    lumps[LEAVES] = leaf_rec(-1, -1, [0; 6], 0, 1);
    lumps[LFACES] = 3u16.to_le_bytes().to_vec(); // face 3 does not exist
    lumps[FACES] = face_rec(0, 0, 0, 1);
    lumps[LEDGES] = (-1i16).to_le_bytes().to_vec(); // negative edge ref
    let bsp = Bsp::new(assemble_q1(0x1d, &lumps), MapVersion::Quake1).unwrap();
    let leaf = bsp.leaf(0).unwrap().unwrap();
    assert_eq!(leaf.faces(&bsp).err(), Some(Error::IndexOutOfRange));
    let face = bsp.face(0).unwrap();
    assert_eq!(face.edges(&bsp).err(), Some(Error::IndexOutOfRange));
}

// ---- the visibility decoder ----

/// A map with `n` ordinary leaves (leaf 0 carries `vis0`) and the given
/// vislist bytes.
fn vis_map(n: usize, vis0: i32, vislist: &[u8]) -> Bsp {
    let mut lumps = empty_q1_lumps();
    let mut leaves = Vec::new();
    for i in 0..n {
        let vi = if i == 0 { vis0 } else { -1 };
        leaves.extend_from_slice(&leaf_rec(-1, vi, [0; 6], 0, 0));
    }
    lumps[LEAVES] = leaves;
    lumps[VISLIST] = vislist.to_vec();
    Bsp::new(assemble_q1(0x1d, &lumps), MapVersion::Quake1).unwrap()
}

fn collect_visible(bsp: &Bsp, leaf: &qbsp::Leaf) -> Result<Vec<usize>, Error> {
    let mut it = leaf.visible_leaves();
    let mut out = Vec::new();
    loop {
        match it.next(bsp)? {
            Some((idx, l)) => {
                assert_ne!(l.leaf_type(), LeafType::Invalid);
                out.push(idx);
            }
            None => return Ok(out),
        }
    }
}

#[test]
fn skip_run_hides_eight_per_count() {
    // A zero byte with skip count 2 hides leaf slots 1..=16; the 0xff
    // byte then covers slots 17..24, of which bits 1..7 are set, so the
    // decoder emits 17, 18 and 19 before the counter passes the 20
    // leaves (index 20 resolves to nothing and is skipped).
    let bsp = vis_map(20, 0, &[0x00, 0x02, 0xff]);
    let leaf = bsp.leaf(0).unwrap().unwrap();
    let visible = collect_visible(&bsp, &leaf).unwrap();
    assert_eq!(visible, vec![17, 18, 19]);
    assert!(visible.iter().all(|&i| i > 8 * 2));
}

#[test]
fn bit_slots_test_the_byte_after_an_offset_of_one() {
    // Byte 0b0000_0100 has only bit 2 set: that is slot 1, so with the
    // counter starting at 1 the decoder emits exactly leaf 2.
    let bsp = vis_map(8, 0, &[0b0000_0100]);
    let leaf = bsp.leaf(0).unwrap().unwrap();
    assert_eq!(collect_visible(&bsp, &leaf).unwrap(), vec![2]);
}

#[test]
fn sentinel_yields_every_resolvable_leaf_ascending() {
    // Five leaves, leaf 2 Invalid. The sentinel enumerates indices
    // 1..=5: 2 is invalid and 5 out of range, both skipped.
    let mut lumps = empty_q1_lumps();
    let mut leaves = Vec::new();
    for i in 0..5 {
        let t = if i == 2 { -2 } else { -1 };
        leaves.extend_from_slice(&leaf_rec(t, -1, [0; 6], 0, 0));
    }
    lumps[LEAVES] = leaves;
    let bsp = Bsp::new(assemble_q1(0x1d, &lumps), MapVersion::Quake1).unwrap();
    let leaf = bsp.leaf(0).unwrap().unwrap();
    let visible = collect_visible(&bsp, &leaf).unwrap();
    assert_eq!(visible, vec![1, 3, 4]);
}

#[test]
fn vis_cursor_overruns_are_reported() {
    // vis_index points past the vislist lump.
    let bsp = vis_map(4, 100, &[0x00, 0x00]);
    let leaf = bsp.leaf(0).unwrap().unwrap();
    assert_eq!(collect_visible(&bsp, &leaf).err(), Some(Error::VisDecodeOverrun));

    // A zero byte at the very end has no skip count to read.
    let bsp2 = vis_map(4, 0, &[0x00]);
    let leaf2 = bsp2.leaf(0).unwrap().unwrap();
    assert_eq!(collect_visible(&bsp2, &leaf2).err(), Some(Error::VisDecodeOverrun));

    // After an error the iterator state is unchanged: the error repeats.
    let mut it = leaf2.visible_leaves();
    assert!(it.next(&bsp2).is_err());
    assert!(it.next(&bsp2).is_err());
}

#[test]
fn decoding_stops_at_the_leaf_count() {
    // All bits set over plenty of bytes, but only 3 leaves: the decoder
    // stops once the counter passes 3 and never reads further.
    let bsp = vis_map(3, 0, &[0xff, 0xff, 0xff, 0xff]);
    let leaf = bsp.leaf(0).unwrap().unwrap();
    assert_eq!(collect_visible(&bsp, &leaf).unwrap(), vec![1, 2]);
}
