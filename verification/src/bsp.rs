//! The validated view over a raw map buffer.
//!
//! Construction checks the header once: buffer long enough, version
//! accepted by the chosen policy, and every lump's byte range inside the
//! buffer. Afterwards each record accessor decodes lazily, bounds-checking
//! every cross-referencing index at the point of use.

use vstd::arithmetic::div_mod::lemma_fundamental_div_mod;
use vstd::arithmetic::div_mod::lemma_mod_division_less_than_divisor;
use vstd::arithmetic::mul::lemma_mul_inequality;
use vstd::prelude::*;

use crate::bytes::{le_i16, le_i32, le_u16, le_u32, spec_le_i16, spec_le_i32, spec_le_u16,
    spec_le_u32};
use crate::error::Error;
use crate::records::{Branch, Edge, EdgeRef, Face, FaceRef, Hulls, Leaf, LeafType, Model, Node, Plane,
    Sounds, Vec3, BRANCH_SIZE, EDGE_REF_SIZE, EDGE_SIZE, FACE_REF_SIZE, FACE_SIZE, LEAF_SIZE,
    MODEL_SIZE, PLANE_SIZE, VERTEX_SIZE};
use crate::records::{spec_branch, spec_face, spec_leaf, spec_model, spec_plane, leaf_type_of,
    plane_type_of};
use crate::records::{spec_bounds_short, spec_vec3_bits};
use crate::version::{header_size, lump_count, lump_of, slot_of, spec_header_size,
    spec_lump_count, spec_lump_of, spec_slot_of, spec_version_off, version_off, LumpId,
    MapVersion};

verus! {

/// One validated lump-table entry: a byte range inside the buffer.
#[derive(Clone, Copy, Debug, PartialEq, Eq, Structural)]
pub struct Entry {
    pub offset: i32,
    pub len: i32,
}

/// The decoded header: the observed version field and the lump table, in
/// layout order. Built once at construction and never mutated.
#[derive(Debug)]
pub struct Header {
    pub version: u32,
    pub lumps: Vec<Entry>,
}

/// An immutable, validated view over a map's bytes plus the policy it was
/// accepted under.
pub struct Bsp {
    pub(crate) buf: Vec<u8>,
    pub(crate) policy: MapVersion,
    pub(crate) header: Header,
}

/// The lump-table entry in slot `slot` of the header, as stored in the
/// bytes themselves.
pub open spec fn spec_entry_at(b: Seq<u8>, v: MapVersion, slot: int) -> Entry {
    Entry {
        offset: spec_le_i32(b, spec_version_off(v) + 4 + 8 * slot),
        len: spec_le_i32(b, spec_version_off(v) + 4 + 8 * slot + 4),
    }
}

/// Whether an entry's byte range lies inside a buffer of `blen` bytes.
pub open spec fn spec_entry_ok(blen: int, e: Entry) -> bool {
    0 <= e.offset && 0 <= e.len && e.offset + e.len <= blen
}

/// Slot `s` holds the first lump-table entry whose range escapes a buffer
/// of `b.len()` bytes.
pub open spec fn spec_first_bad_slot(b: Seq<u8>, v: MapVersion, s: int) -> bool {
    &&& 0 <= s < spec_lump_count(v)
    &&& !spec_entry_ok(b.len() as int, spec_entry_at(b, v, s))
    &&& forall|i: int|
        0 <= i < s ==> spec_entry_ok(b.len() as int, #[trigger] spec_entry_at(b, v, i))
}

impl Bsp {
    /// The raw bytes this view was constructed over.
    pub closed spec fn bytes(self) -> Seq<u8> {
        self.buf@
    }

    /// The policy this view was accepted under.
    pub closed spec fn policy(self) -> MapVersion {
        self.policy
    }

    /// The version field the header carries.
    pub open spec fn spec_version(self) -> u32 {
        spec_le_u32(self.bytes(), spec_version_off(self.policy()))
    }

    #[verifier::type_invariant]
    pub(crate) open spec fn inv(self) -> bool {
        &&& self.buf@.len() <= usize::MAX
        &&& spec_header_size(self.policy) <= self.buf@.len()
        &&& self.policy.spec_accepts(spec_le_u32(self.buf@, spec_version_off(self.policy)))
        &&& self.header.version == spec_le_u32(self.buf@, spec_version_off(self.policy))
        &&& self.header.lumps@.len() == spec_lump_count(self.policy)
        &&& forall|i: int|
            0 <= i < spec_lump_count(self.policy) ==> self.header.lumps@[i] == #[trigger] spec_entry_at(
                self.buf@,
                self.policy,
                i,
            ) && spec_entry_ok(self.buf@.len() as int, spec_entry_at(self.buf@, self.policy, i))
    }

    /// Validates `buffer` under `policy` and returns the view, or says
    /// exactly why the buffer was rejected: too short for the header,
    /// version not accepted, or the first lump whose byte range escapes
    /// the buffer.
    pub fn new(buffer: Vec<u8>, policy: MapVersion) -> (r: Result<Bsp, Error>)
        ensures
            ({
                let b = buffer@;
                let cnt = spec_lump_count(policy);
                if b.len() < spec_header_size(policy) {
                    r == Err::<Bsp, Error>(Error::HeaderCorrupted)
                } else if !policy.spec_accepts(spec_le_u32(b, spec_version_off(policy))) {
                    r == Err::<Bsp, Error>(
                        Error::VersionMismatch(spec_le_u32(b, spec_version_off(policy))),
                    )
                } else if exists|s: int|
                    0 <= s < cnt && !spec_entry_ok(
                        b.len() as int,
                        #[trigger] spec_entry_at(b, policy, s),
                    ) {
                    exists|s: int|
                        #[trigger] spec_first_bad_slot(b, policy, s) && r == Err::<Bsp, Error>(
                            Error::EntryCorrupted(spec_lump_of(policy, s)),
                        )
                } else {
                    r matches Ok(bsp) && bsp.bytes() == b && bsp.policy() == policy
                }
            }),
            r matches Ok(bsp) ==> forall|s: int|
                0 <= s < spec_lump_count(policy) ==> spec_entry_ok(
                    buffer@.len() as int,
                    #[trigger] spec_entry_at(buffer@, policy, s),
                ),
    {
        let blen = buffer.len();
        let hs = header_size(policy);
        if blen < hs {
            return Err(Error::HeaderCorrupted);
        }
        let vo = version_off(policy);
        let version = le_u32(&buffer, vo);
        if !policy.accepts_version(version) {
            return Err(Error::VersionMismatch(version));
        }
        let cnt = lump_count(policy);
        let mut lumps: Vec<Entry> = Vec::new();
        let mut slot: usize = 0;
        while slot < cnt
            invariant
                blen == buffer@.len(),
                hs == spec_header_size(policy),
                vo == spec_version_off(policy),
                cnt == spec_lump_count(policy),
                hs <= blen,
                version == spec_le_u32(buffer@, spec_version_off(policy)),
                policy.spec_accepts(version),
                slot <= cnt,
                lumps@.len() == slot,
                forall|i: int|
                    0 <= i < slot ==> lumps@[i] == #[trigger] spec_entry_at(buffer@, policy, i)
                        && spec_entry_ok(buffer@.len() as int, spec_entry_at(buffer@, policy, i)),
            decreases cnt - slot,
        {
            let eo = vo + 4 + 8 * slot;
            let offset = le_i32(&buffer, eo);
            let len = le_i32(&buffer, eo + 4);
            let ok = offset >= 0 && len >= 0 && (offset as usize) <= blen && (len as usize) <= blen
                - (offset as usize);
            if !ok {
                proof {
                    assert(spec_entry_at(buffer@, policy, slot as int) == Entry { offset, len });
                    assert(spec_first_bad_slot(buffer@, policy, slot as int));
                }
                return Err(Error::EntryCorrupted(lump_of(policy, slot)));
            }
            lumps.push(Entry { offset, len });
            slot = slot + 1;
        }
        Ok(Bsp { buf: buffer, policy, header: Header { version, lumps } })
    }

    /// A view that owns its buffer; this view already does, so it is
    /// returned unchanged.
    pub fn into_static(self) -> (r: Bsp)
        ensures
            r == self,
    {
        self
    }

    /// Length of the underlying buffer in bytes.
    pub fn len(&self) -> (n: usize)
        ensures
            n == self.bytes().len(),
    {
        self.buf.len()
    }

    /// The observed version field.
    pub fn version(&self) -> (v: u32)
        ensures
            v == self.spec_version(),
    {
        proof {
            use_type_invariant(self);
        }
        self.header.version
    }

    /// The decoded header.
    pub fn header(&self) -> (h: &Header)
        ensures
            h.version == self.spec_version(),
            h.lumps@.len() == spec_lump_count(self.policy()),
            forall|i: int|
                0 <= i < spec_lump_count(self.policy()) ==> h.lumps@[i] == #[trigger] spec_entry_at(
                    self.bytes(),
                    self.policy(),
                    i,
                ),
    {
        proof {
            use_type_invariant(self);
        }
        &self.header
    }

    /// The lump-table entry for `id`.
    pub open spec fn spec_lump_entry(self, id: LumpId) -> Entry {
        spec_entry_at(self.bytes(), self.policy(), spec_slot_of(self.policy(), id))
    }

    /// Byte offset of lump `id` inside the buffer.
    pub open spec fn spec_lump_off(self, id: LumpId) -> int {
        self.spec_lump_entry(id).offset as int
    }

    /// Byte length of lump `id`.
    pub open spec fn spec_lump_len(self, id: LumpId) -> int {
        self.spec_lump_entry(id).len as int
    }

    /// Validated entry lookup; every lump range is inside the buffer.
    fn lump(&self, id: LumpId) -> (e: Entry)
        requires
            spec_slot_of(self.policy(), id) >= 0,
        ensures
            e == self.spec_lump_entry(id),
            spec_entry_ok(self.bytes().len() as int, e),
    {
        proof {
            use_type_invariant(self);
            let s = spec_slot_of(self.policy, id);
            assert(s < spec_lump_count(self.policy));
            assert(self.header.lumps@[s] == spec_entry_at(self.buf@, self.policy, s)
                && spec_entry_ok(self.buf@.len() as int, spec_entry_at(self.buf@, self.policy, s)));
        }
        let slot = slot_of(self.policy, id);
        self.header.lumps[slot]
    }

    /// Number of whole records of `size` bytes inside lump `id`.
    pub open spec fn spec_record_count(self, id: LumpId, size: int) -> int {
        self.spec_lump_len(id) / size
    }

    /// Byte offset of record `index` of lump `id`, with the record fully
    /// inside the buffer.
    fn record_off(&self, id: LumpId, index: usize, size: usize) -> (off: usize)
        requires
            spec_slot_of(self.policy(), id) >= 0,
            0 < size,
            index < self.spec_record_count(id, size as int),
        ensures
            off == self.spec_lump_off(id) + index * size,
            off + size <= self.bytes().len(),
            off + size <= usize::MAX,
    {
        proof {
            use_type_invariant(self);
        }
        let e = self.lump(id);
        proof {
            lemma_record_in_lump(index as int, size as int, e.len as int);
        }
        (e.offset as usize) + index * size
    }

    /// Reads three single-precision bit patterns at `off`.
    fn read_vec3_bits(&self, off: usize) -> (r: Vec3<u32>)
        requires
            off + VERTEX_SIZE <= self.bytes().len(),
        ensures
            r == spec_vec3_bits(self.bytes(), off as int),
    {
        proof {
            use_type_invariant(self);
        }
        Vec3 { x: le_u32(&self.buf, off), y: le_u32(&self.buf, off + 4), z: le_u32(&self.buf, off + 8) }
    }

    /// Reads an integer bounding box at `off`.
    fn read_bounds_short(&self, off: usize) -> (r: crate::records::Bounds)
        requires
            off + 12 <= self.bytes().len(),
        ensures
            r == spec_bounds_short(self.bytes(), off as int),
    {
        proof {
            use_type_invariant(self);
        }
        crate::records::BoundingBox {
            aa: Vec3 {
                x: le_i16(&self.buf, off),
                y: le_i16(&self.buf, off + 2),
                z: le_i16(&self.buf, off + 4),
            },
            bb: Vec3 {
                x: le_i16(&self.buf, off + 6),
                y: le_i16(&self.buf, off + 8),
                z: le_i16(&self.buf, off + 10),
            },
        }
    }

    /// Number of whole plane records.
    pub open spec fn spec_plane_count(self) -> int {
        self.spec_record_count(LumpId::Planes, PLANE_SIZE as int)
    }

    /// Number of whole branch records.
    pub open spec fn spec_branch_count(self) -> int {
        self.spec_record_count(LumpId::Nodes, BRANCH_SIZE as int)
    }

    /// Number of whole leaf records.
    pub open spec fn spec_leaf_count(self) -> int {
        self.spec_record_count(LumpId::Leaves, LEAF_SIZE as int)
    }

    /// Number of whole face records.
    pub open spec fn spec_face_count(self) -> int {
        self.spec_record_count(LumpId::Faces, FACE_SIZE as int)
    }

    /// Number of whole edge records.
    pub open spec fn spec_edge_count(self) -> int {
        self.spec_record_count(LumpId::Edges, EDGE_SIZE as int)
    }

    /// Number of whole vertex records.
    pub open spec fn spec_vertex_count(self) -> int {
        self.spec_record_count(LumpId::Vertices, VERTEX_SIZE as int)
    }

    /// Number of whole model records.
    pub open spec fn spec_model_count(self) -> int {
        self.spec_record_count(LumpId::Models, MODEL_SIZE as int)
    }

    /// Number of face-indirection records.
    pub open spec fn spec_lface_count(self) -> int {
        self.spec_record_count(LumpId::LFaces, FACE_REF_SIZE as int)
    }

    /// Number of edge-indirection records.
    pub open spec fn spec_ledge_count(self) -> int {
        self.spec_record_count(LumpId::LEdges, EDGE_REF_SIZE as int)
    }

    /// Byte length of the visibility lump.
    pub open spec fn spec_vis_len(self) -> int {
        self.spec_lump_len(LumpId::Vislist)
    }

    /// The byte of the visibility lump at relative offset `j`.
    pub open spec fn spec_vis_byte(self, j: int) -> u8 {
        self.bytes()[self.spec_lump_off(LumpId::Vislist) + j]
    }

    /// Number of plane records.
    pub fn plane_count(&self) -> (n: usize)
        ensures
            n == self.spec_plane_count(),
    {
        let e = self.lump(LumpId::Planes);
        (e.len as usize) / PLANE_SIZE
    }

    /// Number of branch records.
    pub fn branch_count(&self) -> (n: usize)
        ensures
            n == self.spec_branch_count(),
    {
        let e = self.lump(LumpId::Nodes);
        (e.len as usize) / BRANCH_SIZE
    }

    /// Number of leaf records. The count derives from an `i32` lump
    /// length, so counters built on it have ample headroom.
    pub fn leaf_count(&self) -> (n: usize)
        ensures
            n == self.spec_leaf_count(),
            n <= 0x7fff_ffff,
    {
        let e = self.lump(LumpId::Leaves);
        (e.len as usize) / LEAF_SIZE
    }

    /// Number of face records.
    pub fn face_count(&self) -> (n: usize)
        ensures
            n == self.spec_face_count(),
    {
        let e = self.lump(LumpId::Faces);
        (e.len as usize) / FACE_SIZE
    }

    /// Number of edge records.
    pub fn edge_count(&self) -> (n: usize)
        ensures
            n == self.spec_edge_count(),
    {
        let e = self.lump(LumpId::Edges);
        (e.len as usize) / EDGE_SIZE
    }

    /// Number of vertex records.
    pub fn vertex_count(&self) -> (n: usize)
        ensures
            n == self.spec_vertex_count(),
    {
        let e = self.lump(LumpId::Vertices);
        (e.len as usize) / VERTEX_SIZE
    }

    /// Number of model records.
    pub fn model_count(&self) -> (n: usize)
        ensures
            n == self.spec_model_count(),
    {
        let e = self.lump(LumpId::Models);
        (e.len as usize) / MODEL_SIZE
    }

    /// Number of face-indirection records.
    fn lface_count(&self) -> (n: usize)
        ensures
            n == self.spec_lface_count(),
    {
        let e = self.lump(LumpId::LFaces);
        (e.len as usize) / FACE_REF_SIZE
    }

    /// Number of edge-indirection records.
    fn ledge_count(&self) -> (n: usize)
        ensures
            n == self.spec_ledge_count(),
    {
        let e = self.lump(LumpId::LEdges);
        (e.len as usize) / EDGE_REF_SIZE
    }

    /// The plane record at `index`, decoded, or why it could not be.
    pub open spec fn spec_plane_at(self, i: int) -> Result<Plane, Error> {
        if 0 <= i < self.spec_plane_count() {
            spec_plane(self.bytes(), self.spec_lump_off(LumpId::Planes) + i * (PLANE_SIZE as int))
        } else {
            Err(Error::IndexOutOfRange)
        }
    }

    /// Decodes the plane at `index`; every read is bounds-checked and an
    /// unknown plane-type value is rejected.
    pub fn plane(&self, index: usize) -> (r: Result<Plane, Error>)
        ensures
            r == self.spec_plane_at(index as int),
    {
        if index >= self.plane_count() {
            return Err(Error::IndexOutOfRange);
        }
        let off = self.record_off(LumpId::Planes, index, PLANE_SIZE);
        let raw = le_i32(&self.buf, off + 16);
        proof {
            use_type_invariant(self);
        }
        match plane_type_of(raw) {
            Ok(t) => Ok(
                Plane {
                    normal: self.read_vec3_bits(off),
                    distance: le_u32(&self.buf, off + 12),
                    plane_type: t,
                },
            ),
            Err(e) => Err(e),
        }
    }

    /// The branch record at `index`.
    pub open spec fn spec_branch_at(self, i: int) -> Result<Branch, Error> {
        if 0 <= i < self.spec_branch_count() {
            Ok(spec_branch(self.bytes(), self.spec_lump_off(LumpId::Nodes) + i * (BRANCH_SIZE as int)))
        } else {
            Err(Error::IndexOutOfRange)
        }
    }

    /// Decodes the branch (internal node) record at `index`.
    pub fn branch(&self, index: usize) -> (r: Result<Branch, Error>)
        ensures
            r == self.spec_branch_at(index as int),
    {
        if index >= self.branch_count() {
            return Err(Error::IndexOutOfRange);
        }
        let off = self.record_off(LumpId::Nodes, index, BRANCH_SIZE);
        proof {
            use_type_invariant(self);
        }
        Ok(
            Branch {
                plane_id: le_i32(&self.buf, off),
                front_id: le_i16(&self.buf, off + 4),
                back_id: le_i16(&self.buf, off + 6),
                bounds: self.read_bounds_short(off + 8),
                face_id: le_u16(&self.buf, off + 20),
                face_len: le_u16(&self.buf, off + 22),
            },
        )
    }

    /// The leaf record at `index`: `Ok(None)` when it decodes to an
    /// `Invalid` leaf, which stands for no real space.
    pub open spec fn spec_leaf_at(self, i: int) -> Result<Option<Leaf>, Error> {
        if 0 <= i < self.spec_leaf_count() {
            match spec_leaf(self.bytes(), self.spec_lump_off(LumpId::Leaves) + i * (LEAF_SIZE as int)) {
                Ok(l) => if l.leaf_type is Invalid {
                    Ok(None)
                } else {
                    Ok(Some(l))
                },
                Err(e) => Err(e),
            }
        } else {
            Err(Error::IndexOutOfRange)
        }
    }

    /// Decodes the leaf record at `index`. An `Invalid` leaf is never
    /// surfaced: it comes back as `Ok(None)`.
    pub fn leaf(&self, index: usize) -> (r: Result<Option<Leaf>, Error>)
        ensures
            r == self.spec_leaf_at(index as int),
            r matches Ok(Some(l)) ==> l.leaf_type != LeafType::Invalid,
    {
        if index >= self.leaf_count() {
            return Err(Error::IndexOutOfRange);
        }
        let off = self.record_off(LumpId::Leaves, index, LEAF_SIZE);
        proof {
            use_type_invariant(self);
        }
        let raw = le_i32(&self.buf, off);
        let t = match leaf_type_of(raw) {
            Ok(t) => t,
            Err(e) => {
                return Err(e);
            },
        };
        let l = Leaf {
            leaf_type: t,
            vis_index: le_i32(&self.buf, off + 4),
            bounds: self.read_bounds_short(off + 8),
            face_index_id: le_u16(&self.buf, off + 20),
            face_index_len: le_u16(&self.buf, off + 22),
            sounds: Sounds {
                water: self.buf[off + 24],
                sky: self.buf[off + 25],
                slime: self.buf[off + 26],
                lava: self.buf[off + 27],
            },
        };
        if l.is_invalid() {
            Ok(None)
        } else {
            Ok(Some(l))
        }
    }

    /// The face record at `index`.
    pub open spec fn spec_face_at(self, i: int) -> Result<Face, Error> {
        if 0 <= i < self.spec_face_count() {
            Ok(spec_face(self.bytes(), self.spec_lump_off(LumpId::Faces) + i * (FACE_SIZE as int)))
        } else {
            Err(Error::IndexOutOfRange)
        }
    }

    /// Decodes the face record at `index`.
    pub fn face(&self, index: usize) -> (r: Result<Face, Error>)
        ensures
            r == self.spec_face_at(index as int),
    {
        if index >= self.face_count() {
            return Err(Error::IndexOutOfRange);
        }
        let off = self.record_off(LumpId::Faces, index, FACE_SIZE);
        proof {
            use_type_invariant(self);
        }
        Ok(
            Face {
                plane_id: le_u16(&self.buf, off),
                side: le_u16(&self.buf, off + 2),
                ledge_id: le_u32(&self.buf, off + 4),
                ledge_len: le_u32(&self.buf, off + 8),
                texinfo_id: le_u16(&self.buf, off + 12),
                typelight: self.buf[off + 14],
                baselight: self.buf[off + 15],
                light0: self.buf[off + 16],
                light1: self.buf[off + 17],
                lightmap: le_i32(&self.buf, off + 20),
            },
        )
    }

    /// The vertex at `index`, as single-precision bit patterns.
    pub open spec fn spec_vertex_at(self, i: int) -> Result<Vec3<u32>, Error> {
        if 0 <= i < self.spec_vertex_count() {
            Ok(spec_vec3_bits(self.bytes(), self.spec_lump_off(LumpId::Vertices) + i * (VERTEX_SIZE as int)))
        } else {
            Err(Error::IndexOutOfRange)
        }
    }

    /// Decodes the vertex record at `index`.
    pub fn vertex(&self, index: usize) -> (r: Result<Vec3<u32>, Error>)
        ensures
            r == self.spec_vertex_at(index as int),
    {
        if index >= self.vertex_count() {
            return Err(Error::IndexOutOfRange);
        }
        let off = self.record_off(LumpId::Vertices, index, VERTEX_SIZE);
        Ok(self.read_vec3_bits(off))
    }

    /// The edge at `index`, its two endpoints resolved through the vertex
    /// lump.
    pub open spec fn spec_edge_at(self, i: int) -> Result<Edge, Error> {
        if 0 <= i < self.spec_edge_count() {
            let off = self.spec_lump_off(LumpId::Edges) + i * (EDGE_SIZE as int);
            let s = spec_le_u16(self.bytes(), off) as int;
            let e = spec_le_u16(self.bytes(), off + 2) as int;
            match (self.spec_vertex_at(s), self.spec_vertex_at(e)) {
                (Ok(sv), Ok(ev)) => Ok(Edge { start: sv, end: ev }),
                (Err(er), _) => Err(er),
                (_, Err(er)) => Err(er),
            }
        } else {
            Err(Error::IndexOutOfRange)
        }
    }

    /// Decodes the edge record at `index` and resolves its two vertex
    /// indices, failing rather than reading outside the vertex lump.
    pub fn edge(&self, index: usize) -> (r: Result<Edge, Error>)
        ensures
            r == self.spec_edge_at(index as int),
    {
        if index >= self.edge_count() {
            return Err(Error::IndexOutOfRange);
        }
        let off = self.record_off(LumpId::Edges, index, EDGE_SIZE);
        proof {
            use_type_invariant(self);
        }
        let s = le_u16(&self.buf, off);
        let e = le_u16(&self.buf, off + 2);
        let sv = match self.vertex(s as usize) {
            Ok(v) => v,
            Err(er) => {
                return Err(er);
            },
        };
        let ev = match self.vertex(e as usize) {
            Ok(v) => v,
            Err(er) => {
                return Err(er);
            },
        };
        Ok(Edge { start: sv, end: ev })
    }

    /// The model record at `index`.
    pub open spec fn spec_model_at(self, i: int) -> Result<Model, Error> {
        if 0 <= i < self.spec_model_count() {
            Ok(spec_model(self.bytes(), self.spec_lump_off(LumpId::Models) + i * (MODEL_SIZE as int)))
        } else {
            Err(Error::IndexOutOfRange)
        }
    }

    /// Decodes the model record at `index`.
    pub fn model(&self, index: usize) -> (r: Result<Model, Error>)
        ensures
            r == self.spec_model_at(index as int),
    {
        if index >= self.model_count() {
            return Err(Error::IndexOutOfRange);
        }
        let off = self.record_off(LumpId::Models, index, MODEL_SIZE);
        proof {
            use_type_invariant(self);
        }
        Ok(
            Model {
                bound: crate::records::BoundingBox {
                    aa: self.read_vec3_bits(off),
                    bb: self.read_vec3_bits(off + 12),
                },
                origin: self.read_vec3_bits(off + 24),
                hulls: Hulls {
                    hull0: le_i32(&self.buf, off + 36),
                    hull1: le_i32(&self.buf, off + 40),
                    hull2: le_i32(&self.buf, off + 44),
                    hull3: le_i32(&self.buf, off + 48),
                },
                numleafs: le_i32(&self.buf, off + 52),
                face_id: le_i32(&self.buf, off + 56),
                face_len: le_i32(&self.buf, off + 60),
            },
        )
    }

    /// The face-indirection record at `index`.
    pub open spec fn spec_lface_at(self, i: int) -> Result<FaceRef, Error> {
        if 0 <= i < self.spec_lface_count() {
            Ok(FaceRef(spec_le_u16(self.bytes(), self.spec_lump_off(LumpId::LFaces) + i * (FACE_REF_SIZE as int))))
        } else {
            Err(Error::IndexOutOfRange)
        }
    }

    /// Decodes the face-indirection record at `index`.
    pub(crate) fn lface(&self, index: usize) -> (r: Result<FaceRef, Error>)
        ensures
            r == self.spec_lface_at(index as int),
    {
        if index >= self.lface_count() {
            return Err(Error::IndexOutOfRange);
        }
        let off = self.record_off(LumpId::LFaces, index, FACE_REF_SIZE);
        proof {
            use_type_invariant(self);
        }
        Ok(FaceRef(le_u16(&self.buf, off)))
    }

    /// The edge-indirection record at `index`.
    pub open spec fn spec_ledge_at(self, i: int) -> Result<EdgeRef, Error> {
        if 0 <= i < self.spec_ledge_count() {
            Ok(EdgeRef(spec_le_i16(self.bytes(), self.spec_lump_off(LumpId::LEdges) + i * (EDGE_REF_SIZE as int))))
        } else {
            Err(Error::IndexOutOfRange)
        }
    }

    /// Decodes the edge-indirection record at `index`.
    pub(crate) fn ledge(&self, index: usize) -> (r: Result<EdgeRef, Error>)
        ensures
            r == self.spec_ledge_at(index as int),
    {
        if index >= self.ledge_count() {
            return Err(Error::IndexOutOfRange);
        }
        let off = self.record_off(LumpId::LEdges, index, EDGE_REF_SIZE);
        proof {
            use_type_invariant(self);
        }
        Ok(EdgeRef(le_i16(&self.buf, off)))
    }

    /// Reads the visibility byte at relative offset `j`, or `None` when
    /// `j` lies outside the vislist lump.
    pub(crate) fn vis_byte(&self, j: usize) -> (r: Option<u8>)
        ensures
            r == (if (j as int) < self.spec_vis_len() {
                Some(self.spec_vis_byte(j as int))
            } else {
                None::<u8>
            }),
    {
        let e = self.lump(LumpId::Vislist);
        if j >= (e.len as usize) {
            return None;
        }
        proof {
            use_type_invariant(self);
        }
        Some(self.buf[(e.offset as usize) + j])
    }

    /// Resolves a signed node id: a non-negative id is a branch index, a
    /// negative id names the leaf at `-id - 1`. An id that reaches an
    /// `Invalid` leaf resolves to no node at all.
    pub open spec fn spec_node(self, id: int) -> Result<Option<Node>, Error> {
        if id >= 0 {
            match self.spec_branch_at(id) {
                Ok(b) => Ok(Some(Node::Branch(b))),
                Err(e) => Err(e),
            }
        } else {
            match self.spec_leaf_at(-id - 1) {
                Ok(Some(l)) => Ok(Some(Node::Leaf(l))),
                Ok(None) => Ok(None),
                Err(e) => Err(e),
            }
        }
    }

    /// The tree navigator: resolves a signed node id into a branch or a
    /// leaf. It never surfaces an `Invalid` leaf; such an id resolves to
    /// `Ok(None)`.
    pub fn node(&self, id: i32) -> (r: Result<Option<Node>, Error>)
        ensures
            r == self.spec_node(id as int),
            r matches Ok(Some(Node::Leaf(l))) ==> l.leaf_type != LeafType::Invalid,
    {
        if id >= 0 {
            match self.branch(id as usize) {
                Ok(b) => Ok(Some(Node::Branch(b))),
                Err(e) => Err(e),
            }
        } else {
            let li = ((-(id as i64)) - 1) as usize;
            proof {
                assert(li as int == -(id as int) - 1);
            }
            match self.leaf(li) {
                Ok(Some(l)) => Ok(Some(Node::Leaf(l))),
                Ok(None) => Ok(None),
                Err(e) => Err(e),
            }
        }
    }

    /// The map's own model: model 0.
    pub open spec fn spec_map_model(self) -> Result<Model, Error> {
        self.spec_model_at(0)
    }

    /// The map's own model (model 0), whose hull 0 roots the primary
    /// BSP tree.
    pub fn map_model(&self) -> (r: Result<Model, Error>)
        ensures
            r == self.spec_map_model(),
    {
        self.model(0)
    }

    /// The root node of the map: hull 0 of model 0.
    pub open spec fn spec_root(self) -> Result<Option<Node>, Error> {
        match self.spec_map_model() {
            Ok(m) => self.spec_node(m.hulls.hull0 as int),
            Err(e) => Err(e),
        }
    }

    /// Resolves the root node of the map's primary BSP tree.
    pub fn root(&self) -> (r: Result<Option<Node>, Error>)
        ensures
            r == self.spec_root(),
    {
        match self.map_model() {
            Ok(m) => self.node(m.hulls.hull0),
            Err(e) => Err(e),
        }
    }
}

impl Model {
    /// The root node of this model's primary hull.
    pub fn root(&self, bsp: &Bsp) -> (r: Result<Option<Node>, Error>)
        ensures
            r == bsp.spec_node(self.hulls.hull0 as int),
    {
        bsp.node(self.hulls.hull0)
    }
}

impl Branch {
    /// The splitting plane this branch references.
    pub fn plane(&self, bsp: &Bsp) -> (r: Result<Plane, Error>)
        ensures
            r == bsp.spec_plane_at(self.plane_id as int),
    {
        if self.plane_id < 0 {
            return Err(Error::IndexOutOfRange);
        }
        bsp.plane(self.plane_id as usize)
    }

    /// The node in front of the splitting plane.
    pub fn front(&self, bsp: &Bsp) -> (r: Result<Option<Node>, Error>)
        ensures
            r == bsp.spec_node(self.front_id as int),
    {
        bsp.node(self.front_id as i32)
    }

    /// The node behind the splitting plane.
    pub fn back(&self, bsp: &Bsp) -> (r: Result<Option<Node>, Error>)
        ensures
            r == bsp.spec_node(self.back_id as int),
    {
        bsp.node(self.back_id as i32)
    }
}

/// Law: record decoding is deterministic. The decoders return exactly
/// what the spec-level readers give for the buffer and index, so any two
/// reads of the same plane, leaf or face at the same index — the values
/// `plane`, `leaf` and `face` promise in their contracts — are the same
/// decoded value.
pub proof fn lemma_repeated_decode_deterministic(
    bsp: Bsp,
    i: int,
    p1: Result<Plane, Error>,
    p2: Result<Plane, Error>,
    l1: Result<Option<Leaf>, Error>,
    l2: Result<Option<Leaf>, Error>,
    f1: Result<Face, Error>,
    f2: Result<Face, Error>,
)
    requires
        p1 == bsp.spec_plane_at(i),
        p2 == bsp.spec_plane_at(i),
        l1 == bsp.spec_leaf_at(i),
        l2 == bsp.spec_leaf_at(i),
        f1 == bsp.spec_face_at(i),
        f2 == bsp.spec_face_at(i),
    ensures
        p1 == p2,
        l1 == l2,
        f1 == f2,
{
}

/// Record `index` of a lump of `len` bytes lies fully inside the lump.
proof fn lemma_record_in_lump(index: int, size: int, len: int)
    requires
        0 < size,
        0 <= index,
        0 <= len,
        index < len / size,
    ensures
        index * size + size <= len,
{
    lemma_fundamental_div_mod(len, size);
    lemma_mod_division_less_than_divisor(len, size);
    lemma_mul_inequality(index + 1, len / size, size);
    assert((index + 1) * size == index * size + size) by (nonlinear_arith);
    assert(size * (len / size) == (len / size) * size) by (nonlinear_arith);
}

} // verus!
