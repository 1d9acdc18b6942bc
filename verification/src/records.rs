//! Decoded record types and their byte-level layouts.
//!
//! Every record is stored little-endian at a fixed offset inside its lump.
//! Floating-point fields (plane normals and distances, vertices, model
//! bounds) are kept as raw IEEE-754 single-precision bit patterns in `u32`
//! fields; nothing in this crate reinterprets them as native floats.
//!
//! Each `spec_*` function here states, over the byte sequence, exactly what
//! the corresponding decoder returns.

use vstd::prelude::*;

use crate::bytes::{spec_le_i16, spec_le_i32, spec_le_u16, spec_le_u32};
use crate::error::Error;

verus! {

/// Byte size of a plane record.
pub const PLANE_SIZE: usize = 20;

/// Byte size of a branch (internal node) record.
pub const BRANCH_SIZE: usize = 24;

/// Byte size of a leaf record.
pub const LEAF_SIZE: usize = 28;

/// Byte size of a face record.
pub const FACE_SIZE: usize = 24;

/// Byte size of an edge record.
pub const EDGE_SIZE: usize = 4;

/// Byte size of a model record.
pub const MODEL_SIZE: usize = 64;

/// Byte size of a vertex record (three single-precision scalars).
pub const VERTEX_SIZE: usize = 12;

/// Byte size of a face-indirection record.
pub const FACE_REF_SIZE: usize = 2;

/// Byte size of an edge-indirection record.
pub const EDGE_REF_SIZE: usize = 2;

/// A three-component vector.
#[derive(Clone, Copy, Debug, PartialEq, Eq, Structural)]
pub struct Vec3<T> {
    pub x: T,
    pub y: T,
    pub z: T,
}

/// An axis-aligned box between two corner points.
#[derive(Clone, Copy, Debug, PartialEq, Eq, Structural)]
pub struct BoundingBox<T> {
    pub aa: T,
    pub bb: T,
}

/// Integer bounding box carried by branches and leaves.
pub type Bounds = BoundingBox<Vec3<i16>>;

/// Ambient sound levels of a leaf.
#[derive(Clone, Copy, Debug, PartialEq, Eq, Structural)]
pub struct Sounds {
    pub water: u8,
    pub sky: u8,
    pub slime: u8,
    pub lava: u8,
}

/// Which half-space of its plane a face borders.
#[derive(Clone, Copy, Debug, PartialEq, Eq, Structural)]
pub enum Side {
    Back,
    Front,
}

/// The six recognised plane categories; any other raw value is rejected.
#[derive(Clone, Copy, Debug, PartialEq, Eq, Structural)]
pub enum PlaneType {
    AxialX,
    AxialY,
    AxialZ,
    NonAxialX,
    NonAxialY,
    NonAxialZ,
}

/// The six recognised leaf categories; any other raw value is rejected.
/// `Invalid` leaves exist in the file but are never surfaced by the tree
/// navigator.
#[derive(Clone, Copy, Debug, PartialEq, Eq, Structural)]
pub enum LeafType {
    Ordinary,
    Invalid,
    Water,
    Slime,
    Lava,
    Sky,
}

/// A splitting plane. `normal` and `distance` hold IEEE-754 single
/// bit patterns.
#[derive(Clone, Copy, Debug, PartialEq, Eq, Structural)]
pub struct Plane {
    pub normal: Vec3<u32>,
    pub distance: u32,
    pub plane_type: PlaneType,
}

/// An internal node of the BSP tree. `front_id` and `back_id` are signed
/// node ids: non-negative for a branch index, negative for a leaf id.
#[derive(Clone, Copy, Debug, PartialEq, Eq, Structural)]
pub struct Branch {
    pub plane_id: i32,
    pub front_id: i16,
    pub back_id: i16,
    pub bounds: Bounds,
    pub face_id: u16,
    pub face_len: u16,
}

/// A terminal convex region of the tree.
#[derive(Clone, Copy, Debug, PartialEq, Eq, Structural)]
pub struct Leaf {
    pub leaf_type: LeafType,
    pub vis_index: i32,
    pub bounds: Bounds,
    pub face_index_id: u16,
    pub face_index_len: u16,
    pub sounds: Sounds,
}

/// A surface bordering a plane, with its edge range and lighting fields.
#[derive(Clone, Copy, Debug, PartialEq, Eq, Structural)]
pub struct Face {
    pub plane_id: u16,
    pub side: u16,
    pub ledge_id: u32,
    pub ledge_len: u32,
    pub texinfo_id: u16,
    pub typelight: u8,
    pub baselight: u8,
    pub light0: u8,
    pub light1: u8,
    pub lightmap: i32,
}

/// An edge, resolved to its two endpoints; the components hold IEEE-754
/// single bit patterns.
#[derive(Clone, Copy, Debug, PartialEq, Eq, Structural)]
pub struct Edge {
    pub start: Vec3<u32>,
    pub end: Vec3<u32>,
}

/// The four alternate BSP roots of a model; hull 0 is the primary one.
#[derive(Clone, Copy, Debug, PartialEq, Eq, Structural)]
pub struct Hulls {
    pub hull0: i32,
    pub hull1: i32,
    pub hull2: i32,
    pub hull3: i32,
}

/// A self-contained BSP subtree with bounding geometry. `bound` and
/// `origin` hold IEEE-754 single bit patterns; `hulls` are signed root
/// node ids.
#[derive(Clone, Copy, Debug, PartialEq, Eq, Structural)]
pub struct Model {
    pub bound: BoundingBox<Vec3<u32>>,
    pub origin: Vec3<u32>,
    pub hulls: Hulls,
    pub numleafs: i32,
    pub face_id: i32,
    pub face_len: i32,
}

/// Typed index into the face-indirection lump.
#[derive(Clone, Copy, Debug, PartialEq, Eq, Structural)]
pub struct FaceRef(pub u16);

/// Typed index into the edge-indirection lump.
#[derive(Clone, Copy, Debug, PartialEq, Eq, Structural)]
pub struct EdgeRef(pub i16);

/// A resolved node: either an internal branch or a leaf.
#[derive(Clone, Copy, Debug, PartialEq, Eq, Structural)]
pub enum Node {
    Branch(Branch),
    Leaf(Leaf),
}

impl Node {
    /// The branch inside, if this node is one.
    pub fn branch(self) -> (r: Option<Branch>)
        ensures
            r == (match self {
                Node::Branch(inner) => Some(inner),
                Node::Leaf(_) => None::<Branch>,
            }),
    {
        match self {
            Node::Branch(inner) => Some(inner),
            Node::Leaf(_) => None,
        }
    }

    /// The leaf inside, if this node is one.
    pub fn leaf(self) -> (r: Option<Leaf>)
        ensures
            r == (match self {
                Node::Branch(_) => None::<Leaf>,
                Node::Leaf(inner) => Some(inner),
            }),
    {
        match self {
            Node::Branch(_) => None,
            Node::Leaf(inner) => Some(inner),
        }
    }
}

/// The plane category encoded by `raw`, if it is one of the six.
pub open spec fn spec_plane_type(raw: i32) -> Option<PlaneType> {
    if raw == 0 {
        Some(PlaneType::AxialX)
    } else if raw == 1 {
        Some(PlaneType::AxialY)
    } else if raw == 2 {
        Some(PlaneType::AxialZ)
    } else if raw == 3 {
        Some(PlaneType::NonAxialX)
    } else if raw == 4 {
        Some(PlaneType::NonAxialY)
    } else if raw == 5 {
        Some(PlaneType::NonAxialZ)
    } else {
        None
    }
}

/// The leaf category encoded by `raw`, if it is one of the six.
pub open spec fn spec_leaf_type(raw: i32) -> Option<LeafType> {
    if raw == -1 {
        Some(LeafType::Ordinary)
    } else if raw == -2 {
        Some(LeafType::Invalid)
    } else if raw == -3 {
        Some(LeafType::Water)
    } else if raw == -4 {
        Some(LeafType::Slime)
    } else if raw == -5 {
        Some(LeafType::Lava)
    } else if raw == -6 {
        Some(LeafType::Sky)
    } else {
        None
    }
}

/// Checked conversion of a raw plane-type value.
pub fn plane_type_of(raw: i32) -> (r: Result<PlaneType, Error>)
    ensures
        r == (match spec_plane_type(raw) {
            Some(t) => Ok::<PlaneType, Error>(t),
            None => Err::<PlaneType, Error>(Error::InvalidEnumValue(raw)),
        }),
{
    if raw == 0 {
        Ok(PlaneType::AxialX)
    } else if raw == 1 {
        Ok(PlaneType::AxialY)
    } else if raw == 2 {
        Ok(PlaneType::AxialZ)
    } else if raw == 3 {
        Ok(PlaneType::NonAxialX)
    } else if raw == 4 {
        Ok(PlaneType::NonAxialY)
    } else if raw == 5 {
        Ok(PlaneType::NonAxialZ)
    } else {
        Err(Error::InvalidEnumValue(raw))
    }
}

/// Checked conversion of a raw leaf-type value.
pub fn leaf_type_of(raw: i32) -> (r: Result<LeafType, Error>)
    ensures
        r == (match spec_leaf_type(raw) {
            Some(t) => Ok::<LeafType, Error>(t),
            None => Err::<LeafType, Error>(Error::InvalidEnumValue(raw)),
        }),
{
    if raw == -1 {
        Ok(LeafType::Ordinary)
    } else if raw == -2 {
        Ok(LeafType::Invalid)
    } else if raw == -3 {
        Ok(LeafType::Water)
    } else if raw == -4 {
        Ok(LeafType::Slime)
    } else if raw == -5 {
        Ok(LeafType::Lava)
    } else if raw == -6 {
        Ok(LeafType::Sky)
    } else {
        Err(Error::InvalidEnumValue(raw))
    }
}

/// Three single-precision bit patterns at `off`.
pub open spec fn spec_vec3_bits(b: Seq<u8>, off: int) -> Vec3<u32> {
    Vec3 { x: spec_le_u32(b, off), y: spec_le_u32(b, off + 4), z: spec_le_u32(b, off + 8) }
}

/// Three 16-bit signed components at `off`.
pub open spec fn spec_vec3_short(b: Seq<u8>, off: int) -> Vec3<i16> {
    Vec3 { x: spec_le_i16(b, off), y: spec_le_i16(b, off + 2), z: spec_le_i16(b, off + 4) }
}

/// Integer bounding box at `off`.
pub open spec fn spec_bounds_short(b: Seq<u8>, off: int) -> Bounds {
    BoundingBox { aa: spec_vec3_short(b, off), bb: spec_vec3_short(b, off + 6) }
}

/// Single-precision bounding box at `off`.
pub open spec fn spec_bounds_bits(b: Seq<u8>, off: int) -> BoundingBox<Vec3<u32>> {
    BoundingBox { aa: spec_vec3_bits(b, off), bb: spec_vec3_bits(b, off + 12) }
}

/// The plane record at `off`, or the enum value it was rejected for.
pub open spec fn spec_plane(b: Seq<u8>, off: int) -> Result<Plane, Error> {
    match spec_plane_type(spec_le_i32(b, off + 16)) {
        Some(t) => Ok(
            Plane {
                normal: spec_vec3_bits(b, off),
                distance: spec_le_u32(b, off + 12),
                plane_type: t,
            },
        ),
        None => Err(Error::InvalidEnumValue(spec_le_i32(b, off + 16))),
    }
}

/// The branch record at `off`.
pub open spec fn spec_branch(b: Seq<u8>, off: int) -> Branch {
    Branch {
        plane_id: spec_le_i32(b, off),
        front_id: spec_le_i16(b, off + 4),
        back_id: spec_le_i16(b, off + 6),
        bounds: spec_bounds_short(b, off + 8),
        face_id: spec_le_u16(b, off + 20),
        face_len: spec_le_u16(b, off + 22),
    }
}

/// The leaf record at `off`, or the enum value it was rejected for.
pub open spec fn spec_leaf(b: Seq<u8>, off: int) -> Result<Leaf, Error> {
    match spec_leaf_type(spec_le_i32(b, off)) {
        Some(t) => Ok(
            Leaf {
                leaf_type: t,
                vis_index: spec_le_i32(b, off + 4),
                bounds: spec_bounds_short(b, off + 8),
                face_index_id: spec_le_u16(b, off + 20),
                face_index_len: spec_le_u16(b, off + 22),
                sounds: Sounds {
                    water: b[off + 24],
                    sky: b[off + 25],
                    slime: b[off + 26],
                    lava: b[off + 27],
                },
            },
        ),
        None => Err(Error::InvalidEnumValue(spec_le_i32(b, off))),
    }
}

/// The face record at `off`.
pub open spec fn spec_face(b: Seq<u8>, off: int) -> Face {
    Face {
        plane_id: spec_le_u16(b, off),
        side: spec_le_u16(b, off + 2),
        ledge_id: spec_le_u32(b, off + 4),
        ledge_len: spec_le_u32(b, off + 8),
        texinfo_id: spec_le_u16(b, off + 12),
        typelight: b[off + 14],
        baselight: b[off + 15],
        light0: b[off + 16],
        light1: b[off + 17],
        lightmap: spec_le_i32(b, off + 20),
    }
}

/// The model record at `off`.
pub open spec fn spec_model(b: Seq<u8>, off: int) -> Model {
    Model {
        bound: spec_bounds_bits(b, off),
        origin: spec_vec3_bits(b, off + 24),
        hulls: Hulls {
            hull0: spec_le_i32(b, off + 36),
            hull1: spec_le_i32(b, off + 40),
            hull2: spec_le_i32(b, off + 44),
            hull3: spec_le_i32(b, off + 48),
        },
        numleafs: spec_le_i32(b, off + 52),
        face_id: spec_le_i32(b, off + 56),
        face_len: spec_le_i32(b, off + 60),
    }
}

impl Branch {
    /// The bounding box of the space below this branch.
    pub fn bounds(&self) -> (r: Bounds)
        ensures
            r == self.bounds,
    {
        self.bounds
    }
}

impl Leaf {
    /// The semantic category of this leaf.
    pub fn leaf_type(&self) -> (r: LeafType)
        ensures
            r == self.leaf_type,
    {
        self.leaf_type
    }

    /// Whether this leaf is a format artifact that stands for no space.
    pub fn is_invalid(&self) -> (r: bool)
        ensures
            r == (self.leaf_type is Invalid),
    {
        match self.leaf_type {
            LeafType::Invalid => true,
            _ => false,
        }
    }

    /// The bounding box of this leaf.
    pub fn bounds(&self) -> (r: Bounds)
        ensures
            r == self.bounds,
    {
        self.bounds
    }
}

impl Face {
    /// Which side of its plane the face borders: `Front` when the side
    /// flag is zero, `Back` otherwise.
    pub fn side(&self) -> (r: Side)
        ensures
            r == (if self.side == 0 {
                Side::Front
            } else {
                Side::Back
            }),
    {
        if self.side == 0 {
            Side::Front
        } else {
            Side::Back
        }
    }
}

impl Edge {
    /// First endpoint, as single-precision bit patterns.
    pub fn start(&self) -> (r: Vec3<u32>)
        ensures
            r == self.start,
    {
        self.start
    }

    /// Second endpoint, as single-precision bit patterns.
    pub fn end(&self) -> (r: Vec3<u32>)
        ensures
            r == self.end,
    {
        self.end
    }
}

} // verus!
