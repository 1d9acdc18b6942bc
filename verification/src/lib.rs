//! Decoder for Quake-family BSP map files.
//!
//! A raw byte buffer is validated once at construction against a chosen
//! format policy; afterwards every record (plane, node, leaf, face, edge,
//! model) is decoded lazily through bounds-checked accessors, the BSP tree
//! can be walked to classify a point, and a leaf's potential-visibility
//! bitstream can be expanded into the sequence of leaves it can see.

mod bsp;
mod bytes;
mod error;
mod fp;
mod iter;
mod records;
mod traverse;
mod version;
mod vis;

pub use bsp::{Bsp, Entry, Header};
pub use error::Error;
pub use iter::ValueIter;
pub use records::{
    Bounds, BoundingBox, Branch, Edge, EdgeRef, Face, FaceRef, Hulls, Leaf, LeafType, Model, Node,
    Plane, PlaneType, Side, Sounds, Vec3,
};
pub use version::{LumpId, MapVersion};
pub use vis::VisibilityIterator;
