//! Format policies for the supported map variants.
//!
//! A policy fixes the header shape (whether a 4-byte magic precedes the
//! version field), the order and number of lump-table entries, and which
//! raw version numbers it accepts. It is chosen once, at construction of a
//! [`crate::bsp::Bsp`], and never changes.

use vstd::prelude::*;

verus! {

/// The closed set of map-format variants.
///
/// `Quake1` accepts versions up to `0x1d`, `Goldsrc` exactly `0x1e` (with
/// the Quake1 lump layout), and `Quake2` versions above `0x1e` up to
/// `0x26` (with a 4-byte magic and its own lump layout).
#[derive(Clone, Copy, Debug, PartialEq, Eq, Structural)]
pub enum MapVersion {
    Quake1,
    Goldsrc,
    Quake2,
}

/// Names of the lumps a header's table can describe, across all layouts.
#[derive(Clone, Copy, Debug, PartialEq, Eq, Structural)]
pub enum LumpId {
    Entities,
    Planes,
    Miptex,
    Vertices,
    Vislist,
    Nodes,
    Texinfo,
    Faces,
    Lightmaps,
    Clipnodes,
    Leaves,
    LFaces,
    LBrush,
    Edges,
    LEdges,
    Models,
    Brushes,
    BrushSides,
    Pop,
    Areas,
    AreaPortals,
}

impl MapVersion {
    /// Whether this policy may parse a file with the given version field.
    pub open spec fn spec_accepts(self, version: u32) -> bool {
        match self {
            MapVersion::Quake1 => version <= 0x1d,
            MapVersion::Goldsrc => version == 0x1e,
            MapVersion::Quake2 => 0x1e < version <= 0x26,
        }
    }

    /// Acceptance predicate over the raw version field.
    pub fn accepts_version(&self, version: u32) -> (r: bool)
        ensures
            r == self.spec_accepts(version),
    {
        match self {
            MapVersion::Quake1 => version <= 0x1d,
            MapVersion::Goldsrc => version == 0x1e,
            MapVersion::Quake2 => 0x1e < version && version <= 0x26,
        }
    }
}

/// Number of entries in the lump table of this layout.
pub open spec fn spec_lump_count(v: MapVersion) -> int {
    match v {
        MapVersion::Quake1 => 15,
        MapVersion::Goldsrc => 15,
        MapVersion::Quake2 => 19,
    }
}

/// Byte offset of the version field: a 4-byte magic precedes it in Quake2.
pub open spec fn spec_version_off(v: MapVersion) -> int {
    match v {
        MapVersion::Quake1 => 0,
        MapVersion::Goldsrc => 0,
        MapVersion::Quake2 => 4,
    }
}

/// Total header size: magic (if any), version, and the lump table.
pub open spec fn spec_header_size(v: MapVersion) -> int {
    spec_version_off(v) + 4 + 8 * spec_lump_count(v)
}

/// The lump described by table slot `slot` of this layout.
pub open spec fn spec_lump_of(v: MapVersion, slot: int) -> LumpId {
    match v {
        MapVersion::Quake2 => spec_lump_of_quake2(slot),
        _ => spec_lump_of_quake1(slot),
    }
}

pub open spec fn spec_lump_of_quake1(slot: int) -> LumpId {
    if slot == 0 {
        LumpId::Entities
    } else if slot == 1 {
        LumpId::Planes
    } else if slot == 2 {
        LumpId::Miptex
    } else if slot == 3 {
        LumpId::Vertices
    } else if slot == 4 {
        LumpId::Vislist
    } else if slot == 5 {
        LumpId::Nodes
    } else if slot == 6 {
        LumpId::Texinfo
    } else if slot == 7 {
        LumpId::Faces
    } else if slot == 8 {
        LumpId::Lightmaps
    } else if slot == 9 {
        LumpId::Clipnodes
    } else if slot == 10 {
        LumpId::Leaves
    } else if slot == 11 {
        LumpId::LFaces
    } else if slot == 12 {
        LumpId::Edges
    } else if slot == 13 {
        LumpId::LEdges
    } else {
        LumpId::Models
    }
}

pub open spec fn spec_lump_of_quake2(slot: int) -> LumpId {
    if slot == 0 {
        LumpId::Entities
    } else if slot == 1 {
        LumpId::Planes
    } else if slot == 2 {
        LumpId::Vertices
    } else if slot == 3 {
        LumpId::Vislist
    } else if slot == 4 {
        LumpId::Nodes
    } else if slot == 5 {
        LumpId::Texinfo
    } else if slot == 6 {
        LumpId::Faces
    } else if slot == 7 {
        LumpId::Lightmaps
    } else if slot == 8 {
        LumpId::Leaves
    } else if slot == 9 {
        LumpId::LFaces
    } else if slot == 10 {
        LumpId::LBrush
    } else if slot == 11 {
        LumpId::Edges
    } else if slot == 12 {
        LumpId::LEdges
    } else if slot == 13 {
        LumpId::Models
    } else if slot == 14 {
        LumpId::Brushes
    } else if slot == 15 {
        LumpId::BrushSides
    } else if slot == 16 {
        LumpId::Pop
    } else if slot == 17 {
        LumpId::Areas
    } else {
        LumpId::AreaPortals
    }
}

/// Table slot of lump `id` in this layout, or `-1` when the layout has no
/// such lump.
pub open spec fn spec_slot_of(v: MapVersion, id: LumpId) -> int {
    match v {
        MapVersion::Quake2 => spec_slot_of_quake2(id),
        _ => spec_slot_of_quake1(id),
    }
}

pub open spec fn spec_slot_of_quake1(id: LumpId) -> int {
    match id {
        LumpId::Entities => 0,
        LumpId::Planes => 1,
        LumpId::Miptex => 2,
        LumpId::Vertices => 3,
        LumpId::Vislist => 4,
        LumpId::Nodes => 5,
        LumpId::Texinfo => 6,
        LumpId::Faces => 7,
        LumpId::Lightmaps => 8,
        LumpId::Clipnodes => 9,
        LumpId::Leaves => 10,
        LumpId::LFaces => 11,
        LumpId::Edges => 12,
        LumpId::LEdges => 13,
        LumpId::Models => 14,
        _ => -1,
    }
}

pub open spec fn spec_slot_of_quake2(id: LumpId) -> int {
    match id {
        LumpId::Entities => 0,
        LumpId::Planes => 1,
        LumpId::Vertices => 2,
        LumpId::Vislist => 3,
        LumpId::Nodes => 4,
        LumpId::Texinfo => 5,
        LumpId::Faces => 6,
        LumpId::Lightmaps => 7,
        LumpId::Leaves => 8,
        LumpId::LFaces => 9,
        LumpId::LBrush => 10,
        LumpId::Edges => 11,
        LumpId::LEdges => 12,
        LumpId::Models => 13,
        LumpId::Brushes => 14,
        LumpId::BrushSides => 15,
        LumpId::Pop => 16,
        LumpId::Areas => 17,
        LumpId::AreaPortals => 18,
        _ => -1,
    }
}

/// Exec counterpart of [`spec_lump_count`].
pub fn lump_count(v: MapVersion) -> (n: usize)
    ensures
        n == spec_lump_count(v),
{
    match v {
        MapVersion::Quake1 => 15,
        MapVersion::Goldsrc => 15,
        MapVersion::Quake2 => 19,
    }
}

/// Exec counterpart of [`spec_version_off`].
pub fn version_off(v: MapVersion) -> (n: usize)
    ensures
        n == spec_version_off(v),
{
    match v {
        MapVersion::Quake1 => 0,
        MapVersion::Goldsrc => 0,
        MapVersion::Quake2 => 4,
    }
}

/// Exec counterpart of [`spec_header_size`].
pub fn header_size(v: MapVersion) -> (n: usize)
    ensures
        n == spec_header_size(v),
{
    version_off(v) + 4 + 8 * lump_count(v)
}

/// Exec counterpart of [`spec_lump_of`].
pub fn lump_of(v: MapVersion, slot: usize) -> (id: LumpId)
    ensures
        id == spec_lump_of(v, slot as int),
{
    match v {
        MapVersion::Quake2 => {
            if slot == 0 {
                LumpId::Entities
            } else if slot == 1 {
                LumpId::Planes
            } else if slot == 2 {
                LumpId::Vertices
            } else if slot == 3 {
                LumpId::Vislist
            } else if slot == 4 {
                LumpId::Nodes
            } else if slot == 5 {
                LumpId::Texinfo
            } else if slot == 6 {
                LumpId::Faces
            } else if slot == 7 {
                LumpId::Lightmaps
            } else if slot == 8 {
                LumpId::Leaves
            } else if slot == 9 {
                LumpId::LFaces
            } else if slot == 10 {
                LumpId::LBrush
            } else if slot == 11 {
                LumpId::Edges
            } else if slot == 12 {
                LumpId::LEdges
            } else if slot == 13 {
                LumpId::Models
            } else if slot == 14 {
                LumpId::Brushes
            } else if slot == 15 {
                LumpId::BrushSides
            } else if slot == 16 {
                LumpId::Pop
            } else if slot == 17 {
                LumpId::Areas
            } else {
                LumpId::AreaPortals
            }
        },
        _ => {
            if slot == 0 {
                LumpId::Entities
            } else if slot == 1 {
                LumpId::Planes
            } else if slot == 2 {
                LumpId::Miptex
            } else if slot == 3 {
                LumpId::Vertices
            } else if slot == 4 {
                LumpId::Vislist
            } else if slot == 5 {
                LumpId::Nodes
            } else if slot == 6 {
                LumpId::Texinfo
            } else if slot == 7 {
                LumpId::Faces
            } else if slot == 8 {
                LumpId::Lightmaps
            } else if slot == 9 {
                LumpId::Clipnodes
            } else if slot == 10 {
                LumpId::Leaves
            } else if slot == 11 {
                LumpId::LFaces
            } else if slot == 12 {
                LumpId::Edges
            } else if slot == 13 {
                LumpId::LEdges
            } else {
                LumpId::Models
            }
        },
    }
}

/// Exec counterpart of [`spec_slot_of`], for lumps present in the layout.
pub fn slot_of(v: MapVersion, id: LumpId) -> (slot: usize)
    requires
        spec_slot_of(v, id) >= 0,
    ensures
        slot == spec_slot_of(v, id),
{
    match v {
        MapVersion::Quake2 => {
            match id {
                LumpId::Entities => 0,
                LumpId::Planes => 1,
                LumpId::Vertices => 2,
                LumpId::Vislist => 3,
                LumpId::Nodes => 4,
                LumpId::Texinfo => 5,
                LumpId::Faces => 6,
                LumpId::Lightmaps => 7,
                LumpId::Leaves => 8,
                LumpId::LFaces => 9,
                LumpId::LBrush => 10,
                LumpId::Edges => 11,
                LumpId::LEdges => 12,
                LumpId::Models => 13,
                LumpId::Brushes => 14,
                LumpId::BrushSides => 15,
                LumpId::Pop => 16,
                LumpId::Areas => 17,
                LumpId::AreaPortals => 18,
                _ => 0,
            }
        },
        _ => {
            match id {
                LumpId::Entities => 0,
                LumpId::Planes => 1,
                LumpId::Miptex => 2,
                LumpId::Vertices => 3,
                LumpId::Vislist => 4,
                LumpId::Nodes => 5,
                LumpId::Texinfo => 6,
                LumpId::Faces => 7,
                LumpId::Lightmaps => 8,
                LumpId::Clipnodes => 9,
                LumpId::Leaves => 10,
                LumpId::LFaces => 11,
                LumpId::Edges => 12,
                LumpId::LEdges => 13,
                LumpId::Models => 14,
                _ => 0,
            }
        },
    }
}

} // verus!
