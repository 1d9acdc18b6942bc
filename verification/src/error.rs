//! Error taxonomy.
//!
//! Construction-time failures (`HeaderCorrupted`, `VersionMismatch`,
//! `EntryCorrupted`) reject a buffer before a view over it exists.
//! Per-access failures (`InvalidEnumValue`, `IndexOutOfRange`,
//! `VisDecodeOverrun`, `TraversalOverrun`) are returned by the accessor or
//! traversal that hit them, so a corrupt map never aborts a host
//! application mid-query.

use vstd::prelude::*;

use crate::version::LumpId;

verus! {

/// Everything that can go wrong while validating or reading a map.
#[derive(Clone, Copy, Debug, PartialEq, Eq, Structural)]
pub enum Error {
    /// The buffer is shorter than the chosen layout's header.
    HeaderCorrupted,
    /// The chosen policy rejects the observed version field.
    VersionMismatch(u32),
    /// The named lump's byte range escapes the buffer.
    EntryCorrupted(LumpId),
    /// A raw plane-type or leaf-type value outside the known categories.
    InvalidEnumValue(i32),
    /// A cross-referencing index points outside its target array.
    IndexOutOfRange,
    /// The visibility cursor ran past the vislist lump.
    VisDecodeOverrun,
    /// Tree descent exceeded the branch count, so the ids must cycle.
    TraversalOverrun,
}

} // verus!
