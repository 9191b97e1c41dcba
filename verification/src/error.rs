//! The failures that the core reports.

use vstd::prelude::*;

verus! {

/// What went wrong in an operation of the core.
#[derive(Clone, Copy, Debug, PartialEq, Eq, Structural)]
pub enum RadiantError {
    /// The operation named a node that the scene does not hold.
    NotFound,
    /// A shape description breaks what tessellation relies on.
    InvalidGeometry,
    /// A texture was used before it was registered.
    UnregisteredTexture,
    /// A buffer would have to grow past the device's limit.
    CapacityExhausted,
}

} // verus!
