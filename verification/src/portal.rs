//! Debug portals: parts that create or destroy items.

use vstd::prelude::*;

verus! {

/// Whether a portal creates items or destroys them.
#[derive(Debug, Clone, Copy, PartialEq, Eq, Structural)]
pub enum PortalDirection {
    Source,
    Sink,
}

/// The prototype data of a debug portal part.
#[derive(Debug, Clone, Copy, PartialEq, Eq, Structural)]
pub struct DebugPortalPrototype {
    pub dir: PortalDirection,
}

} // verus!
