//! The layers a ship part can be built in, and the orders in which the
//! layers are built and drawn.

use vstd::prelude::*;

verus! {

/// A layer of a ship's part grid. Each cell can hold one part per layer.
#[derive(Debug, Clone, Copy, PartialEq, Eq, Structural, Hash)]
pub enum PartLayer {
    Internal,
    Plumbing,
    Structure,
    Exterior,
}

/// The depth at which a layer is drawn; lower is drawn first.
pub open spec fn layer_z(l: PartLayer) -> nat {
    match l {
        PartLayer::Internal => 0,
        PartLayer::Plumbing => 1,
        PartLayer::Structure => 2,
        PartLayer::Exterior => 3,
    }
}

impl PartLayer {
    /// Every layer, in declaration order.
    pub fn all() -> (r: [PartLayer; 4])
        ensures
            r@ == seq![PartLayer::Internal, PartLayer::Plumbing, PartLayer::Structure, PartLayer::Exterior],
    {
        [PartLayer::Internal, PartLayer::Plumbing, PartLayer::Structure, PartLayer::Exterior]
    }

    /// The layers in which parts can be built, in the order of building:
    /// structure first, then internal parts, then exterior parts.
    pub fn build_order() -> (r: [PartLayer; 3])
        ensures
            r@ == seq![PartLayer::Structure, PartLayer::Internal, PartLayer::Exterior],
    {
        [PartLayer::Structure, PartLayer::Internal, PartLayer::Exterior]
    }

    /// The layers in the order in which they are drawn: by increasing depth.
    pub fn draw_order() -> (r: [PartLayer; 4])
        ensures
            r@ == seq![PartLayer::Internal, PartLayer::Plumbing, PartLayer::Structure, PartLayer::Exterior],
            forall|i: int| 0 <= i < 4 ==> layer_z(#[trigger] r@[i]) == i,
    {
        let r = [PartLayer::Internal, PartLayer::Plumbing, PartLayer::Structure, PartLayer::Exterior];
        assert(forall|i: int| 0 <= i < 4 ==> layer_z(#[trigger] r@[i]) == i) by {
            assert(r@[0] == PartLayer::Internal);
            assert(r@[1] == PartLayer::Plumbing);
            assert(r@[2] == PartLayer::Structure);
            assert(r@[3] == PartLayer::Exterior);
        }
        r
    }

    /// The drawing depth of this layer.
    pub fn to_z(self) -> (z: u32)
        ensures
            z == layer_z(self),
    {
        match self {
            PartLayer::Internal => 0,
            PartLayer::Plumbing => 1,
            PartLayer::Structure => 2,
            PartLayer::Exterior => 3,
        }
    }
}

/// Distinct layers are drawn at distinct depths.
pub proof fn lemma_layer_z_injective(a: PartLayer, b: PartLayer)
    ensures
        layer_z(a) == layer_z(b) <==> a == b,
{
}

} // verus!
