//! Collision layers: which colliders a body's casts may find.
use vstd::prelude::*;

verus! {

/// The layers a collider can belong to.
#[derive(Clone, Copy, Debug, PartialEq, Eq, Structural)]
pub enum GameLayer {
    Default,
    Player,
    LevelGeometry,
}

/// The bit of each layer in a layer mask.
pub open spec fn layer_bit(layer: GameLayer) -> u32 {
    match layer {
        GameLayer::Default => 1,
        GameLayer::Player => 2,
        GameLayer::LevelGeometry => 4,
    }
}

impl GameLayer {
    /// The layer's bit in a layer mask.
    pub fn to_bits(&self) -> (r: u32)
        ensures
            r == layer_bit(*self),
    {
        match self {
            GameLayer::Default => 1,
            GameLayer::Player => 2,
            GameLayer::LevelGeometry => 4,
        }
    }
}

/// Whether a cast filtered by `mask` sees colliders of `layer`.
pub fn filter_admits(mask: u32, layer: GameLayer) -> (r: bool)
    ensures
        r == (mask & layer_bit(layer) != 0),
{
    mask & layer.to_bits() != 0
}

} // verus!
