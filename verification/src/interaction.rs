//! What players do with their hands.

use vstd::prelude::*;

verus! {

/// What interacting with an entity or a block came to.
#[derive(Clone, Copy, Debug, PartialEq, Eq, Structural)]
pub enum InteractionResult {
    Success,
    Pass,
}

/// One of the two hands of a player.
#[derive(Clone, Copy, Debug, PartialEq, Eq, Structural)]
pub enum InteractionHand {
    MainHand,
    OffHand,
}

} // verus!
