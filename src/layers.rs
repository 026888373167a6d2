//! Drawing order of the scene's layers.

use vstd::prelude::*;

verus! {

/// Depth of each layer of the scene, in tenths; higher layers draw on top.
pub struct Layer;

impl Layer {
    pub const BG_DECORATIONS: u32 = 0;
    pub const FISHING_ROD: u32 = 5;
    pub const BOAT: u32 = 10;
    pub const WATER: u32 = 20;
    pub const FISH: u32 = 30;
    pub const HOOK: u32 = 40;
}

} // verus!
