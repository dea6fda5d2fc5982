//! Procedural ASCII bonsai-tree generation.
//!
//! The heart of the crate is a verified growth engine: a stochastic state
//! machine that walks branch tips across a terminal-sized grid, spawns child
//! branches, and records one styled draw event per surviving step.  Randomness
//! comes from a caller-supplied seeded generator; everything the engine does
//! with a drawn value is verified for every value the generator could return.

use vstd::prelude::*;

pub mod engine;
pub mod model;
pub mod random;
pub mod render;
pub mod utility;

verus! {

/// Generation parameters for one tree.
///
/// `life` is the starting life of the trunk (bigger trees for larger values),
/// `multiplier` scales shoot frequency and the dying threshold, `base` selects
/// the base-art graphic whose rows are reserved below the tree, `verbose`
/// requests a diagnostic overlay, and `live` asks the renderer to pace its
/// output so the tree appears to grow.
pub struct Config {
    pub live: bool,
    pub base: u8,
    pub multiplier: i32,
    pub life: i32,
    pub verbose: bool,
}

impl Config {
    /// A usable configuration: positive starting life and a positive
    /// multiplier small enough that `multiplier * 3` fits in an `i32`.
    pub open spec fn wf(self) -> bool {
        &&& self.life >= 1
        &&& 1 <= self.multiplier
        &&& self.multiplier <= i32::MAX / 3
    }
}

/// Number of terminal rows reserved below the tree for the base graphic.
pub fn base_offset(base: u8) -> (rows: u16)
    ensures
        rows == spec_base_offset(base),
{
    match base {
        1u8 => 5,
        2u8 => 4,
        _ => 0,
    }
}

/// Rows reserved for each base-art choice: the large pot, the small pot,
/// or no base at all.
pub open spec fn spec_base_offset(base: u8) -> u16 {
    if base == 1 {
        5
    } else if base == 2 {
        4
    } else {
        0
    }
}

} // verus!
