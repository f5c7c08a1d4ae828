//! Player-behavior core of a side-scrolling action prototype.
//!
//! A per-tick engine that turns discrete input edges and animation-completion
//! events into a stack of active player states, derives physics impulses from
//! that stack, integrates gravity and single-ground collision, and selects the
//! animation clip for the current state.  All quantities are integers: spatial
//! units for positions, units per second for velocities, units per second
//! squared for accelerations, and milliseconds for time deltas.

pub mod animation;
pub mod input;
pub mod laws;
pub mod player;
pub mod physics;
pub mod state;

use vstd::prelude::*;

verus! {

/// Horizontal speed, in units per second, of a walking player.
pub const WALK_SPEED: i64 = 64;

/// Vertical impulse, in units per second, applied when a jump starts.
pub const JUMP_SPEED: i64 = 64;

/// Downward acceleration, in units per second squared, while airborne.
pub const GRAVITY: i64 = -981;

/// Number of attack clip variants; the combo counter wraps at this value.
pub const COMBO_VARIANTS: u8 = 3;

} // verus!
