//! Limits of the game.

use vstd::prelude::*;

verus! {

/// The most weapons the Champion can have in play.
pub const MAXIMUM_WEAPONS_IN_PLAY: usize = 2;

/// The most artifacts the Champion can have in play.
pub const MAXIMUM_ARTIFACTS_IN_PLAY: usize = 4;

/// The most evocations the Champion can have in play.
pub const MAXIMUM_EVOCATIONS_IN_PLAY: usize = 3;

/// The most allies the Champion can have in play.
pub const MAXIMUM_ALLIES_IN_PLAY: usize = 2;

/// The most minions that can defend one room.
pub const MAXIMUM_MINIONS_IN_ROOM: usize = 4;

/// The most projects and schemes that can occupy one room.
pub const MAXIMUM_OCCUPANTS_IN_ROOM: usize = 1;

} // verus!
