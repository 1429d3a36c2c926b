use vstd::prelude::*;

pub mod access;
pub mod adventure;
pub mod buttons;
pub mod card_definition;
pub mod card_helpers;
pub mod card_icons;
pub mod cards_beryl;
pub mod constants;
pub mod debug_server;
pub mod dispatch;
pub mod draws;
pub mod effects;
pub mod error;
pub mod flags;
pub mod game_actions;
pub mod game_state;
pub mod game_updates;
pub mod helpers;
pub mod minimax;
pub mod mutations;
pub mod play_card;
pub mod primitives;
pub mod queries;
pub mod raids;
pub mod selection;
pub mod tutorial;
pub mod weapons;

verus! {

} // verus!
