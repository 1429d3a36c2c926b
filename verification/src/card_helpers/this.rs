//! Delegates which listen to events about their own card.

use vstd::prelude::*;

use crate::card_definition::{Delegate, EventDelegate, HasCardId, Mutation, Requirement, Scope};
use crate::game_state::GameState;

verus! {

/// A requirement which restricts delegates to only listen to events for their
/// own card.
pub fn card<T: HasCardId>(_game: &GameState, scope: Scope, card_id: &T) -> (r: bool)
    ensures
        r == (scope.spec_card_id() == card_id.spec_card_id()),
{
    scope.card_id() == card_id.card_id()
}

/// A delegate which triggers when its own card is played
pub fn on_play(mutation: Mutation) -> (r: Delegate)
    ensures
        r == Delegate::PlayCard(EventDelegate { requirement: Requirement::ThisCard, mutation }),
{
    Delegate::PlayCard(EventDelegate { requirement: Requirement::ThisCard, mutation })
}

} // verus!
