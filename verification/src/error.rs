//! The reasons for which a rules operation can refuse to proceed.

use vstd::prelude::*;

use crate::game_actions::CardTarget;
use crate::primitives::{ActionCount, CardId, ManaValue, PlayerId};

verus! {

/// Why a rules operation failed. Each variant names the check that refused it.
#[derive(Debug, Clone, Copy, PartialEq, Eq, Structural)]
pub enum GameError {
    /// A button prompt was expected, but the prompt is of another kind.
    ExpectedButtonPrompt,
    /// A room target was expected for a card, but this target was given.
    ExpectedRoomTarget(CardTarget),
    /// The operation needs an active raid and there is none.
    NoActiveRaid,
    /// The acting player is not the one whom the raid phase waits for.
    UnexpectedSide,
    /// The action is not among those that the raid phase offers.
    UnexpectedAction,
    /// A raid prompt action was given to a phase that does not accept it.
    ExpectedAccessPhaseAction,
    /// A scored card has no scheme points.
    MissingSchemePoints(CardId),
    /// A player cannot pay this much mana.
    InsufficientMana(ManaValue),
    /// A player cannot spend this many action points.
    InsufficientActionPoints(ActionCount),
    /// A score, a mana pool or a counter would exceed its numeric range.
    ValueOutOfRange,
    /// The minion that a raid should jump to is not defending a room.
    MinionNotFound(CardId),
    /// A card is already being played.
    PlayAlreadyInProgress,
    /// The card is not among those that the 'play card' browser offers.
    UnexpectedPromptCard(CardId),
    /// A card that must be paid for has no mana cost.
    MissingManaCost(CardId),
    /// A played card has no position to which it can move.
    NoValidPosition(CardId),
    /// The search produced no action to take.
    NoActionSelected,
    /// The raid cannot be initiated by this player on this room.
    CannotInitiateRaid,
    /// A draw was expected to be under way.
    NoActiveDraw,
    /// An ability answering the announcement of a draw tried to draw cards
    /// itself.
    DrawDuringDrawAnnouncement,
    /// The player takes no part in the game.
    PlayerNotInGame(PlayerId),
}

} // verus!
