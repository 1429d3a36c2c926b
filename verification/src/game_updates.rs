//! Records of game changes which the client animates.

use vstd::prelude::*;

use crate::game_state::GameState;
use crate::primitives::{AbilityId, CardId, GameObjectId, RoomId, Side};

verus! {

/// Indicates one game object targeted another with an effect.
///
/// Typically represented in animation as a projectile being fired.
#[derive(Debug, Clone, Copy, PartialEq, Eq, Structural)]
pub struct TargetedInteraction {
    pub source: GameObjectId,
    pub target: GameObjectId,
}

/// Identifies whether some game update was caused by a player taking an
/// explicit game action such as the 'initiate raid' action, or by a card
/// effect.
#[derive(Debug, Clone, Copy, PartialEq, Eq, Structural)]
pub enum InitiatedBy {
    GameAction,
    Card,
}

/// A visual effect played on a game object.
#[derive(Debug, Clone, Copy, PartialEq, Eq, Structural)]
pub enum TimedEffect {
    MagicCircles1(u32),
}

/// A request to play a visual or audio effect.
#[derive(Debug, Clone, Copy, PartialEq, Eq, Structural)]
pub enum SpecialEffect {
    TimedEffect { target: GameObjectId, effect: TimedEffect },
}

/// Represents a change to the state of the game which should be translated
/// into a client animation
#[derive(Debug, Clone)]
pub enum GameUpdate {
    /// Indicates that a player's turn has started
    StartTurn(Side),
    /// A player has played a card face-up.
    PlayCard(Side, CardId),
    /// A request to play one or more visual or audio effects
    CustomEffects(Vec<SpecialEffect>),
    /// A player has activated an ability of a card
    AbilityActivated(Side, AbilityId),
    /// An ability of a card has triggered an effect
    AbilityTriggered(AbilityId, Vec<SpecialEffect>),
    /// One or more cards have been drawn by the [Side] player.
    DrawCards(Side, Vec<CardId>),
    /// A player has shuffled cards into their deck
    ShuffleIntoDeck,
    /// A card has been turned face-up via the unveil mechanic
    UnveilCard(CardId),
    /// A minion card has been turned face-up.
    SummonMinion(CardId),
    /// The Overlord has leveled up a room
    LevelUpRoom(RoomId, InitiatedBy),
    /// The Champion has initiated a raid on a room
    InitiateRaid(RoomId, InitiatedBy),
    /// Interaction between two cards during raid combat.
    CombatInteraction(TargetedInteraction),
    /// A player has scored a card
    ScoreCard(Side, CardId),
    /// The game has ended and the indicated player has won
    GameOver(Side),
    /// Card selection browser has completed
    BrowserSubmitted,
    /// Show a 'play card' browser to play one of the indicated cards.
    ShowPlayCardBrowser(Vec<CardId>),
}

/// A step in the animation process
#[derive(Debug)]
pub struct UpdateStep {
    pub snapshot: GameState,
    pub update: GameUpdate,
}

/// Standard enum used by APIs to configure their update tracking behavior.
#[derive(Debug, Clone, Copy, PartialEq, Eq, Structural)]
pub enum UpdateState {
    /// Game updates should not be tracked by the receiver
    Ignore,
    /// Game updates should be tracked by the receiver
    Push,
}

/// Tracks game mutations for a game action: each step holds a snapshot of the
/// game taken before the update, and the update itself.
#[derive(Debug)]
pub struct UpdateTracker {
    /// Used to globally disable or enable update tracking
    pub state: UpdateState,
    /// List of update steps with snapshots of the game state
    pub steps: Vec<UpdateStep>,
}

impl Default for UpdateTracker {
    fn default() -> (r: UpdateTracker)
        ensures
            r.state == UpdateState::Ignore,
            r.steps@.len() == 0,
    {
        UpdateTracker { state: UpdateState::Ignore, steps: Vec::new() }
    }
}

impl UpdateTracker {
    pub fn new(updates: UpdateState) -> (r: UpdateTracker)
        ensures
            r.state == updates,
            r.steps@.len() == 0,
    {
        UpdateTracker { state: updates, steps: Vec::new() }
    }
}

} // verus!
