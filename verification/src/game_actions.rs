//! User interface actions and the prompts which offer them.

use vstd::prelude::*;

use crate::error::GameError;
use crate::primitives::{
    AbilityId, ActionCount, CardId, CardSubtype, CardType, ManaValue, MulliganDecision, RoomId,
    Side,
};

verus! {

#[derive(Debug, Clone, Copy, PartialEq, Eq, Structural, Hash)]
pub enum SummonAction {
    /// Pay costs to summon the indicated minion during a raid, turning it
    /// face-up.
    SummonMinion(CardId),
    /// Do not pay the costs to summon a minion during a raid, and proceed to
    /// the next raid phase.
    DoNotSummmon,
}

#[derive(Debug, Clone, Copy, PartialEq, Eq, Structural, Hash)]
pub enum EncounterAction {
    /// Defeat the minion being encountered with a weapon (source_id, target_id)
    UseWeaponAbility(CardId, CardId),
    /// Do not use a weapon and apply minion combat effects
    NoWeapon,
    /// Custom card action, resolved and then treated equivalently to 'no
    /// weapon'
    CardAction(CardPromptAction),
}

#[derive(Debug, Clone, Copy, PartialEq, Eq, Structural, Hash)]
pub enum ApproachRoomAction {
    /// Continue to the room access phase.
    Proceed,
}

#[derive(Debug, Clone, Copy, PartialEq, Eq, Structural, Hash)]
pub enum RazeCardActionType {
    /// Raze a card in play
    Destroy,
    /// Raze a card in the sanctum or vault
    Discard,
}

#[derive(Debug, Clone, Copy, PartialEq, Eq, Structural, Hash)]
pub enum AccessPhaseAction {
    ScoreCard(CardId),
    RazeCard(CardId, RazeCardActionType, ManaValue),
    EndRaid,
}

#[derive(Debug, Clone, Copy, PartialEq, Eq, Structural, Hash)]
pub enum PromptContext {
    /// Prompt is being shown related to a specific card
    Card(CardId),
    /// Prompt is being show to discard cards due to exceeding the hand size
    /// limit, player must discard until they have the provided number of cards
    /// in hand.
    DiscardToHandSize(usize),
    /// Prompt is being shown to sacrifice minions due to exceeding the minion
    /// limit in a room, player must sacrifice until they have the provided
    /// number of minions in the room.
    MinionRoomLimit(usize),
    /// Prompt is being shown because playing a card would exceed the limit on
    /// cards of this type (and subtype) in play; the player must sacrifice one
    /// of them or stop playing the card.
    CardLimit(CardType, Option<CardSubtype>),
    /// Prompt to shuffle cards from the crypt into the vault.
    ShuffleIntoVault,
    /// Prompt to sacrifice a card to prevent curses.
    SacrificeToPreventCurses(CardId, u32),
}

/// A choice which can be made as part of an ability of an individual card
#[derive(Debug, Clone, Copy, PartialEq, Eq, Structural, Hash)]
pub enum CardPromptAction {
    /// Sacrifice the indicated permanent, moving it to its owner's discard
    /// pile.
    Sacrifice(CardId),
    /// A player loses mana
    LoseMana(Side, ManaValue),
    /// A player loses action points
    LoseActions(Side, ActionCount),
    /// End the current raid in failure.
    EndRaid,
    /// Deal damage to the Champion
    TakeDamage(AbilityId, u32),
    /// Deal damage and end the current raid
    TakeDamageEndRaid(AbilityId, u32),
    /// Stop playing the card whose play is being resolved.
    AbortPlayingCard,
    /// Sacrifice the card and prevent this many curses.
    SacrificeAndPreventCurses(CardId, u32),
    /// Go on without doing anything.
    Continue,
}

/// An action which can be taken in the user interface.
#[derive(Debug, Clone, Copy, PartialEq, Eq, Structural, Hash)]
pub enum PromptAction {
    /// Action to keep or mulligan opening hand
    MulliganDecision(MulliganDecision),
    /// Action for a player to end their turn.
    EndTurnAction,
    /// Action for a player to begin their next turn.
    StartTurnAction,
    /// Overlord action during a raid to decide whether to summon a defending
    /// minion.
    SummonAction(SummonAction),
    /// Champion action in response to a raid encounter
    EncounterAction(EncounterAction),
    ApproachRoomAction(ApproachRoomAction),
    /// Action to target & destroy an accessed card
    AccessPhaseAction(AccessPhaseAction),
    /// Action to take as part of a card ability
    CardAction(CardPromptAction),
}

/// Presents a choice to a user, typically communicated via a series of buttons
#[derive(Debug, Clone)]
pub struct ButtonPrompt {
    /// Identifies the context for this prompt, i.e. why it is being shown to
    /// the user
    pub context: Option<PromptContext>,
    /// Possible responses to this prompt
    pub responses: Vec<PromptAction>,
}

impl ButtonPrompt {
    /// A prompt offering each of `actions`, in order, as a card action.
    pub fn card_actions(actions: Vec<CardPromptAction>) -> (r: ButtonPrompt)
        ensures
            r.context is None,
            r.responses@ == actions@.map_values(|a: CardPromptAction| PromptAction::CardAction(a)),
    {
        let mut responses: Vec<PromptAction> = Vec::new();
        let mut i: usize = 0;
        while i < actions.len()
            invariant
                i <= actions.len(),
                responses@ == actions@.subrange(0, i as int).map_values(
                    |a: CardPromptAction| PromptAction::CardAction(a),
                ),
            decreases actions.len() - i,
        {
            responses.push(PromptAction::CardAction(actions[i]));
            proof {
                assert(actions@.subrange(0, i + 1) == actions@.subrange(0, i as int).push(
                    actions@[i as int],
                ));
            }
            i = i + 1;
        }
        proof {
            assert(actions@.subrange(0, actions@.len() as int) == actions@);
        }
        ButtonPrompt { context: None, responses }
    }
}

/// Target game object for a [CardBrowserPrompt] to which cards must be dragged.
#[derive(Debug, Clone, Copy, PartialEq, Eq, Structural)]
pub enum BrowserPromptTarget {
    DiscardPile,
    Deck,
    /// The deck, which is shuffled afterwards.
    DeckShuffled,
}

/// Describes which configurations of subjects for a [CardBrowserPrompt] are
/// valid and should allow the prompt to be exited.
#[derive(Debug, Clone, Copy, PartialEq, Eq, Structural)]
pub enum BrowserPromptValidation {
    /// User must select an exact quantity of cards.
    ExactlyCount(usize),
    /// User may select at most this many cards.
    LessThanOrEqualTo(usize),
}

/// Describes the action which should be performed for a [CardBrowserPrompt] on
/// the `chosen_subjects` cards once the user submits their final choice.
#[derive(Debug, Clone, Copy, PartialEq, Eq, Structural, Hash)]
pub enum BrowserPromptAction {
    /// Move the chosen subjects to the discard pile.
    DiscardCards,
    /// Shuffle the chosen subjects into their owner's deck.
    ShuffleIntoDeck,
}

/// A prompt which displays a selection of cards to the user and requests that
/// they drag cards to a target.
#[derive(Debug, Clone)]
pub struct CardBrowserPrompt {
    pub context: Option<PromptContext>,
    /// Cards displayed in the browser which have not been dragged to the target.
    pub unchosen_subjects: Vec<CardId>,
    /// Cards which have been selected.
    pub chosen_subjects: Vec<CardId>,
    /// Target game object to which cards must be dragged.
    pub target: BrowserPromptTarget,
    /// Which configurations of subjects allow the prompt to be exited.
    pub validation: BrowserPromptValidation,
    /// What happens to the `chosen_subjects` once the choice is submitted.
    pub action: BrowserPromptAction,
}

/// A specific card choice shown in a [CardButtonPrompt].
#[derive(Debug, Clone, Copy, PartialEq, Eq, Structural)]
pub struct CardButtonPromptAction {
    pub card_id: CardId,
    pub action: CardPromptAction,
}

impl CardButtonPromptAction {
    pub fn new(card_id: CardId, action: CardPromptAction) -> (r: CardButtonPromptAction)
        ensures
            r.card_id == card_id,
            r.action == action,
    {
        CardButtonPromptAction { card_id, action }
    }
}

/// Presents a choice to a user presented via buttons attached to specific cards
#[derive(Debug, Clone)]
pub struct CardButtonPrompt {
    pub context: Option<PromptContext>,
    /// Card actions for this prompt
    pub choices: Vec<CardButtonPromptAction>,
    /// Optionally, a game action to invoke once this choice is resolved.
    pub continue_action: Option<GameAction>,
}

/// What happens to the cards of a 'play card' browser which the player does
/// not play.
#[derive(Debug, Clone, Copy, PartialEq, Eq, Structural)]
pub enum UnplayedAction {
    /// Leave the unplayed cards where they are.
    Keep,
    Discard,
}

/// A browser, opened by an ability, from which the player may play one card.
#[derive(Debug, Clone)]
pub struct PlayCardBrowser {
    /// The ability which opened this browser
    pub initiated_by: AbilityId,
    /// The cards which may be played
    pub cards: Vec<CardId>,
    pub unplayed_action: UnplayedAction,
}

/// Possible types of prompts which might be displayed to a user during the
/// game.
#[derive(Debug, Clone)]
pub enum GamePrompt {
    ButtonPrompt(ButtonPrompt),
    CardBrowserPrompt(CardBrowserPrompt),
    CardButtonPrompt(CardButtonPrompt),
    PlayCardBrowser(PlayCardBrowser),
    /// The offer of the ability to shuffle up to this many cards from the
    /// Overlord's crypt into their vault. The cards offered are those in the
    /// crypt when the prompt is shown.
    ShuffleIntoVault(AbilityId, usize),
}

impl GamePrompt {
    pub fn as_button_prompt(&self) -> (r: Result<&ButtonPrompt, GameError>)
        ensures
            match self {
                GamePrompt::ButtonPrompt(p) => r == Ok::<&ButtonPrompt, GameError>(p),
                _ => r == Err::<&ButtonPrompt, GameError>(GameError::ExpectedButtonPrompt),
            },
    {
        match self {
            GamePrompt::ButtonPrompt(p) => Ok(p),
            _ => Err(GameError::ExpectedButtonPrompt),
        }
    }
}

/// Possible targets for the 'play card' action.
#[derive(Debug, Clone, Copy, PartialEq, Eq, Structural, Hash, PartialOrd, Ord)]
pub enum CardTarget {
    NoTarget,
    Room(RoomId),
}

/// The variant of a [CardTarget], without its data.
#[derive(Debug, Clone, Copy, PartialEq, Eq, Structural, Hash)]
pub enum CardTargetKind {
    NoTarget,
    Room,
}

impl CardTarget {
    /// Gets the RoomId targeted by a player, or returns an error if no target
    /// was provided.
    pub fn room_id(&self) -> (r: Result<RoomId, GameError>)
        ensures
            match *self {
                CardTarget::Room(room_id) => r == Ok::<RoomId, GameError>(room_id),
                CardTarget::NoTarget => r == Err::<RoomId, GameError>(
                    GameError::ExpectedRoomTarget(*self),
                ),
            },
    {
        match self {
            CardTarget::Room(room_id) => Ok(*room_id),
            _ => Err(GameError::ExpectedRoomTarget(*self)),
        }
    }

    /// The variant of this target.
    pub fn kind(&self) -> (r: CardTargetKind)
        ensures
            (r == CardTargetKind::NoTarget) <==> (*self == CardTarget::NoTarget),
    {
        match self {
            CardTarget::NoTarget => CardTargetKind::NoTarget,
            CardTarget::Room(_) => CardTargetKind::Room,
        }
    }
}

/// Possible actions a player can take to mutate a GameState
#[derive(Debug, Clone, Copy, PartialEq, Eq, Structural, Hash)]
pub enum GameAction {
    PromptAction(PromptAction),
    Resign,
    GainMana,
    DrawCard,
    PlayCard(CardId, CardTarget),
    ActivateAbility(AbilityId, CardTarget),
    UnveilCard(CardId),
    InitiateRaid(RoomId),
    LevelUpRoom(RoomId),
    SpendActionPoint,
    MoveCard(CardId),
    BrowserPromptAction(BrowserPromptAction),
}

} // verus!
