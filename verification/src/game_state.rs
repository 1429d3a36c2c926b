//! The state of a game: cards and their positions, players, the active raid,
//! the card being played, history, recorded events and client updates.

use vstd::prelude::*;

use crate::card_definition::{BasicAction, CardDefinition, RaidOutcome};
use crate::error::GameError;
use crate::game_actions::{CardTarget, GamePrompt};
use crate::game_updates::{GameUpdate, UpdateState, UpdateStep, UpdateTracker};
use crate::primitives::{
    AbilityId, ActionCount, CardId, GameId, ManaValue, PlayerId, PointsValue, RaidId,
    RoomId, Side, TurnNumber,
};

verus! {

/// Where a card stands in a room.
#[derive(Debug, Clone, Copy, PartialEq, Eq, Structural)]
pub enum RoomLocation {
    Defender,
    Occupant,
}

/// Where a card is.
#[derive(Debug, Clone, Copy, PartialEq, Eq, Structural)]
pub enum CardPosition {
    /// In a room, defending it or occupying it
    Room(RoomId, RoomLocation),
    /// In play in the Champion's arena
    ArenaItem,
    Hand(Side),
    Deck(Side),
    DiscardPile(Side),
    /// Being scored
    Scoring,
    /// Scored by a player
    Scored(Side),
    /// Being played by a player, with the given target
    Played(Side, CardTarget),
}

impl CardPosition {
    pub open spec fn is_in_play(self) -> bool {
        self is Room || self is ArenaItem
    }

    pub open spec fn is_in_discard_pile(self) -> bool {
        self is DiscardPile
    }

    /// Whether a card in this position is in play.
    pub fn in_play(&self) -> (r: bool)
        ensures
            r == self.is_in_play(),
    {
        match self {
            CardPosition::Room(_, _) => true,
            CardPosition::ArenaItem => true,
            _ => false,
        }
    }

    /// Whether a card in this position is in a discard pile.
    pub fn in_discard_pile(&self) -> (r: bool)
        ensures
            r == self.is_in_discard_pile(),
    {
        match self {
            CardPosition::DiscardPile(_) => true,
            _ => false,
        }
    }
}

/// The state of one card.
#[derive(Debug, Clone)]
pub struct CardState {
    pub id: CardId,
    pub position: CardPosition,
    /// Orders cards within a position; larger keys were placed later.
    pub sorting_key: u64,
    pub face_up: bool,
    pub revealed_to_overlord: bool,
    pub revealed_to_champion: bool,
    pub stored_mana: ManaValue,
    pub boost_count: u32,
    pub progress: u32,
    /// The last raid which this card initiated.
    pub raid_id: Option<RaidId>,
    pub definition: CardDefinition,
}

impl CardState {
    pub open spec fn is_revealed_to(self, side: Side) -> bool {
        match side {
            Side::Overlord => self.revealed_to_overlord,
            Side::Champion => self.revealed_to_champion,
        }
    }
}

/// A draw of cards under way: who draws, and how many cards.
#[derive(Debug, Clone, Copy, PartialEq, Eq, Structural)]
pub struct DrawCardsState {
    pub side: Side,
    pub quantity: u32,
}

/// How often things happened during a player's turn.
#[derive(Debug, Clone, Copy, PartialEq, Eq, Structural)]
pub struct HistoryCounters {
    pub cards_drawn: u32,
    pub gain_mana_actions: u32,
    pub progress_card_actions: u32,
    pub play_card_actions: u32,
    pub draw_card_actions: u32,
}

impl HistoryCounters {
    /// Counters for a turn in which nothing happened yet.
    pub open spec fn zero() -> HistoryCounters {
        HistoryCounters {
            cards_drawn: 0,
            gain_mana_actions: 0,
            progress_card_actions: 0,
            play_card_actions: 0,
            draw_card_actions: 0,
        }
    }

    pub open spec fn spec_count(self, action: BasicAction) -> u32 {
        match action {
            BasicAction::GainMana => self.gain_mana_actions,
            BasicAction::ProgressCard => self.progress_card_actions,
            BasicAction::PlayCard => self.play_card_actions,
            BasicAction::DrawCard => self.draw_card_actions,
        }
    }

    /// Each basic action is counted by its own counter.
    pub proof fn lemma_each_action_own_counter(self)
        ensures
            self.spec_count(BasicAction::GainMana) == self.gain_mana_actions,
            self.spec_count(BasicAction::ProgressCard) == self.progress_card_actions,
            self.spec_count(BasicAction::PlayCard) == self.play_card_actions,
            self.spec_count(BasicAction::DrawCard) == self.draw_card_actions,
    {
    }

    /// How often `action` was taken.
    pub fn count(&self, action: BasicAction) -> (r: u32)
        ensures
            r == self.spec_count(action),
    {
        match action {
            BasicAction::GainMana => self.gain_mana_actions,
            BasicAction::ProgressCard => self.progress_card_actions,
            BasicAction::PlayCard => self.play_card_actions,
            BasicAction::DrawCard => self.draw_card_actions,
        }
    }
}

/// The state of one player.
#[derive(Debug, Clone)]
pub struct PlayerState {
    /// Who plays this side.
    pub id: PlayerId,
    pub mana: ManaValue,
    pub actions: ActionCount,
    pub score: PointsValue,
    pub curses: u32,
    /// How often things happened during this player's current turn.
    pub counters: HistoryCounters,
    /// Prompts waiting for this player; the first one is shown.
    pub prompt_queue: Vec<GamePrompt>,
}

#[derive(Debug, Clone, Copy, PartialEq, Eq, Structural)]
pub enum GamePhase {
    ResolveMulligans,
    Play,
    GameOver(Side),
}

/// Whose turn it is, and its number.
#[derive(Debug, Clone, Copy, PartialEq, Eq, Structural)]
pub struct TurnData {
    pub side: Side,
    pub turn_number: TurnNumber,
}

/// The steps of a raid.
#[derive(Debug, Clone, Copy, PartialEq, Eq, Structural)]
pub enum InternalRaidPhase {
    Begin,
    Summon,
    Encounter,
    ApproachRoom,
    Access,
}

impl InternalRaidPhase {
    pub open spec fn spec_active_side(self) -> Side {
        match self {
            InternalRaidPhase::Begin => Side::Overlord,
            InternalRaidPhase::Summon => Side::Overlord,
            _ => Side::Champion,
        }
    }

    /// The player whom this phase waits for.
    pub fn active_side(self) -> (r: Side)
        ensures
            r == self.spec_active_side(),
    {
        match self {
            InternalRaidPhase::Begin => Side::Overlord,
            InternalRaidPhase::Summon => Side::Overlord,
            _ => Side::Champion,
        }
    }
}

/// A request, made by an effect, to move the raid to another point.
#[derive(Debug, Clone, Copy, PartialEq, Eq, Structural)]
pub enum RaidJumpRequest {
    /// Move the raid to the encounter with this minion.
    EncounterMinion(CardId),
}

/// The state of the active raid.
#[derive(Debug, Clone)]
pub struct RaidData {
    pub raid_id: RaidId,
    pub target: RoomId,
    pub internal_phase: InternalRaidPhase,
    /// Position of the defender being encountered
    pub encounter: Option<usize>,
    /// Cards accessed in the access phase
    pub accessed: Vec<CardId>,
    pub jump_request: Option<RaidJumpRequest>,
}

/// Game-wide values.
#[derive(Debug, Clone)]
pub struct GameInfo {
    pub phase: GamePhase,
    pub turn: TurnData,
    pub raid: Option<RaidData>,
    pub next_raid_id: u32,
    pub next_sorting_key: u64,
    /// State of the generator behind random choices
    pub rng_state: u64,
    /// The draws of cards under way, the latest last.
    pub draws: Vec<DrawCardsState>,
}

/// Who started the play of a card.
#[derive(Debug, Clone, Copy, PartialEq, Eq, Structural)]
pub enum PlayInitiatedBy {
    GameAction,
    Ability(AbilityId),
}

#[derive(Debug, Clone, Copy, PartialEq, Eq, Structural)]
pub enum HistoryEvent {
    RaidBegan(RoomId),
    PlayCard(CardId, CardTarget, PlayInitiatedBy),
}

#[derive(Debug, Clone, Copy, PartialEq, Eq, Structural)]
pub struct HistoryEntry {
    pub turn: TurnData,
    pub event: HistoryEvent,
}

/// A record of something that happened in the game, kept in
/// [GameState::events] in order. The abilities of cards which respond to an
/// event are run by `dispatch::fire_event`.
#[derive(Debug, Clone, Copy, PartialEq, Eq, Structural)]
pub enum GameEvent {
    RaidAccessStart(RaidId),
    RaidAccessSelected(RaidId, RoomId),
    CardAccess(CardId),
    ChampionScoreCard(CardId),
    ScoreCard(Side, CardId),
    PlayCard(CardId, CardTarget),
    RaidEnd(RaidId, RaidOutcome),
    StoredManaTaken(CardId),
}

/// The steps of playing a card, in order.
#[derive(Debug, Clone, Copy, PartialEq, Eq, Structural)]
pub enum PlayCardStep {
    Begin,
    CheckLimits,
    AddToHistory,
    MoveToPlayedPosition,
    PayActionPoints,
    ApplyPlayCardBrowser,
    PayManaCost,
    PayCustomCost,
    TurnFaceUp,
    MoveToTargetPosition,
    Finish,
}

/// The state of the card being played.
#[derive(Debug, Clone, Copy, PartialEq, Eq, Structural)]
pub struct PlayCardData {
    pub card_id: CardId,
    pub initiated_by: PlayInitiatedBy,
    pub target: CardTarget,
    pub step: PlayCardStep,
}

/// The state of a game.
#[derive(Debug)]
pub struct GameState {
    pub id: GameId,
    pub info: GameInfo,
    pub overlord: PlayerState,
    pub champion: PlayerState,
    pub overlord_cards: Vec<CardState>,
    pub champion_cards: Vec<CardState>,
    pub history: Vec<HistoryEntry>,
    /// Events that happened in the game, oldest first.
    pub events: Vec<GameEvent>,
    pub updates: UpdateTracker,
    /// The card being played, if any.
    pub play_card: Option<PlayCardData>,
}

/// `id` names one of `overlord_count` Overlord cards or `champion_count`
/// Champion cards.
pub open spec fn id_in_range(id: CardId, overlord_count: nat, champion_count: nat) -> bool {
    match id.side {
        Side::Overlord => id.index < overlord_count,
        Side::Champion => id.index < champion_count,
    }
}

/// Every card id that `prompt` holds is in range.
pub open spec fn prompt_ids_in_range(
    prompt: GamePrompt,
    overlord_count: nat,
    champion_count: nat,
) -> bool {
    match prompt {
        GamePrompt::PlayCardBrowser(p) => forall|i: int|
            0 <= i < p.cards@.len() ==> #[trigger] id_in_range(
                p.cards@[i],
                overlord_count,
                champion_count,
            ),
        _ => true,
    }
}

/// Every card id that the prompts of `queue` hold is in range.
pub open spec fn queue_ids_in_range(queue: Seq<GamePrompt>, overlord_count: nat, champion_count: nat) -> bool {
    forall|i: int|
        0 <= i < queue.len() ==> #[trigger] prompt_ids_in_range(
            queue[i],
            overlord_count,
            champion_count,
        )
}

/// Every card id that `raid` holds is in range.
pub open spec fn raid_ids_in_range(raid: RaidData, overlord_count: nat, champion_count: nat) -> bool {
    &&& forall|i: int|
        0 <= i < raid.accessed@.len() ==> #[trigger] id_in_range(
            raid.accessed@[i],
            overlord_count,
            champion_count,
        )
    &&& match raid.jump_request {
        Some(RaidJumpRequest::EncounterMinion(id)) => id_in_range(
            id,
            overlord_count,
            champion_count,
        ),
        None => true,
    }
}

impl GameState {
    pub open spec fn cards(self, side: Side) -> Seq<CardState> {
        match side {
            Side::Overlord => self.overlord_cards@,
            Side::Champion => self.champion_cards@,
        }
    }

    pub open spec fn valid_id(self, id: CardId) -> bool {
        id_in_range(id, self.overlord_cards@.len(), self.champion_cards@.len())
    }

    pub open spec fn card_state(self, id: CardId) -> CardState {
        self.cards(id.side)[id.index as int]
    }

    pub open spec fn player_state(self, side: Side) -> PlayerState {
        match side {
            Side::Overlord => self.overlord,
            Side::Champion => self.champion,
        }
    }

    pub open spec fn queue_wf(self, side: Side) -> bool {
        queue_ids_in_range(
            self.player_state(side).prompt_queue@,
            self.overlord_cards@.len(),
            self.champion_cards@.len(),
        )
    }

    pub open spec fn raid_wf(self) -> bool {
        match self.info.raid {
            Some(raid) => raid_ids_in_range(
                raid,
                self.overlord_cards@.len(),
                self.champion_cards@.len(),
            ),
            None => true,
        }
    }

    /// The invariant of a game: each card's id is its place in its owner's
    /// list, and every card id held elsewhere names a card.
    pub open spec fn wf(self) -> bool {
        &&& forall|i: int|
            0 <= i < self.overlord_cards@.len() ==> (#[trigger] self.overlord_cards@[i]).id
                == CardId { side: Side::Overlord, index: i as usize }
        &&& forall|i: int|
            0 <= i < self.champion_cards@.len() ==> (#[trigger] self.champion_cards@[i]).id
                == CardId { side: Side::Champion, index: i as usize }
        &&& self.raid_wf()
        &&& match self.play_card {
            Some(p) => self.valid_id(p.card_id),
            None => true,
        }
        &&& queue_ids_in_range(
            self.overlord.prompt_queue@,
            self.overlord_cards@.len(),
            self.champion_cards@.len(),
        )
        &&& queue_ids_in_range(
            self.champion.prompt_queue@,
            self.overlord_cards@.len(),
            self.champion_cards@.len(),
        )
    }

    /// `self` and `other` hold the same cards, except perhaps the card `id`.
    pub open spec fn cards_agree_except(self, other: GameState, id: CardId) -> bool {
        &&& self.overlord_cards@.len() == other.overlord_cards@.len()
        &&& self.champion_cards@.len() == other.champion_cards@.len()
        &&& forall|c: CardId|
            #![trigger other.card_state(c)]
            self.valid_id(c) && c != id ==> self.card_state(c) == other.card_state(c)
    }

    /// `self` and `other` agree on everything but the cards and game info.
    pub open spec fn same_players_and_logs(self, other: GameState) -> bool {
        &&& self.id == other.id
        &&& self.overlord == other.overlord
        &&& self.champion == other.champion
        &&& self.history == other.history
        &&& self.events == other.events
        &&& self.updates == other.updates
        &&& self.play_card == other.play_card
    }

    /// The card `id`.
    pub fn card(&self, id: CardId) -> (r: &CardState)
        requires
            self.valid_id(id),
        ensures
            *r == self.card_state(id),
    {
        match id.side {
            Side::Overlord => &self.overlord_cards[id.index],
            Side::Champion => &self.champion_cards[id.index],
        }
    }

    /// The player `side`.
    pub fn player(&self, side: Side) -> (r: &PlayerState)
        ensures
            *r == self.player_state(side),
    {
        match side {
            Side::Overlord => &self.overlord,
            Side::Champion => &self.champion,
        }
    }

    /// The number of cards which `side` owns.
    pub fn card_count(&self, side: Side) -> (r: usize)
        ensures
            r == self.cards(side).len(),
    {
        match side {
            Side::Overlord => self.overlord_cards.len(),
            Side::Champion => self.champion_cards.len(),
        }
    }

    /// The active raid, or an error when there is none.
    pub fn raid(&self) -> (r: Result<&RaidData, GameError>)
        ensures
            match self.info.raid {
                Some(raid) => r matches Ok(x) && *x == raid,
                None => r == Err::<&RaidData, GameError>(GameError::NoActiveRaid),
            },
    {
        match &self.info.raid {
            Some(raid) => Ok(raid),
            None => Err(GameError::NoActiveRaid),
        }
    }

    /// Records `event` in the game's events.
    pub fn invoke_event(&mut self, event: GameEvent)
        requires
            old(self).wf(),
        ensures
            final(self).wf(),
            final(self).events@ == old(self).events@.push(event),
            final(self).id == old(self).id,
            final(self).info == old(self).info,
            final(self).overlord == old(self).overlord,
            final(self).champion == old(self).champion,
            final(self).overlord_cards == old(self).overlord_cards,
            final(self).champion_cards == old(self).champion_cards,
            final(self).history == old(self).history,
            final(self).updates == old(self).updates,
            final(self).play_card == old(self).play_card,
    {
        self.events.push(event);
    }

    /// A copy of this game for an update step. The copy records no updates of
    /// its own.
    pub fn snapshot(&self) -> (r: GameState)
        ensures
            r.updates.state == self.updates.state,
            r.updates.steps@.len() == 0,
    {
        GameState {
            id: self.id,
            info: self.info.clone(),
            overlord: self.overlord.clone(),
            champion: self.champion.clone(),
            overlord_cards: self.overlord_cards.clone(),
            champion_cards: self.champion_cards.clone(),
            history: self.history.clone(),
            events: self.events.clone(),
            updates: UpdateTracker::new(self.updates.state),
            play_card: self.play_card,
        }
    }

    /// Records `update` for the client, with a snapshot of the game before it,
    /// when updates are being tracked.
    pub fn record_update(&mut self, update: GameUpdate)
        requires
            old(self).wf(),
        ensures
            final(self).wf(),
            old(self).updates.state == UpdateState::Push ==> {
                &&& final(self).updates.steps@.len() == old(self).updates.steps@.len() + 1
                &&& final(self).updates.steps@.last().update == update
                &&& final(self).updates.steps@.drop_last() == old(self).updates.steps@
            },
            old(self).updates.state == UpdateState::Ignore ==> final(self).updates
                == old(self).updates,
            final(self).updates.state == old(self).updates.state,
            final(self).id == old(self).id,
            final(self).info == old(self).info,
            final(self).overlord == old(self).overlord,
            final(self).champion == old(self).champion,
            final(self).overlord_cards == old(self).overlord_cards,
            final(self).champion_cards == old(self).champion_cards,
            final(self).history == old(self).history,
            final(self).events == old(self).events,
            final(self).play_card == old(self).play_card,
    {
        if self.updates.state == UpdateState::Push {
            let snapshot = self.snapshot();
            self.updates.steps.push(UpdateStep { snapshot, update });
        }
    }
}

impl GameState {
    /// A game with no cards, no raid and no card being played, in which both
    /// players have nothing.
    pub fn new(
        id: GameId,
        overlord: PlayerId,
        champion: PlayerId,
        phase: GamePhase,
        turn: TurnData,
    ) -> (r: GameState)
        ensures
            r.wf(),
            r.id == id,
            r.overlord.id == overlord,
            r.champion.id == champion,
            r.info.phase == phase,
            r.info.turn == turn,
            r.info.raid is None,
            r.info.next_raid_id == 1,
            r.info.next_sorting_key == 0,
            r.info.rng_state == 0,
            r.info.draws@.len() == 0,
            r.overlord.counters == HistoryCounters::zero(),
            r.champion.counters == HistoryCounters::zero(),
            r.overlord_cards@.len() == 0,
            r.champion_cards@.len() == 0,
            r.overlord.mana == 0 && r.overlord.actions == 0 && r.overlord.score == 0,
            r.overlord.curses == 0 && r.overlord.prompt_queue@.len() == 0,
            r.champion.mana == 0 && r.champion.actions == 0 && r.champion.score == 0,
            r.champion.curses == 0 && r.champion.prompt_queue@.len() == 0,
            r.history@.len() == 0,
            r.events@.len() == 0,
            r.updates.state == UpdateState::Ignore,
            r.updates.steps@.len() == 0,
            r.play_card is None,
    {
        GameState {
            id,
            info: GameInfo {
                phase,
                turn,
                raid: None,
                next_raid_id: 1,
                next_sorting_key: 0,
                rng_state: 0,
                draws: Vec::new(),
            },
            overlord: PlayerState {
                id: overlord,
                mana: 0,
                actions: 0,
                score: 0,
                curses: 0,
                counters: HistoryCounters {
                    cards_drawn: 0,
                    gain_mana_actions: 0,
                    progress_card_actions: 0,
                    play_card_actions: 0,
                    draw_card_actions: 0,
                },
                prompt_queue: Vec::new(),
            },
            champion: PlayerState {
                id: champion,
                mana: 0,
                actions: 0,
                score: 0,
                curses: 0,
                counters: HistoryCounters {
                    cards_drawn: 0,
                    gain_mana_actions: 0,
                    progress_card_actions: 0,
                    play_card_actions: 0,
                    draw_card_actions: 0,
                },
                prompt_queue: Vec::new(),
            },
            overlord_cards: Vec::new(),
            champion_cards: Vec::new(),
            history: Vec::new(),
            events: Vec::new(),
            updates: UpdateTracker::new(UpdateState::Ignore),
            play_card: None,
        }
    }

    /// Adds a face-down card owned by `side`, placed last in `position`.
    /// Fails when no sorting key is left.
    pub fn add_card(&mut self, side: Side, definition: CardDefinition, position: CardPosition) -> (r:
        Result<CardId, GameError>)
        requires
            old(self).wf(),
        ensures
            final(self).wf(),
            r is Err <==> old(self).info.next_sorting_key == u64::MAX,
            r is Err ==> *final(self) == *old(self),
            r matches Ok(id) ==> {
                &&& id.side == side
                &&& id.index == old(self).cards(side).len()
                &&& final(self).cards(side) == old(self).cards(side).push(
                    final(self).card_state(id),
                )
                &&& final(self).cards(side.opponent()) == old(self).cards(side.opponent())
                &&& final(self).card_state(id).position == position
                &&& final(self).card_state(id).sorting_key == old(self).info.next_sorting_key
                &&& final(self).card_state(id).definition == definition
                &&& !final(self).card_state(id).face_up
                &&& final(self).card_state(id).stored_mana == 0
                &&& final(self).card_state(id).boost_count == 0
                &&& final(self).card_state(id).raid_id is None
                &&& final(self).info.next_sorting_key == old(self).info.next_sorting_key + 1
                &&& final(self).info.phase == old(self).info.phase
                &&& final(self).info.raid == old(self).info.raid
                &&& final(self).same_players_and_logs(*old(self))
            },
    {
        if self.info.next_sorting_key == u64::MAX {
            return Err(GameError::ValueOutOfRange);
        }
        let key = self.info.next_sorting_key;
        self.info.next_sorting_key = key + 1;
        let index = self.card_count(side);
        let card = CardState {
            id: CardId { side, index },
            position,
            sorting_key: key,
            face_up: false,
            revealed_to_overlord: false,
            revealed_to_champion: false,
            stored_mana: 0,
            boost_count: 0,
            progress: 0,
            raid_id: None,
            definition,
        };
        match side {
            Side::Overlord => self.overlord_cards.push(card),
            Side::Champion => self.champion_cards.push(card),
        }
        proof {
            lemma_ids_in_range_grow(*old(self), *self);
        }
        Ok(CardId { side, index })
    }

    /// Moves `card_id` to `position`, placing it after every card placed
    /// before. Fails when no sorting key is left.
    pub fn move_card(&mut self, card_id: CardId, position: CardPosition) -> (r: Result<
        (),
        GameError,
    >)
        requires
            old(self).wf(),
            old(self).valid_id(card_id),
        ensures
            final(self).wf(),
            r is Err <==> old(self).info.next_sorting_key == u64::MAX,
            r is Err ==> *final(self) == *old(self),
            r is Ok ==> {
                &&& final(self).card_state(card_id) == (CardState {
                    position,
                    sorting_key: old(self).info.next_sorting_key,
                    ..old(self).card_state(card_id)
                })
                &&& final(self).cards_agree_except(*old(self), card_id)
                &&& final(self).info == (GameInfo {
                    next_sorting_key: (old(self).info.next_sorting_key + 1) as u64,
                    ..old(self).info
                })
                &&& final(self).same_players_and_logs(*old(self))
            },
    {
        if self.info.next_sorting_key == u64::MAX {
            return Err(GameError::ValueOutOfRange);
        }
        let key = self.info.next_sorting_key;
        self.info.next_sorting_key = key + 1;
        match card_id.side {
            Side::Overlord => {
                self.overlord_cards[card_id.index].position = position;
                self.overlord_cards[card_id.index].sorting_key = key;
            },
            Side::Champion => {
                self.champion_cards[card_id.index].position = position;
                self.champion_cards[card_id.index].sorting_key = key;
            },
        }
        Ok(())
    }

    /// Moves `card_id` to its owner's discard pile.
    pub fn discard_card(&mut self, card_id: CardId) -> (r: Result<(), GameError>)
        requires
            old(self).wf(),
            old(self).valid_id(card_id),
        ensures
            final(self).wf(),
            r is Err <==> old(self).info.next_sorting_key == u64::MAX,
            r is Err ==> *final(self) == *old(self),
            r is Ok ==> {
                &&& final(self).card_state(card_id) == (CardState {
                    position: CardPosition::DiscardPile(card_id.side),
                    sorting_key: old(self).info.next_sorting_key,
                    ..old(self).card_state(card_id)
                })
                &&& final(self).cards_agree_except(*old(self), card_id)
                &&& final(self).info == (GameInfo {
                    next_sorting_key: (old(self).info.next_sorting_key + 1) as u64,
                    ..old(self).info
                })
                &&& final(self).same_players_and_logs(*old(self))
            },
    {
        self.move_card(card_id, CardPosition::DiscardPile(card_id.side))
    }

    /// Turns `card_id` face up.
    pub fn turn_face_up(&mut self, card_id: CardId)
        requires
            old(self).wf(),
            old(self).valid_id(card_id),
        ensures
            final(self).wf(),
            final(self).card_state(card_id) == (CardState {
                face_up: true,
                ..old(self).card_state(card_id)
            }),
            final(self).cards_agree_except(*old(self), card_id),
            final(self).id == old(self).id,
            final(self).info == old(self).info,
            final(self).same_players_and_logs(*old(self)),
    {
        match card_id.side {
            Side::Overlord => {
                self.overlord_cards[card_id.index].face_up = true;
            },
            Side::Champion => {
                self.champion_cards[card_id.index].face_up = true;
            },
        }
    }

    /// Sets whether `card_id` is revealed to the `side` player.
    pub fn set_revealed_to(&mut self, card_id: CardId, side: Side, revealed: bool)
        requires
            old(self).wf(),
            old(self).valid_id(card_id),
        ensures
            final(self).wf(),
            final(self).card_state(card_id) == (match side {
                Side::Overlord => CardState {
                    revealed_to_overlord: revealed,
                    ..old(self).card_state(card_id)
                },
                Side::Champion => CardState {
                    revealed_to_champion: revealed,
                    ..old(self).card_state(card_id)
                },
            }),
            final(self).cards_agree_except(*old(self), card_id),
            final(self).id == old(self).id,
            final(self).info == old(self).info,
            final(self).same_players_and_logs(*old(self)),
    {
        match (card_id.side, side) {
            (Side::Overlord, Side::Overlord) => {
                self.overlord_cards[card_id.index].revealed_to_overlord = revealed;
            },
            (Side::Overlord, Side::Champion) => {
                self.overlord_cards[card_id.index].revealed_to_champion = revealed;
            },
            (Side::Champion, Side::Overlord) => {
                self.champion_cards[card_id.index].revealed_to_overlord = revealed;
            },
            (Side::Champion, Side::Champion) => {
                self.champion_cards[card_id.index].revealed_to_champion = revealed;
            },
        }
    }
}

impl GameState {
    /// `self` is `old` with only the `side` player changed.
    pub open spec fn only_player_changed(self, old: GameState, side: Side) -> bool {
        &&& self.player_state(side.opponent()) == old.player_state(side.opponent())
        &&& self.id == old.id
        &&& self.info == old.info
        &&& self.overlord_cards == old.overlord_cards
        &&& self.champion_cards == old.champion_cards
        &&& self.history == old.history
        &&& self.events == old.events
        &&& self.updates == old.updates
        &&& self.play_card == old.play_card
    }

    /// The `side` player, for changing.
    fn player_mut(&mut self, side: Side) -> (r: &mut PlayerState)
        ensures
            *r == old(self).player_state(side),
            final(self).player_state(side) == *final(r),
            final(self).only_player_changed(*old(self), side),
    {
        match side {
            Side::Overlord => &mut self.overlord,
            Side::Champion => &mut self.champion,
        }
    }

    /// The `side` player pays `amount` mana; fails, changing nothing, when
    /// they have less.
    pub fn spend_mana(&mut self, side: Side, amount: ManaValue) -> (r: Result<(), GameError>)
        requires
            old(self).wf(),
        ensures
            final(self).wf(),
            r is Err <==> old(self).player_state(side).mana < amount,
            r matches Err(e) ==> e == GameError::InsufficientMana(amount) && *final(self) == *old(
                self,
            ),
            r is Ok ==> final(self).player_state(side) == (PlayerState {
                mana: (old(self).player_state(side).mana - amount) as u32,
                ..old(self).player_state(side)
            }),
            final(self).only_player_changed(*old(self), side),
    {
        let player = self.player_mut(side);
        if player.mana < amount {
            return Err(GameError::InsufficientMana(amount));
        }
        player.mana = player.mana - amount;
        Ok(())
    }

    /// The `side` player gains `amount` mana; fails, changing nothing, when
    /// the pool would exceed its range.
    pub fn gain_mana(&mut self, side: Side, amount: ManaValue) -> (r: Result<(), GameError>)
        requires
            old(self).wf(),
        ensures
            final(self).wf(),
            r is Err <==> old(self).player_state(side).mana + amount > u32::MAX,
            r matches Err(e) ==> e == GameError::ValueOutOfRange && *final(self) == *old(self),
            r is Ok ==> final(self).player_state(side) == (PlayerState {
                mana: (old(self).player_state(side).mana + amount) as u32,
                ..old(self).player_state(side)
            }),
            final(self).only_player_changed(*old(self), side),
    {
        let player = self.player_mut(side);
        match player.mana.checked_add(amount) {
            Some(m) => {
                player.mana = m;
                Ok(())
            },
            None => Err(GameError::ValueOutOfRange),
        }
    }

    /// The `side` player spends `amount` action points; fails, changing
    /// nothing, when they have fewer.
    pub fn spend_action_points(&mut self, side: Side, amount: ActionCount) -> (r: Result<
        (),
        GameError,
    >)
        requires
            old(self).wf(),
        ensures
            final(self).wf(),
            r is Err <==> old(self).player_state(side).actions < amount,
            r matches Err(e) ==> e == GameError::InsufficientActionPoints(amount) && *final(self)
                == *old(self),
            r is Ok ==> final(self).player_state(side) == (PlayerState {
                actions: (old(self).player_state(side).actions - amount) as u32,
                ..old(self).player_state(side)
            }),
            final(self).only_player_changed(*old(self), side),
    {
        let player = self.player_mut(side);
        if player.actions < amount {
            return Err(GameError::InsufficientActionPoints(amount));
        }
        player.actions = player.actions - amount;
        Ok(())
    }

    /// The `side` player gains `amount` action points; fails, changing
    /// nothing, when the count would exceed its range.
    pub fn gain_action_points(&mut self, side: Side, amount: ActionCount) -> (r: Result<
        (),
        GameError,
    >)
        requires
            old(self).wf(),
        ensures
            final(self).wf(),
            r is Err <==> old(self).player_state(side).actions + amount > u32::MAX,
            r matches Err(e) ==> e == GameError::ValueOutOfRange && *final(self) == *old(self),
            r is Ok ==> final(self).player_state(side) == (PlayerState {
                actions: (old(self).player_state(side).actions + amount) as u32,
                ..old(self).player_state(side)
            }),
            final(self).only_player_changed(*old(self), side),
    {
        let player = self.player_mut(side);
        match player.actions.checked_add(amount) {
            Some(a) => {
                player.actions = a;
                Ok(())
            },
            None => Err(GameError::ValueOutOfRange),
        }
    }

    /// The `side` player loses `amount` action points, or all they have if
    /// they have fewer.
    pub fn lose_action_points_if_able(&mut self, side: Side, amount: ActionCount)
        requires
            old(self).wf(),
        ensures
            final(self).wf(),
            final(self).player_state(side) == (PlayerState {
                actions: if old(self).player_state(side).actions < amount {
                    0
                } else {
                    (old(self).player_state(side).actions - amount) as u32
                },
                ..old(self).player_state(side)
            }),
            final(self).only_player_changed(*old(self), side),
    {
        let player = self.player_mut(side);
        if player.actions < amount {
            player.actions = 0;
        } else {
            player.actions = player.actions - amount;
        }
    }

    /// The `side` player scores `points`; fails, changing nothing, when the
    /// score would exceed its range.
    pub fn score_points(&mut self, side: Side, points: PointsValue) -> (r: Result<(), GameError>)
        requires
            old(self).wf(),
        ensures
            final(self).wf(),
            r is Err <==> old(self).player_state(side).score + points > u32::MAX,
            r matches Err(e) ==> e == GameError::ValueOutOfRange && *final(self) == *old(self),
            r is Ok ==> final(self).player_state(side) == (PlayerState {
                score: (old(self).player_state(side).score + points) as u32,
                ..old(self).player_state(side)
            }),
            final(self).only_player_changed(*old(self), side),
    {
        let player = self.player_mut(side);
        match player.score.checked_add(points) {
            Some(s) => {
                player.score = s;
                Ok(())
            },
            None => Err(GameError::ValueOutOfRange),
        }
    }

    /// The Champion loses `amount` curses, or all they have if they have
    /// fewer.
    pub fn remove_curses(&mut self, amount: u32)
        requires
            old(self).wf(),
        ensures
            final(self).wf(),
            final(self).champion == (PlayerState {
                curses: if old(self).champion.curses < amount {
                    0
                } else {
                    (old(self).champion.curses - amount) as u32
                },
                ..old(self).champion
            }),
            final(self).only_player_changed(*old(self), Side::Champion),
    {
        let player = self.player_mut(Side::Champion);
        if player.curses < amount {
            player.curses = 0;
        } else {
            player.curses = player.curses - amount;
        }
    }

    /// The side that `player` plays in this game, if they take part in it;
    /// the Overlord's side when they play both.
    pub open spec fn spec_player_side(self, player: PlayerId) -> Option<Side> {
        if self.overlord.id == player {
            Some(Side::Overlord)
        } else if self.champion.id == player {
            Some(Side::Champion)
        } else {
            None
        }
    }

    /// The side that `player` plays in this game; fails when they take no
    /// part in it.
    pub fn player_side(&self, player: PlayerId) -> (r: Result<Side, GameError>)
        ensures
            match self.spec_player_side(player) {
                Some(side) => r == Ok::<Side, GameError>(side),
                None => r == Err::<Side, GameError>(GameError::PlayerNotInGame(player)),
            },
    {
        if self.overlord.id == player {
            Ok(Side::Overlord)
        } else if self.champion.id == player {
            Ok(Side::Champion)
        } else {
            Err(GameError::PlayerNotInGame(player))
        }
    }

    /// Hands the `side` player's seat to `player`.
    pub fn set_player_id(&mut self, side: Side, player: PlayerId)
        requires
            old(self).wf(),
        ensures
            final(self).wf(),
            final(self).player_state(side) == (PlayerState {
                id: player,
                ..old(self).player_state(side)
            }),
            final(self).only_player_changed(*old(self), side),
    {
        let p = self.player_mut(side);
        p.id = player;
    }

    /// Appends `prompt` to the prompts waiting for the `side` player.
    pub fn push_prompt(&mut self, side: Side, prompt: GamePrompt)
        requires
            old(self).wf(),
            prompt_ids_in_range(
                prompt,
                old(self).overlord_cards@.len(),
                old(self).champion_cards@.len(),
            ),
        ensures
            final(self).wf(),
            final(self).player_state(side) == (PlayerState {
                prompt_queue: final(self).player_state(side).prompt_queue,
                ..old(self).player_state(side)
            }),
            final(self).player_state(side).prompt_queue@ == old(self).player_state(
                side,
            ).prompt_queue@.push(prompt),
            final(self).only_player_changed(*old(self), side),
    {
        let player = self.player_mut(side);
        player.prompt_queue.push(prompt);
        proof {
            let (oc, cc) = (self.overlord_cards@.len(), self.champion_cards@.len());
            let q = self.player_state(side).prompt_queue@;
            assert forall|i: int| 0 <= i < q.len() implies #[trigger] prompt_ids_in_range(
                q[i],
                oc,
                cc,
            ) by {
                if i < q.len() - 1 {
                    assert(q[i] == old(self).player_state(side).prompt_queue@[i]);
                }
            }
        }
    }

    /// Records `event` in the game history, at the current turn.
    pub fn add_history_event(&mut self, event: HistoryEvent)
        requires
            old(self).wf(),
        ensures
            final(self).wf(),
            final(self).history@ == old(self).history@.push(
                HistoryEntry { turn: old(self).info.turn, event },
            ),
            final(self).id == old(self).id,
            final(self).info == old(self).info,
            final(self).overlord == old(self).overlord,
            final(self).champion == old(self).champion,
            final(self).overlord_cards == old(self).overlord_cards,
            final(self).champion_cards == old(self).champion_cards,
            final(self).events == old(self).events,
            final(self).updates == old(self).updates,
            final(self).play_card == old(self).play_card,
    {
        self.history.push(HistoryEntry { turn: self.info.turn, event });
    }

    /// Ends the active raid with `outcome`, recording the end of the raid;
    /// fails, changing nothing, when no raid is active.
    pub fn end_raid(&mut self, outcome: RaidOutcome) -> (r: Result<(), GameError>)
        requires
            old(self).wf(),
        ensures
            final(self).wf(),
            r is Err <==> old(self).info.raid is None,
            r matches Err(e) ==> e == GameError::NoActiveRaid && *final(self) == *old(self),
            r is Ok ==> {
                &&& final(self).info == (GameInfo { raid: None, ..old(self).info })
                &&& final(self).events@ == old(self).events@.push(
                    GameEvent::RaidEnd(old(self).info.raid->0.raid_id, outcome),
                )
            },
            final(self).id == old(self).id,
            final(self).overlord == old(self).overlord,
            final(self).champion == old(self).champion,
            final(self).overlord_cards == old(self).overlord_cards,
            final(self).champion_cards == old(self).champion_cards,
            final(self).history == old(self).history,
            final(self).updates == old(self).updates,
            final(self).play_card == old(self).play_card,
    {
        let raid_id = match &self.info.raid {
            Some(raid) => raid.raid_id,
            None => {
                return Err(GameError::NoActiveRaid);
            },
        };
        self.events.push(GameEvent::RaidEnd(raid_id, outcome));
        self.info.raid = None;
        Ok(())
    }
}

impl GameState {
    /// Records on `card_id` that it initiated the raid `raid_id`.
    pub fn set_card_raid_id(&mut self, card_id: CardId, raid_id: RaidId)
        requires
            old(self).wf(),
            old(self).valid_id(card_id),
        ensures
            final(self).wf(),
            final(self).card_state(card_id) == (CardState {
                raid_id: Some(raid_id),
                ..old(self).card_state(card_id)
            }),
            final(self).cards_agree_except(*old(self), card_id),
            final(self).id == old(self).id,
            final(self).info == old(self).info,
            final(self).same_players_and_logs(*old(self)),
    {
        match card_id.side {
            Side::Overlord => {
                self.overlord_cards[card_id.index].raid_id = Some(raid_id);
            },
            Side::Champion => {
                self.champion_cards[card_id.index].raid_id = Some(raid_id);
            },
        }
    }
}

impl GameState {
    /// Removes every prompt waiting for the `side` player.
    pub fn clear_prompts(&mut self, side: Side)
        requires
            old(self).wf(),
        ensures
            final(self).wf(),
            final(self).player_state(side) == (PlayerState {
                prompt_queue: final(self).player_state(side).prompt_queue,
                ..old(self).player_state(side)
            }),
            final(self).player_state(side).prompt_queue@.len() == 0,
            final(self).only_player_changed(*old(self), side),
    {
        let player = self.player_mut(side);
        player.prompt_queue.clear();
    }
}

impl GameState {
    /// Sets the mana stored in `card_id`.
    pub fn set_stored_mana(&mut self, card_id: CardId, amount: ManaValue)
        requires
            old(self).wf(),
            old(self).valid_id(card_id),
        ensures
            final(self).wf(),
            final(self).card_state(card_id) == (CardState {
                stored_mana: amount,
                ..old(self).card_state(card_id)
            }),
            final(self).cards_agree_except(*old(self), card_id),
            final(self).id == old(self).id,
            final(self).info == old(self).info,
            final(self).same_players_and_logs(*old(self)),
    {
        match card_id.side {
            Side::Overlord => {
                self.overlord_cards[card_id.index].stored_mana = amount;
            },
            Side::Champion => {
                self.champion_cards[card_id.index].stored_mana = amount;
            },
        }
    }

    /// Makes `card_id` a card with `definition`.
    pub fn set_definition(&mut self, card_id: CardId, definition: CardDefinition)
        requires
            old(self).wf(),
            old(self).valid_id(card_id),
        ensures
            final(self).wf(),
            final(self).card_state(card_id) == (CardState {
                definition,
                ..old(self).card_state(card_id)
            }),
            final(self).cards_agree_except(*old(self), card_id),
            final(self).id == old(self).id,
            final(self).info == old(self).info,
            final(self).same_players_and_logs(*old(self)),
    {
        match card_id.side {
            Side::Overlord => {
                self.overlord_cards[card_id.index].definition = definition;
            },
            Side::Champion => {
                self.champion_cards[card_id.index].definition = definition;
            },
        }
    }

    /// Sets the number of times the attack boost of `card_id` was used.
    pub fn set_boost_count(&mut self, card_id: CardId, count: u32)
        requires
            old(self).wf(),
            old(self).valid_id(card_id),
        ensures
            final(self).wf(),
            final(self).card_state(card_id) == (CardState {
                boost_count: count,
                ..old(self).card_state(card_id)
            }),
            final(self).cards_agree_except(*old(self), card_id),
            final(self).id == old(self).id,
            final(self).info == old(self).info,
            final(self).same_players_and_logs(*old(self)),
    {
        match card_id.side {
            Side::Overlord => {
                self.overlord_cards[card_id.index].boost_count = count;
            },
            Side::Champion => {
                self.champion_cards[card_id.index].boost_count = count;
            },
        }
    }
}

/// Growing a player's card list keeps every card id in range.
proof fn lemma_ids_in_range_grow(a: GameState, b: GameState)
    requires
        a.wf(),
        b.overlord_cards@.len() >= a.overlord_cards@.len(),
        b.champion_cards@.len() >= a.champion_cards@.len(),
        b.info.raid == a.info.raid,
        b.play_card == a.play_card,
        b.overlord.prompt_queue == a.overlord.prompt_queue,
        b.champion.prompt_queue == a.champion.prompt_queue,
        forall|i: int|
            0 <= i < b.overlord_cards@.len() ==> (#[trigger] b.overlord_cards@[i]).id == (CardId {
                side: Side::Overlord,
                index: i as usize,
            }),
        forall|i: int|
            0 <= i < b.champion_cards@.len() ==> (#[trigger] b.champion_cards@[i]).id == (CardId {
                side: Side::Champion,
                index: i as usize,
            }),
    ensures
        b.wf(),
{
    let (oa, ca) = (a.overlord_cards@.len(), a.champion_cards@.len());
    let (ob, cb) = (b.overlord_cards@.len(), b.champion_cards@.len());
    assert forall|id: CardId| id_in_range(id, oa, ca) implies id_in_range(id, ob, cb) by {}
    assert forall|q: GamePrompt| prompt_ids_in_range(q, oa, ca) implies prompt_ids_in_range(
        q,
        ob,
        cb,
    ) by {
        match q {
            GamePrompt::PlayCardBrowser(p) => {
                assert forall|i: int| 0 <= i < p.cards@.len() implies #[trigger] id_in_range(
                    p.cards@[i],
                    ob,
                    cb,
                ) by {
                    assert(id_in_range(p.cards@[i], oa, ca));
                }
            },
            _ => {},
        }
    }
    assert forall|i: int|
        0 <= i < b.overlord.prompt_queue@.len() implies #[trigger] prompt_ids_in_range(
        b.overlord.prompt_queue@[i],
        ob,
        cb,
    ) by {
        assert(prompt_ids_in_range(a.overlord.prompt_queue@[i], oa, ca));
    }
    assert forall|i: int|
        0 <= i < b.champion.prompt_queue@.len() implies #[trigger] prompt_ids_in_range(
        b.champion.prompt_queue@[i],
        ob,
        cb,
    ) by {
        assert(prompt_ids_in_range(a.champion.prompt_queue@[i], oa, ca));
    }
    match a.info.raid {
        Some(raid) => {
            assert forall|i: int| 0 <= i < raid.accessed@.len() implies #[trigger] id_in_range(
                raid.accessed@[i],
                ob,
                cb,
            ) by {
                assert(id_in_range(raid.accessed@[i], oa, ca));
            }
        },
        None => {},
    }
}

/// Whether `id` names one of `overlord_count` Overlord cards or
/// `champion_count` Champion cards.
fn in_range(id: CardId, overlord_count: usize, champion_count: usize) -> (r: bool)
    ensures
        r == id_in_range(id, overlord_count as nat, champion_count as nat),
{
    match id.side {
        Side::Overlord => id.index < overlord_count,
        Side::Champion => id.index < champion_count,
    }
}

/// Whether every id of `ids` is in range.
fn all_in_range(ids: &Vec<CardId>, overlord_count: usize, champion_count: usize) -> (r: bool)
    ensures
        r == forall|i: int|
            0 <= i < ids@.len() ==> #[trigger] id_in_range(
                ids@[i],
                overlord_count as nat,
                champion_count as nat,
            ),
{
    let mut i: usize = 0;
    while i < ids.len()
        invariant
            i <= ids.len(),
            forall|k: int|
                0 <= k < i ==> #[trigger] id_in_range(
                    ids@[k],
                    overlord_count as nat,
                    champion_count as nat,
                ),
        decreases ids.len() - i,
    {
        if !in_range(ids[i], overlord_count, champion_count) {
            return false;
        }
        i = i + 1;
    }
    true
}

/// Whether every card id that the prompts of `queue` hold is in range.
fn queue_in_range(queue: &Vec<GamePrompt>, overlord_count: usize, champion_count: usize) -> (r: bool)
    ensures
        r == queue_ids_in_range(queue@, overlord_count as nat, champion_count as nat),
{
    let mut i: usize = 0;
    while i < queue.len()
        invariant
            i <= queue.len(),
            forall|k: int|
                0 <= k < i ==> #[trigger] prompt_ids_in_range(
                    queue@[k],
                    overlord_count as nat,
                    champion_count as nat,
                ),
        decreases queue.len() - i,
    {
        let ok = match &queue[i] {
            GamePrompt::PlayCardBrowser(p) => all_in_range(&p.cards, overlord_count, champion_count),
            _ => true,
        };
        if !ok {
            assert(!prompt_ids_in_range(queue@[i as int], overlord_count as nat, champion_count as nat));
            return false;
        }
        i = i + 1;
    }
    true
}

/// Whether each card of `cards` has the id of its place among the cards of
/// `side`.
fn ids_in_place(cards: &Vec<CardState>, side: Side) -> (r: bool)
    ensures
        r == forall|i: int|
            0 <= i < cards@.len() ==> (#[trigger] cards@[i]).id == (CardId {
                side,
                index: i as usize,
            }),
{
    let mut i: usize = 0;
    while i < cards.len()
        invariant
            i <= cards.len(),
            forall|k: int|
                0 <= k < i ==> (#[trigger] cards@[k]).id == (CardId { side, index: k as usize }),
        decreases cards.len() - i,
    {
        if cards[i].id != (CardId { side, index: i }) {
            return false;
        }
        i = i + 1;
    }
    true
}

impl GameState {
    /// Whether this game holds its invariant [GameState::wf]: a game read
    /// from storage is checked before the rules run on it.
    pub fn check_wf(&self) -> (r: bool)
        ensures
            r == self.wf(),
    {
        let oc = self.overlord_cards.len();
        let cc = self.champion_cards.len();
        if !ids_in_place(&self.overlord_cards, Side::Overlord) {
            return false;
        }
        if !ids_in_place(&self.champion_cards, Side::Champion) {
            return false;
        }
        let raid_ok = match &self.info.raid {
            Some(raid) => all_in_range(&raid.accessed, oc, cc) && match raid.jump_request {
                Some(RaidJumpRequest::EncounterMinion(id)) => in_range(id, oc, cc),
                None => true,
            },
            None => true,
        };
        if !raid_ok {
            return false;
        }
        let play_ok = match self.play_card {
            Some(p) => in_range(p.card_id, oc, cc),
            None => true,
        };
        if !play_ok {
            return false;
        }
        queue_in_range(&self.overlord.prompt_queue, oc, cc) && queue_in_range(
            &self.champion.prompt_queue,
            oc,
            cc,
        )
    }
}

impl GameState {
    /// Closes the raid `raid_id` with `outcome`: records its end and leaves
    /// the game without a raid.
    pub fn close_raid(&mut self, raid_id: RaidId, outcome: RaidOutcome)
        requires
            old(self).wf(),
        ensures
            final(self).wf(),
            final(self).info == (GameInfo { raid: None, ..old(self).info }),
            final(self).events@ == old(self).events@.push(GameEvent::RaidEnd(raid_id, outcome)),
            *final(self) == (GameState {
                info: final(self).info,
                events: final(self).events,
                ..*old(self)
            }),
    {
        self.events.push(GameEvent::RaidEnd(raid_id, outcome));
        self.info.raid = None;
    }
}

} // verus!
