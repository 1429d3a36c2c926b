//! The state machine which drives a raid from phase to phase.
//!
//! The access phase is implemented in [crate::access]. The begin, summon,
//! encounter and approach phases are not part of this crate: entering one of
//! them changes nothing, they offer no prompts and accept no actions.

use vstd::prelude::*;

use crate::access::{
    AccessPhase, access_action_applied, access_action_fails, access_action_succeeds, access_actions_for,
    access_phase_entered, access_phase_fails, action_ids_valid, spec_access_actions,
};
use crate::error::GameError;
use crate::game_actions::{AccessPhaseAction, ButtonPrompt, GamePrompt, PromptAction, PromptContext};
use crate::game_state::{
    CardState, GameInfo, PlayerState, GamePhase, GameState, HistoryEntry, HistoryEvent,
    InternalRaidPhase, RaidData, RaidJumpRequest, id_in_range,
};
use crate::game_updates::{GameUpdate, InitiatedBy, UpdateState};
use crate::primitives::{CardId, RaidId, RoomId, Side};
use crate::queries::{minion_position, spec_minion_position};

verus! {

/// The behaviour of a raid phase.
#[derive(Debug, Clone, Copy, PartialEq, Eq, Structural)]
pub enum RaidPhase {
    Begin,
    Summon,
    Encounter,
    ApproachRoom,
    Access(AccessPhase),
}

pub open spec fn phase_for(internal: InternalRaidPhase) -> RaidPhase {
    match internal {
        InternalRaidPhase::Begin => RaidPhase::Begin,
        InternalRaidPhase::Summon => RaidPhase::Summon,
        InternalRaidPhase::Encounter => RaidPhase::Encounter,
        InternalRaidPhase::ApproachRoom => RaidPhase::ApproachRoom,
        InternalRaidPhase::Access => RaidPhase::Access(AccessPhase {  }),
    }
}

/// Extension trait to add the `phase` method to [RaidData].
pub trait RaidDataExt {
    spec fn spec_phase(&self) -> RaidPhase;

    fn phase(&self) -> (r: RaidPhase)
        ensures
            r == self.spec_phase(),
    ;
}

impl RaidDataExt for RaidData {
    open spec fn spec_phase(&self) -> RaidPhase {
        phase_for(self.internal_phase)
    }

    fn phase(&self) -> (r: RaidPhase) {
        match self.internal_phase {
            InternalRaidPhase::Begin => RaidPhase::Begin,
            InternalRaidPhase::Summon => RaidPhase::Summon,
            InternalRaidPhase::Encounter => RaidPhase::Encounter,
            InternalRaidPhase::ApproachRoom => RaidPhase::ApproachRoom,
            InternalRaidPhase::Access => RaidPhase::Access(AccessPhase {  }),
        }
    }
}

/// The prompts that `phase` offers in `game`.
pub open spec fn spec_prompts(game: GameState, phase: RaidPhase) -> Seq<PromptAction> {
    match phase {
        RaidPhase::Access(_) => spec_access_actions(game).map_values(
            |a: AccessPhaseAction| PromptAction::AccessPhaseAction(a),
        ),
        _ => Seq::empty(),
    }
}

/// The actions that the `side` player can take in the raid, if any: none
/// outside the play phase, without a raid, or when the raid waits for the
/// other player.
pub open spec fn spec_current_actions(game: GameState, side: Side) -> Option<Seq<PromptAction>> {
    if game.info.phase != GamePhase::Play {
        None
    } else {
        match game.info.raid {
            Some(raid) => if raid.internal_phase.spec_active_side() == side && spec_prompts(
                game,
                phase_for(raid.internal_phase),
            ).len() > 0 {
                Some(spec_prompts(game, phase_for(raid.internal_phase)))
            } else {
                None
            },
            None => None,
        }
    }
}

/// The number of jumps still pending in the raid.
pub open spec fn pending_jumps(game: GameState) -> int {
    match game.info.raid {
        Some(raid) => if raid.jump_request is Some {
            1
        } else {
            0
        },
        None => 0,
    }
}

/// `after` is `before` with the raid phase set to `phase`.
pub open spec fn phase_set(before: GameState, after: GameState, phase: InternalRaidPhase) -> bool {
    &&& after.info == (GameInfo {
        raid: Some(RaidData { internal_phase: phase, ..before.info.raid->0 }),
        ..before.info
    })
    &&& after.overlord_cards == before.overlord_cards
    &&& after.champion_cards == before.champion_cards
    &&& after.same_players_and_logs(before)
}

impl RaidPhase {
    /// The prompts that this phase offers.
    pub fn prompts(self, game: &GameState) -> (r: Result<Vec<PromptAction>, GameError>)
        requires
            game.wf(),
            self is Access ==> game.info.raid is Some,
        ensures
            r matches Ok(p) && p@ == spec_prompts(*game, self),
    {
        match self {
            RaidPhase::Access(phase) => {
                let actions = match phase.actions(game) {
                    Ok(a) => a,
                    Err(e) => {
                        return Err(e);
                    },
                };
                let mut result: Vec<PromptAction> = Vec::new();
                let mut i: usize = 0;
                while i < actions.len()
                    invariant
                        i <= actions.len(),
                        result@ == actions@.subrange(0, i as int).map_values(
                            |a: AccessPhaseAction| PromptAction::AccessPhaseAction(a),
                        ),
                    decreases actions.len() - i,
                {
                    result.push(PromptAction::AccessPhaseAction(actions[i]));
                    proof {
                        assert(actions@.subrange(0, i + 1) == actions@.subrange(0, i as int).push(
                            actions@[i as int],
                        ));
                    }
                    i = i + 1;
                }
                proof {
                    assert(actions@.subrange(0, actions@.len() as int) == actions@);
                }
                Ok(result)
            },
            _ => Ok(Vec::new()),
        }
    }

    /// The context shown with this phase's prompt: none.
    pub fn prompt_context(self) -> (r: Option<PromptContext>)
        ensures
            r is None,
    {
        None
    }
}

/// Every access action offered for the cards `ids` names only cards of
/// `game`, when `ids` do.
proof fn lemma_access_action_ids(game: GameState, ids: Seq<CardId>)
    requires
        forall|i: int| 0 <= i < ids.len() ==> #[trigger] game.valid_id(ids[i]),
    ensures
        forall|k: int|
            0 <= k < access_actions_for(game, ids).len() ==> action_ids_valid(
                game,
                #[trigger] access_actions_for(game, ids)[k],
            ),
    decreases ids.len(),
{
    if ids.len() > 0 {
        let p = ids.drop_last();
        assert forall|i: int| 0 <= i < p.len() implies #[trigger] game.valid_id(p[i]) by {
            assert(game.valid_id(ids[i]));
        }
        lemma_access_action_ids(game, p);
        let s = access_actions_for(game, ids);
        let sp = access_actions_for(game, p);
        assert(game.valid_id(ids[ids.len() - 1]));
        assert forall|k: int| 0 <= k < s.len() implies action_ids_valid(game, #[trigger] s[k]) by {
            if k < sp.len() {
                assert(s[k] == sp[k]);
            }
        }
    }
}

/// Every prompt action offered in the access phase of `game` names only cards
/// of `game`.
proof fn lemma_prompt_ids(game: GameState, action: PromptAction)
    requires
        game.wf(),
        game.info.raid is Some,
        spec_prompts(game, RaidPhase::Access(AccessPhase {  })).contains(action),
    ensures
        action matches PromptAction::AccessPhaseAction(a) && action_ids_valid(game, a),
{
    let raid = game.info.raid->0;
    assert forall|i: int| 0 <= i < raid.accessed@.len() implies #[trigger] game.valid_id(
        raid.accessed@[i],
    ) by {
        assert(id_in_range(raid.accessed@[i], game.overlord_cards@.len(), game.champion_cards@.len()));
    }
    lemma_access_action_ids(game, raid.accessed@);
    let acts = spec_access_actions(game);
    let prompts = spec_prompts(game, RaidPhase::Access(AccessPhase {  }));
    let k = choose|k: int| 0 <= k < prompts.len() && prompts[k] == action;
    assert(prompts[k] == PromptAction::AccessPhaseAction(acts[k]));
    if k < acts.len() - 1 {
        assert(acts[k] == access_actions_for(game, raid.accessed@)[k]);
    }
}

/// Implements the jump request of the active raid, if there is one: the raid
/// moves to the room of the requested minion, to the encounter with it.
fn apply_jump(game: &mut GameState) -> (r: Result<Option<InternalRaidPhase>, GameError>)
    requires
        old(game).wf(),
    ensures
        final(game).wf(),
        pending_jumps(*final(game)) == 0 || *final(game) == *old(game),
        pending_jumps(*old(game)) == 0 ==> r == Ok::<Option<InternalRaidPhase>, GameError>(None)
            && *final(game) == *old(game),
        r matches Ok(Some(p)) ==> p == InternalRaidPhase::Encounter,
        r is Err ==> *final(game) == *old(game),
        match old(game).info.raid {
            Some(raid) => match raid.jump_request {
                Some(RaidJumpRequest::EncounterMinion(id)) => match spec_minion_position(
                    *old(game),
                    id,
                ) {
                    Some((room, index)) => {
                        &&& r == Ok::<Option<InternalRaidPhase>, GameError>(
                            Some(InternalRaidPhase::Encounter),
                        )
                        &&& final(game).info == (GameInfo {
                            raid: Some(
                                RaidData {
                                    target: room,
                                    encounter: Some(index),
                                    jump_request: None,
                                    ..raid
                                },
                            ),
                            ..old(game).info
                        })
                        &&& final(game).overlord_cards == old(game).overlord_cards
                        &&& final(game).champion_cards == old(game).champion_cards
                        &&& final(game).same_players_and_logs(*old(game))
                    },
                    None => r == Err::<Option<InternalRaidPhase>, GameError>(
                        GameError::MinionNotFound(id),
                    ),
                },
                None => true,
            },
            None => true,
        },
{
    let card_id = match &game.info.raid {
        Some(raid) => match raid.jump_request {
            Some(RaidJumpRequest::EncounterMinion(card_id)) => card_id,
            None => {
                return Ok(None);
            },
        },
        None => {
            return Ok(None);
        },
    };
    let (room_id, index) = match minion_position(game, card_id) {
        Some(p) => p,
        None => {
            return Err(GameError::MinionNotFound(card_id));
        },
    };
    match &mut game.info.raid {
        Some(raid) => {
            raid.target = room_id;
            raid.encounter = Some(index);
            raid.jump_request = None;
        },
        None => {},
    }
    Ok(Some(InternalRaidPhase::Encounter))
}

/// Sets the raid phase to `phase`, failing when there is no raid.
fn set_raid_phase(game: &mut GameState, phase: InternalRaidPhase) -> (r: Result<(), GameError>)
    requires
        old(game).wf(),
    ensures
        final(game).wf(),
        r is Err <==> old(game).info.raid is None,
        r is Err ==> *final(game) == *old(game),
        r is Ok ==> phase_set(*old(game), *final(game), phase),
{
    match &mut game.info.raid {
        Some(raid) => {
            raid.internal_phase = phase;
            Ok(())
        },
        None => Err(GameError::NoActiveRaid),
    }
}

/// Enters `phase`: its entry effects run. No phase of this crate asks to move
/// on by itself.
fn enter_raid_phase(game: &mut GameState, phase: RaidPhase) -> (r: Result<
    Option<InternalRaidPhase>,
    GameError,
>)
    requires
        old(game).wf(),
    ensures
        final(game).wf(),
        r is Ok ==> r == Ok::<Option<InternalRaidPhase>, GameError>(None),
        phase is Access && old(game).info.raid is None ==> r is Err && *final(game) == *old(game),
        phase is Access && old(game).info.raid is Some && r is Err ==> access_phase_fails(
            *old(game),
        ),
        phase is Access && r is Ok ==> access_phase_entered(*old(game), *final(game)),
        !(phase is Access) ==> r is Ok && *final(game) == *old(game),
        r is Ok && pending_jumps(*old(game)) == 0 ==> pending_jumps(*final(game)) == 0,
        r is Ok ==> (final(game).info.raid matches Some(a) ==> old(game).info.raid matches Some(b)
            && a.internal_phase == b.internal_phase),
{
    match phase {
        RaidPhase::Access(access) => access.enter(game),
        _ => Ok(None),
    }
}

/// `game` with the raid phase set to `phase`.
pub open spec fn with_raid_phase(game: GameState, phase: InternalRaidPhase) -> GameState {
    GameState {
        info: GameInfo {
            raid: Some(RaidData { internal_phase: phase, ..game.info.raid->0 }),
            ..game.info
        },
        ..game
    }
}

/// `after` is `before` once the raid has entered `phase`, with no jump
/// pending: the phase is set and, for the access phase, the phase has been
/// entered.
pub open spec fn raid_phase_entered(before: GameState, after: GameState, phase: InternalRaidPhase) -> bool {
    &&& phase != InternalRaidPhase::Access ==> phase_set(before, after, phase)
    &&& phase == InternalRaidPhase::Access ==> {
        &&& access_phase_entered(with_raid_phase(before, phase), after)
        &&& after.info.raid matches Some(raid) ==> raid.internal_phase == InternalRaidPhase::Access
    }
}

/// Sets the game to a new raid phase and invokes callbacks as needed, until
/// no phase asks to move on.
fn enter_phase(game: &mut GameState, new_phase: Option<InternalRaidPhase>) -> (r: Result<
    (),
    GameError,
>)
    requires
        old(game).wf(),
    ensures
        final(game).wf(),
        new_phase is None ==> r is Ok && *final(game) == *old(game),
        new_phase is Some && old(game).info.raid is Some && pending_jumps(*old(game)) == 0 ==> (r
            is Ok ==> raid_phase_entered(*old(game), *final(game), new_phase->0)) && (new_phase
            != Some(InternalRaidPhase::Access) ==> r is Ok),
{
    let ghost initial = new_phase;
    let mut phase = new_phase;
    let ghost mut first = true;
    loop
        invariant
            game.wf(),
            first ==> *game == *old(game) && phase == initial,
            initial == new_phase,
            !first ==> initial is Some,
            !first && initial is Some && old(game).info.raid is Some && pending_jumps(*old(game))
                == 0 ==> phase is None && raid_phase_entered(*old(game), *game, initial->0),
        ensures
            game.wf(),
            initial is None ==> *game == *old(game),
            initial is Some && old(game).info.raid is Some && pending_jumps(*old(game)) == 0
                ==> raid_phase_entered(*old(game), *game, initial->0),
        decreases (if phase is Some {
            1int
        } else {
            0int
        }) + pending_jumps(*game),
    {
        match phase {
            Some(s) => {
                let ghost g0 = *game;
                match set_raid_phase(game, s) {
                    Ok(()) => {},
                    Err(e) => {
                        return Err(e);
                    },
                }
                let ghost g1 = *game;
                let current = match &game.info.raid {
                    Some(raid) => raid.phase(),
                    None => RaidPhase::Begin,
                };
                let entered = match enter_raid_phase(game, current) {
                    Ok(n) => n,
                    Err(e) => {
                        return Err(e);
                    },
                };
                let ghost g2 = *game;
                let jumped = match apply_jump(game) {
                    Ok(j) => j,
                    Err(e) => {
                        return Err(e);
                    },
                };
                phase = match jumped {
                    Some(j) => Some(j),
                    None => entered,
                };
                proof {
                    if first && pending_jumps(g0) == 0 && g0.info.raid is Some {
                        assert(pending_jumps(g1) == 0);
                        assert(phase is None);
                        if s == InternalRaidPhase::Access {
                            assert(g1 == with_raid_phase(g0, s));
                        }
                    }
                    first = false;
                }
            },
            None => {
                return Ok(());
            },
        }
    }
}

/// What happens once a raid begins, before any other rule runs.
#[derive(Debug, Clone, Copy, PartialEq, Eq, Structural)]
pub enum RaidBeginHook {
    /// Nothing
    Nothing,
    /// The card records the id of the raid which it initiated.
    RecordRaidId(CardId),
}

/// `after` is `before` once a raid on `target` has been initiated, with the
/// hook `on_begin`: the raid has the next raid id and is in its begin phase,
/// its start was recorded for the client and in the history.
pub open spec fn raid_initiated(
    before: GameState,
    after: GameState,
    target: RoomId,
    initiated_by: InitiatedBy,
    on_begin: RaidBeginHook,
) -> bool {
    let raid_id = RaidId(before.info.next_raid_id);
    let raid = after.info.raid->0;
    &&& after.info == (GameInfo {
        raid: after.info.raid,
        next_raid_id: (before.info.next_raid_id + 1) as u32,
        ..before.info
    })
    &&& after.info.raid is Some
    &&& raid.raid_id == raid_id
    &&& raid.target == target
    &&& raid.internal_phase == InternalRaidPhase::Begin
    &&& raid.encounter is None
    &&& raid.accessed@.len() == 0
    &&& raid.jump_request is None
    &&& after.history@ == before.history@.push(
        HistoryEntry { turn: before.info.turn, event: HistoryEvent::RaidBegan(target) },
    )
    &&& before.updates.state == UpdateState::Push ==> {
        &&& after.updates.steps@.len() == before.updates.steps@.len() + 1
        &&& after.updates.steps@.last().update == GameUpdate::InitiateRaid(target, initiated_by)
    }
    &&& before.updates.state == UpdateState::Ignore ==> after.updates == before.updates
    &&& after.overlord == before.overlord
    &&& after.champion == before.champion
    &&& after.events == before.events
    &&& after.play_card == before.play_card
    &&& match on_begin {
        RaidBeginHook::Nothing => {
            &&& after.overlord_cards == before.overlord_cards
            &&& after.champion_cards == before.champion_cards
        },
        RaidBeginHook::RecordRaidId(card_id) => {
            &&& after.card_state(card_id) == (CardState {
                raid_id: Some(raid_id),
                ..before.card_state(card_id)
            })
            &&& after.cards_agree_except(before, card_id)
        },
    }
}

/// Starts a new raid, either as a result of an explicit game action or via a
/// card effect (as differentiated by the [InitiatedBy] prop). Applies
/// `on_begin` with the [RaidId] of this raid before any other game logic runs.
/// Fails, changing nothing, when no raid id is left.
pub fn initiate(
    game: &mut GameState,
    target_room: RoomId,
    initiated_by: InitiatedBy,
    on_begin: RaidBeginHook,
) -> (r: Result<(), GameError>)
    requires
        old(game).wf(),
        on_begin matches RaidBeginHook::RecordRaidId(c) ==> old(game).valid_id(c),
    ensures
        final(game).wf(),
        r is Err <==> old(game).info.next_raid_id == u32::MAX,
        r is Err ==> *final(game) == *old(game),
        r is Ok ==> raid_initiated(*old(game), *final(game), target_room, initiated_by, on_begin),
{
    if game.info.next_raid_id == u32::MAX {
        return Err(GameError::ValueOutOfRange);
    }
    let ghost g0 = *game;
    let raid_id = RaidId(game.info.next_raid_id);
    let phase = InternalRaidPhase::Begin;
    let raid = RaidData {
        target: target_room,
        raid_id,
        internal_phase: phase,
        encounter: None,
        accessed: Vec::new(),
        jump_request: None,
    };
    game.info.next_raid_id = game.info.next_raid_id + 1;
    game.info.raid = Some(raid);
    let ghost gm = *game;
    match on_begin {
        RaidBeginHook::Nothing => {},
        RaidBeginHook::RecordRaidId(card_id) => {
            game.set_card_raid_id(card_id, raid_id);
        },
    }
    let ghost g1 = *game;
    game.record_update(GameUpdate::InitiateRaid(target_room, initiated_by));
    let ghost g2 = *game;
    match enter_phase(game, Some(phase)) {
        Ok(()) => {},
        Err(e) => {
            return Err(e);
        },
    }
    let ghost g3 = *game;
    game.add_history_event(HistoryEvent::RaidBegan(target_room));
    proof {
        assert(phase_set(g2, g3, phase));
        match on_begin {
            RaidBeginHook::Nothing => {},
            RaidBeginHook::RecordRaidId(card_id) => {
                assert forall|c: CardId| #![trigger g0.card_state(c)]
                    game.valid_id(c) && c != card_id implies game.card_state(c) == g0.card_state(c) by {
                    assert(gm.card_state(c) == g0.card_state(c));
                    assert(g1.card_state(c) == gm.card_state(c));
                }
            },
        }
    }
    Ok(())
}

/// Whether the `side` player may initiate a raid on `room`: the Champion may,
/// during their turn in the play phase, with no raid active and an action
/// point to spend.
pub open spec fn spec_can_take_initiate_raid_action(game: GameState, side: Side, room: RoomId) -> bool {
    &&& side == Side::Champion
    &&& game.info.phase == GamePhase::Play
    &&& game.info.turn.side == side
    &&& game.info.raid is None
    &&& game.player_state(side).actions >= 1
}

/// Whether the `side` player may initiate a raid on `room`.
pub fn can_take_initiate_raid_action(game: &GameState, side: Side, room: RoomId) -> (r: bool)
    ensures
        r == spec_can_take_initiate_raid_action(*game, side, room),
{
    side == Side::Champion && game.info.phase == GamePhase::Play && game.info.turn.side == side
        && game.info.raid.is_none() && game.player(side).actions >= 1
}

/// Handle a client request to initiate a new raid. Deducts an action point and
/// then invokes [initiate].
pub fn handle_initiate_action(game: &mut GameState, user_side: Side, target_room: RoomId) -> (r:
    Result<(), GameError>)
    requires
        old(game).wf(),
    ensures
        final(game).wf(),
        !spec_can_take_initiate_raid_action(*old(game), user_side, target_room) ==> r
            == Err::<(), GameError>(GameError::CannotInitiateRaid) && *final(game) == *old(game),
        spec_can_take_initiate_raid_action(*old(game), user_side, target_room) ==> {
            &&& (r is Ok <==> old(game).info.next_raid_id < u32::MAX)
            &&& r is Ok ==> raid_initiated(
                GameState {
                    champion: PlayerState {
                        actions: (old(game).champion.actions - 1) as u32,
                        ..old(game).champion
                    },
                    ..*old(game)
                },
                *final(game),
                target_room,
                InitiatedBy::GameAction,
                RaidBeginHook::Nothing,
            )
        },
{
    if !can_take_initiate_raid_action(game, user_side, target_room) {
        return Err(GameError::CannotInitiateRaid);
    }
    match game.spend_action_points(user_side, 1) {
        Ok(()) => {},
        Err(e) => {
            return Err(e);
        },
    }
    let ghost g1 = *game;
    let r = initiate(game, target_room, InitiatedBy::GameAction, RaidBeginHook::Nothing);
    proof {
        assert(g1 == GameState {
            champion: PlayerState {
                actions: (old(game).champion.actions - 1) as u32,
                ..old(game).champion
            },
            ..*old(game)
        });
    }
    r
}

/// Whether `actions` contains `action`.
fn contains_action(actions: &Vec<PromptAction>, action: PromptAction) -> (r: bool)
    ensures
        r == actions@.contains(action),
{
    let mut i: usize = 0;
    while i < actions.len()
        invariant
            i <= actions.len(),
            forall|j: int| 0 <= j < i ==> actions@[j] != action,
        decreases actions.len() - i,
    {
        if actions[i] == action {
            return true;
        }
        i = i + 1;
    }
    false
}

impl RaidPhase {
    /// Handles `action` in this phase. Only the access phase accepts actions.
    pub fn handle_prompt(self, game: &mut GameState, action: PromptAction) -> (r: Result<
        Option<InternalRaidPhase>,
        GameError,
    >)
        requires
            old(game).wf(),
            action matches PromptAction::AccessPhaseAction(a) ==> action_ids_valid(*old(game), a),
        ensures
            final(game).wf(),
            !(self is Access) ==> r == Err::<Option<InternalRaidPhase>, GameError>(
                GameError::UnexpectedAction,
            ) && *final(game) == *old(game),
            self is Access ==> match action {
                PromptAction::AccessPhaseAction(a) => {
                    &&& !(a is EndRaid) ==> (r is Ok <==> access_action_succeeds(*old(game), a))
                    &&& r is Ok ==> access_action_succeeds(*old(game), a)
                    &&& r is Err ==> access_action_fails(*old(game), a)
                    &&& r is Ok ==> r == Ok::<Option<InternalRaidPhase>, GameError>(None)
                        && access_action_applied(*old(game), *final(game), a)
                },
                _ => r == Err::<Option<InternalRaidPhase>, GameError>(
                    GameError::ExpectedAccessPhaseAction,
                ) && *final(game) == *old(game),
            },
    {
        match self {
            RaidPhase::Access(phase) => {
                let a = match AccessPhase::unwrap(action) {
                    Ok(a) => a,
                    Err(e) => {
                        return Err(e);
                    },
                };
                phase.handle_action(game, a)
            },
            _ => Err(GameError::UnexpectedAction),
        }
    }
}

/// Handles a [PromptAction] supplied by a user during a raid. Returns an error
/// if no raid is currently active or if this action was not expected from this
/// player.
pub fn handle_action(game: &mut GameState, user_side: Side, action: PromptAction) -> (r: Result<
    (),
    GameError,
>)
    requires
        old(game).wf(),
    ensures
        final(game).wf(),
        old(game).info.raid is None ==> r == Err::<(), GameError>(GameError::NoActiveRaid)
            && *final(game) == *old(game),
        old(game).info.raid matches Some(raid) ==> {
            let phase = raid.internal_phase;
            &&& phase.spec_active_side() != user_side ==> r == Err::<(), GameError>(
                GameError::UnexpectedSide,
            ) && *final(game) == *old(game)
            &&& phase.spec_active_side() == user_side && !spec_prompts(*old(game), phase_for(phase)).contains(action)
                ==> r == Err::<(), GameError>(GameError::UnexpectedAction) && *final(game) == *old(game)
            &&& phase.spec_active_side() == user_side && spec_prompts(*old(game), phase_for(phase)).contains(action)
                && raid.jump_request is None ==> match action {
                PromptAction::AccessPhaseAction(a) => {
                    &&& !(a is EndRaid) ==> (r is Ok <==> access_action_succeeds(*old(game), a))
                    &&& r is Ok ==> access_action_succeeds(*old(game), a)
                    &&& r is Err ==> access_action_fails(*old(game), a)
                    &&& r is Ok ==> access_action_applied(*old(game), *final(game), a)
                },
                _ => false,
            }
        },
{
    let (phase, active_side) = match game.raid() {
        Ok(raid) => (raid.phase(), raid.internal_phase.active_side()),
        Err(e) => {
            return Err(e);
        },
    };
    if active_side != user_side {
        return Err(GameError::UnexpectedSide);
    }
    let prompts = match phase.prompts(game) {
        Ok(p) => p,
        Err(e) => {
            return Err(e);
        },
    };
    if !contains_action(&prompts, action) {
        return Err(GameError::UnexpectedAction);
    }
    proof {
        if phase is Access {
            lemma_prompt_ids(*game, action);
        }
    }
    let ghost g0 = *game;
    let handled = match phase.handle_prompt(game, action) {
        Ok(n) => n,
        Err(e) => {
            return Err(e);
        },
    };
    let ghost g1 = *game;
    let jumped = match apply_jump(game) {
        Ok(j) => j,
        Err(e) => {
            return Err(e);
        },
    };
    let new_state = match jumped {
        Some(j) => Some(j),
        None => handled,
    };
    if game.info.raid.is_some() {
        let r = enter_phase(game, new_state);
        proof {
            if g0.info.raid->0.jump_request is None {
                assert(pending_jumps(g1) == 0);
                assert(new_state is None);
            }
        }
        r
    } else {
        Ok(())
    }
}

/// Returns a list of the user actions which are possible in the current raid
/// state for the `side` player, or `None` if no such actions are possible.
pub fn current_actions(game: &GameState, user_side: Side) -> (r: Result<
    Option<Vec<PromptAction>>,
    GameError,
>)
    requires
        game.wf(),
    ensures
        r matches Ok(x) && match x {
            Some(v) => spec_current_actions(*game, user_side) == Some(v@),
            None => spec_current_actions(*game, user_side) is None,
        },
{
    if game.info.phase != GamePhase::Play {
        return Ok(None);
    }
    match &game.info.raid {
        Some(raid) => {
            if raid.internal_phase.active_side() == user_side {
                let prompts = match raid.phase().prompts(game) {
                    Ok(p) => p,
                    Err(e) => {
                        return Err(e);
                    },
                };
                if prompts.len() > 0 {
                    return Ok(Some(prompts));
                }
            }
        },
        None => {},
    }
    Ok(None)
}

/// Builds a [GamePrompt] representing the possible actions for the `side` user,
/// as determined by the [current_actions] function.
pub fn current_prompt(game: &GameState, user_side: Side) -> (r: Result<
    Option<GamePrompt>,
    GameError,
>)
    requires
        game.wf(),
    ensures
        r matches Ok(x) && match spec_current_actions(*game, user_side) {
            Some(actions) => x matches Some(GamePrompt::ButtonPrompt(p)) && p.context is None
                && p.responses@ == actions,
            None => x is None,
        },
{
    match current_actions(game, user_side) {
        Ok(Some(actions)) => {
            let context = match game.raid() {
                Ok(raid) => raid.phase().prompt_context(),
                Err(e) => {
                    return Err(e);
                },
            };
            Ok(Some(GamePrompt::ButtonPrompt(ButtonPrompt { context, responses: actions })))
        },
        Ok(None) => Ok(None),
        Err(e) => Err(e),
    }
}

/// The raid accepts the actions it offers: an action among those that
/// [current_actions] offers a player comes from the side whom the raid waits
/// for and is among the actions of its phase, so [handle_action] refuses it
/// neither for its side nor as unexpected. During the play phase, an action
/// of a player whom the raid waits for that is not offered is refused as
/// unexpected.
pub proof fn lemma_offered_actions_accepted(game: GameState, side: Side, action: PromptAction)
    ensures
        spec_current_actions(game, side) matches Some(actions) && actions.contains(action) ==> (
        game.info.raid matches Some(raid) && raid.internal_phase.spec_active_side() == side
            && spec_prompts(game, phase_for(raid.internal_phase)).contains(action)),
        game.info.phase == GamePhase::Play && game.info.raid is Some
            && game.info.raid->0.internal_phase.spec_active_side() == side && !(spec_current_actions(
            game,
            side,
        ) matches Some(actions) && actions.contains(action)) ==> !spec_prompts(
            game,
            phase_for(game.info.raid->0.internal_phase),
        ).contains(action),
{
}

/// Who may start a raid: exactly the Champion, on their own turn in the
/// play phase, while no raid is under way, holding at least the one action
/// point that a raid costs.
pub proof fn lemma_who_may_raid(game: GameState, side: Side, room: RoomId)
    ensures
        spec_can_take_initiate_raid_action(game, side, room) <==> (side == Side::Champion
            && game.info.phase == GamePhase::Play && game.info.turn.side == Side::Champion
            && game.info.raid is None && game.champion.actions >= 1),
{
}

} // verus!
