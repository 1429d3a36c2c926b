//! Final step of a raid, in which cards are accessed by the Champion.

use vstd::prelude::*;

use crate::card_definition::{EventSubject, RaidOutcome};
use crate::effects::raid_kept_or_ended;
use crate::dispatch::{
    end_raid_announced, raid_end_dispatched, raid_end_fails, record_and_fire, recorded_and_dispatched, recorded_dispatch_fails, EventKind,
};
use crate::error::GameError;
use crate::game_actions::{AccessPhaseAction, PromptAction, RazeCardActionType};
use crate::game_state::{
    CardPosition, CardState, GameEvent, GameInfo, GameState, InternalRaidPhase, PlayerState,
    RaidData, id_in_range,
};
use crate::game_updates::{GameUpdate, UpdateState};
use crate::primitives::{CardId, CardType, RoomId, Side};
use crate::queries::{
    card_list, lemma_matching_ids, occupants, occupants_filter, raze_cost, sanctum_access_count,
    selected_cards, spec_raze_cost, vault_access_count, CardFilter,
};
use crate::selection::{
    chosen_are_topmost, deck_cards, is_selection_of, random_cards_in_position, top_of_deck,
};

verus! {

/// What the client shows while the raid is in a phase.
#[derive(Debug, Clone, Copy, PartialEq, Eq, Structural)]
pub enum RaidDisplayState {
    Defenders,
    Access,
}

/// Final step of a raid, in which cards are accessed by the Champion
#[derive(Debug, Clone, Copy, PartialEq, Eq, Structural)]
pub struct AccessPhase {}

/// `accessed` are the cards accessed in a raid on `target` in `game`: the top
/// card of the vault, a random card of the sanctum, every card of the crypts,
/// or every occupant of another room.
pub open spec fn accessed_cards_for(game: GameState, target: RoomId, accessed: Seq<CardId>) -> bool {
    match target {
        RoomId::Vault => {
            &&& is_selection_of(accessed, deck_cards(game, Side::Overlord), 1)
            &&& chosen_are_topmost(game, accessed, deck_cards(game, Side::Overlord))
        },
        RoomId::Sanctum => is_selection_of(
            accessed,
            selected_cards(
                game,
                Side::Overlord,
                CardFilter::InPosition(CardPosition::Hand(Side::Overlord)),
            ),
            1,
        ),
        RoomId::Crypts => accessed == selected_cards(
            game,
            Side::Overlord,
            CardFilter::InPosition(CardPosition::DiscardPile(Side::Overlord)),
        ),
        _ => accessed == selected_cards(game, Side::Overlord, occupants_filter(target)),
    }
}

/// `after` is `before` with, at most, the random generator advanced, which
/// happens only for a raid on the sanctum.
pub open spec fn rng_advanced_for(before: GameInfo, after: GameInfo, target: RoomId) -> bool {
    &&& after == (GameInfo { rng_state: after.rng_state, ..before })
    &&& target != RoomId::Sanctum ==> after.rng_state == before.rng_state
}

/// Every id of `ids` names an Overlord card of `game`.
pub open spec fn overlord_ids(game: GameState, ids: Seq<CardId>) -> bool {
    forall|i: int|
        0 <= i < ids.len() ==> (#[trigger] ids[i]).side == Side::Overlord && game.valid_id(ids[i])
}

/// Returns the cards accessed for the current raid target, advancing the
/// game's random generator when it chooses them at random.
pub fn select_accessed_cards(game: &mut GameState) -> (r: Result<Vec<CardId>, GameError>)
    requires
        old(game).wf(),
    ensures
        final(game).wf(),
        r is Err <==> old(game).info.raid is None,
        r matches Err(e) ==> e == GameError::NoActiveRaid && *final(game) == *old(game),
        r matches Ok(accessed) ==> {
            &&& accessed_cards_for(*old(game), old(game).info.raid->0.target, accessed@)
            &&& overlord_ids(*old(game), accessed@)
        },
        rng_advanced_for(old(game).info, final(game).info, old(game).info.raid->0.target),
        final(game).overlord_cards == old(game).overlord_cards,
        final(game).champion_cards == old(game).champion_cards,
        final(game).same_players_and_logs(*old(game)),
{
    let target = match game.raid() {
        Ok(raid) => raid.target,
        Err(e) => {
            return Err(e);
        },
    };
    let n = game.card_count(Side::Overlord);
    let ghost before = *game;
    let accessed = match target {
        RoomId::Vault => {
            let count = vault_access_count(game);
            top_of_deck(game, Side::Overlord, count as usize)
        },
        RoomId::Sanctum => {
            let count = sanctum_access_count(game);
            random_cards_in_position(
                game,
                Side::Overlord,
                CardPosition::Hand(Side::Overlord),
                count as usize,
            )
        },
        RoomId::Crypts => card_list(
            game,
            Side::Overlord,
            CardFilter::InPosition(CardPosition::DiscardPile(Side::Overlord)),
        ),
        _ => occupants(game, target),
    };
    proof {
        let filter = match target {
            RoomId::Vault => CardFilter::InPosition(CardPosition::Deck(Side::Overlord)),
            RoomId::Sanctum => CardFilter::InPosition(CardPosition::Hand(Side::Overlord)),
            RoomId::Crypts => CardFilter::InPosition(CardPosition::DiscardPile(Side::Overlord)),
            _ => occupants_filter(target),
        };
        let pool = selected_cards(before, Side::Overlord, filter);
        lemma_matching_ids(before.cards(Side::Overlord), Side::Overlord, filter);
        assert forall|i: int| 0 <= i < accessed@.len() implies (#[trigger] accessed@[i]).side
            == Side::Overlord && before.valid_id(accessed@[i]) by {
            assert(pool.contains(accessed@[i]));
            let k = choose|k: int| 0 <= k < pool.len() && pool[k] == accessed@[i];
        }
    }
    Ok(accessed)
}

/// Can the Champion score `card_id` when accessed during a raid: it is among
/// the accessed cards and is worth points.
pub open spec fn spec_can_score_card(game: GameState, card_id: CardId) -> bool {
    match game.info.raid {
        Some(raid) => raid.accessed@.contains(card_id)
            && game.card_state(card_id).definition.config.stats.scheme_points is Some,
        None => false,
    }
}

/// Can the Champion raze the `card_id` project when accessed during a raid:
/// it is not in a discard pile and the Champion can pay its raze cost.
pub open spec fn spec_can_raze_project(game: GameState, card_id: CardId) -> bool {
    !game.card_state(card_id).position.is_in_discard_pile() && spec_raze_cost(game, card_id)
        <= game.champion.mana
}

/// The action which the Champion can take on the accessed `card_id`, if any.
pub open spec fn spec_access_action_for_card(game: GameState, card_id: CardId) -> Option<
    AccessPhaseAction,
> {
    let card_type = game.card_state(card_id).definition.card_type;
    if card_type == CardType::Scheme && spec_can_score_card(game, card_id) {
        Some(AccessPhaseAction::ScoreCard(card_id))
    } else if card_type == CardType::Project && spec_can_raze_project(game, card_id) {
        Some(
            AccessPhaseAction::RazeCard(
                card_id,
                if game.card_state(card_id).position.is_in_play() {
                    RazeCardActionType::Destroy
                } else {
                    RazeCardActionType::Discard
                },
                spec_raze_cost(game, card_id),
            ),
        )
    } else {
        None
    }
}

/// The actions for the cards `ids`, in order, leaving out cards with none.
pub open spec fn access_actions_for(game: GameState, ids: Seq<CardId>) -> Seq<AccessPhaseAction>
    decreases ids.len(),
{
    if ids.len() == 0 {
        Seq::empty()
    } else {
        access_actions_for(game, ids.drop_last()) + match spec_access_action_for_card(
            game,
            ids.last(),
        ) {
            Some(a) => seq![a],
            None => Seq::empty(),
        }
    }
}

/// The actions offered in the access phase: one for each accessed card which
/// can be scored or razed, in order, then ending the raid.
pub open spec fn spec_access_actions(game: GameState) -> Seq<AccessPhaseAction> {
    access_actions_for(game, game.info.raid->0.accessed@).push(AccessPhaseAction::EndRaid)
}

/// `ids` without `id`, order kept.
pub open spec fn without(ids: Seq<CardId>, id: CardId) -> Seq<CardId>
    decreases ids.len(),
{
    if ids.len() == 0 {
        Seq::empty()
    } else {
        without(ids.drop_last(), id) + if ids.last() == id {
            Seq::empty()
        } else {
            seq![ids.last()]
        }
    }
}

/// Every element of `without(ids, id)` is an element of `ids`.
proof fn lemma_without_subset(ids: Seq<CardId>, id: CardId)
    ensures
        forall|k: int|
            0 <= k < without(ids, id).len() ==> ids.contains(#[trigger] without(ids, id)[k]),
        without(ids, id).len() <= ids.len(),
        !without(ids, id).contains(id),
    decreases ids.len(),
{
    if ids.len() > 0 {
        lemma_without_subset(ids.drop_last(), id);
        let w = without(ids, id);
        let wp = without(ids.drop_last(), id);
        assert forall|k: int| 0 <= k < w.len() implies ids.contains(#[trigger] w[k]) by {
            if k < wp.len() {
                assert(w[k] == wp[k]);
                let j = choose|j: int|
                    0 <= j < ids.drop_last().len() && ids.drop_last()[j] == wp[k];
                assert(ids[j] == w[k]);
            } else {
                assert(w[k] == ids.last());
                assert(ids[ids.len() - 1] == w[k]);
            }
        }
        if w.contains(id) {
            let j = choose|j: int| 0 <= j < w.len() && w[j] == id;
            if j < wp.len() {
                assert(w[j] == wp[j]);
            }
        }
    }
}

/// `ids` without `id`.
fn remove_id(ids: &Vec<CardId>, id: CardId) -> (r: Vec<CardId>)
    ensures
        r@ == without(ids@, id),
{
    let mut result: Vec<CardId> = Vec::new();
    let mut i: usize = 0;
    while i < ids.len()
        invariant
            i <= ids.len(),
            result@ == without(ids@.subrange(0, i as int), id),
        decreases ids.len() - i,
    {
        proof {
            assert(ids@.subrange(0, i + 1).drop_last() == ids@.subrange(0, i as int));
        }
        if ids[i] != id {
            result.push(ids[i]);
        }
        i = i + 1;
    }
    proof {
        assert(ids@.subrange(0, ids@.len() as int) == ids@);
    }
    result
}

/// Removes `card_id` from the accessed cards of the active raid; fails,
/// changing nothing, when no raid is active.
fn remove_from_accessed(game: &mut GameState, card_id: CardId) -> (r: Result<(), GameError>)
    requires
        old(game).wf(),
    ensures
        final(game).wf(),
        r is Err <==> old(game).info.raid is None,
        r matches Err(e) ==> e == GameError::NoActiveRaid && *final(game) == *old(game),
        r is Ok ==> final(game).info == (GameInfo {
            raid: Some(
                RaidData {
                    accessed: final(game).info.raid->0.accessed,
                    ..old(game).info.raid->0
                },
            ),
            ..old(game).info
        }),
        r is Ok ==> final(game).info.raid->0.accessed@ == without(
            old(game).info.raid->0.accessed@,
            card_id,
        ),
        final(game).overlord_cards == old(game).overlord_cards,
        final(game).champion_cards == old(game).champion_cards,
        final(game).same_players_and_logs(*old(game)),
{
    let ghost before = *game;
    match &mut game.info.raid {
        Some(raid) => {
            let accessed = remove_id(&raid.accessed, card_id);
            proof {
                lemma_without_subset(raid.accessed@, card_id);
            }
            raid.accessed = accessed;
        },
        None => {
            return Err(GameError::NoActiveRaid);
        },
    }
    proof {
        let raid = game.info.raid->0;
        let (oc, cc) = (game.overlord_cards@.len(), game.champion_cards@.len());
        assert forall|i: int| 0 <= i < raid.accessed@.len() implies #[trigger] id_in_range(
            raid.accessed@[i],
            oc,
            cc,
        ) by {
            let old_accessed = before.info.raid->0.accessed@;
            assert(old_accessed.contains(raid.accessed@[i]));
            let k = choose|k: int| 0 <= k < old_accessed.len() && old_accessed[k] == raid.accessed@[i];
            assert(id_in_range(old_accessed[k], oc, cc));
        }
    }
    Ok(())
}

/// A copy of `ids`.
pub fn copy_ids(ids: &Vec<CardId>) -> (r: Vec<CardId>)
    ensures
        r@ == ids@,
{
    let mut result: Vec<CardId> = Vec::new();
    let mut i: usize = 0;
    while i < ids.len()
        invariant
            i <= ids.len(),
            result@ == ids@.subrange(0, i as int),
        decreases ids.len() - i,
    {
        result.push(ids[i]);
        i = i + 1;
    }
    proof {
        assert(ids@.subrange(0, ids@.len() as int) == ids@);
    }
    result
}

/// Can the Champion player score the `card_id` card when accessed during a
/// raid?
pub fn can_score_card(game: &GameState, card_id: CardId) -> (r: bool)
    requires
        game.valid_id(card_id),
    ensures
        r == spec_can_score_card(*game, card_id),
{
    let raid = match &game.info.raid {
        Some(r) => r,
        None => {
            return false;
        },
    };
    let mut i: usize = 0;
    let mut found = false;
    while i < raid.accessed.len()
        invariant
            i <= raid.accessed.len(),
            found == raid.accessed@.subrange(0, i as int).contains(card_id),
        decreases raid.accessed.len() - i,
    {
        proof {
            let s = raid.accessed@.subrange(0, i + 1);
            assert(s.drop_last() == raid.accessed@.subrange(0, i as int));
            assert(s.contains(card_id) <==> (s.drop_last().contains(card_id) || s.last()
                == card_id)) by {
                if s.contains(card_id) {
                    let k = choose|k: int| 0 <= k < s.len() && s[k] == card_id;
                    if k < s.len() - 1 {
                        assert(s.drop_last()[k] == card_id);
                    }
                }
                if s.drop_last().contains(card_id) {
                    let k = choose|k: int| 0 <= k < s.drop_last().len() && s.drop_last()[k] == card_id;
                    assert(s[k] == card_id);
                }
            }
        }
        if raid.accessed[i] == card_id {
            found = true;
        }
        i = i + 1;
    }
    proof {
        assert(raid.accessed@.subrange(0, raid.accessed@.len() as int) == raid.accessed@);
    }
    found && game.card(card_id).definition.config.stats.scheme_points.is_some()
}

/// Can the Champion player raze the `card_id` project when accessed during a
/// raid?
pub fn can_raze_project(game: &GameState, card_id: CardId) -> (r: bool)
    requires
        game.valid_id(card_id),
    ensures
        r == spec_can_raze_project(*game, card_id),
{
    !game.card(card_id).position.in_discard_pile() && raze_cost(game, card_id)
        <= game.champion.mana
}

/// Returns an [AccessPhaseAction] for the Champion to access the provided
/// `card_id`, if any action can be taken.
pub fn access_action_for_card(game: &GameState, card_id: CardId) -> (r: Option<AccessPhaseAction>)
    requires
        game.valid_id(card_id),
    ensures
        r == spec_access_action_for_card(*game, card_id),
{
    match game.card(card_id).definition.card_type {
        CardType::Scheme => {
            if can_score_card(game, card_id) {
                Some(AccessPhaseAction::ScoreCard(card_id))
            } else {
                None
            }
        },
        CardType::Project => {
            if can_raze_project(game, card_id) {
                let raze_type = if game.card(card_id).position.in_play() {
                    RazeCardActionType::Destroy
                } else {
                    RazeCardActionType::Discard
                };
                Some(AccessPhaseAction::RazeCard(card_id, raze_type, raze_cost(game, card_id)))
            } else {
                None
            }
        },
        _ => None,
    }
}

/// Scoring `card_id` succeeds: the game has two sorting keys left, a raid is
/// active, the card is worth points and the Champion's score can take them.
pub open spec fn score_card_succeeds(game: GameState, card_id: CardId) -> bool {
    &&& game.info.next_sorting_key + 2 <= u64::MAX
    &&& game.info.raid is Some
    &&& game.card_state(card_id).definition.config.stats.scheme_points is Some
    &&& game.champion.score + game.card_state(
        card_id,
    ).definition.config.stats.scheme_points->0.points <= u32::MAX
}

/// `after` is `before` once the Champion has scored `card_id`: it is face up in
/// the Champion's score area, it is no longer accessed, its points are added
/// to the Champion's score, and the scoring was recorded.
pub open spec fn card_scored(before: GameState, after: GameState, card_id: CardId) -> bool {
    let key = before.info.next_sorting_key;
    let points = before.card_state(card_id).definition.config.stats.scheme_points->0.points;
    &&& after.card_state(card_id) == (CardState {
        face_up: true,
        position: CardPosition::Scored(Side::Champion),
        sorting_key: (key + 1) as u64,
        ..before.card_state(card_id)
    })
    &&& after.cards_agree_except(before, card_id)
    &&& after.info == (GameInfo {
        next_sorting_key: (key + 2) as u64,
        raid: Some(RaidData { accessed: after.info.raid->0.accessed, ..before.info.raid->0 }),
        ..before.info
    })
    &&& after.info.raid->0.accessed@ == without(before.info.raid->0.accessed@, card_id)
    &&& after.champion == (PlayerState { score: (before.champion.score + points) as u32, ..before.champion })
    &&& after.overlord == before.overlord
    &&& after.events@ == before.events@ + seq![
        GameEvent::ChampionScoreCard(card_id),
        GameEvent::ScoreCard(Side::Champion, card_id),
    ]
    &&& before.updates.state == UpdateState::Push ==> {
        &&& after.updates.steps@.len() == before.updates.steps@.len() + 1
        &&& after.updates.steps@.last().update == GameUpdate::ScoreCard(Side::Champion, card_id)
    }
    &&& before.updates.state == UpdateState::Ignore ==> after.updates == before.updates
    &&& after.history == before.history
    &&& after.play_card == before.play_card
}

/// The Champion scores the accessed `card_id`.
pub fn handle_score_card(game: &mut GameState, card_id: CardId) -> (r: Result<(), GameError>)
    requires
        old(game).wf(),
        old(game).valid_id(card_id),
    ensures
        final(game).wf(),
        r is Ok <==> score_card_succeeds(*old(game), card_id),
        r is Ok ==> card_scored(*old(game), *final(game), card_id),
        old(game).info.next_sorting_key < u64::MAX && old(game).info.raid is Some && old(
            game,
        ).card_state(card_id).definition.config.stats.scheme_points is None ==> r == Err::<
            (),
            GameError,
        >(GameError::MissingSchemePoints(card_id)),
{
    let ghost g0 = *game;
    game.turn_face_up(card_id);
    match game.move_card(card_id, CardPosition::Scoring) {
        Ok(()) => {},
        Err(e) => {
            return Err(e);
        },
    }
    match remove_from_accessed(game, card_id) {
        Ok(()) => {},
        Err(e) => {
            return Err(e);
        },
    }
    game.record_update(GameUpdate::ScoreCard(Side::Champion, card_id));
    game.invoke_event(GameEvent::ChampionScoreCard(card_id));
    game.invoke_event(GameEvent::ScoreCard(Side::Champion, card_id));
    let scheme_points = match game.card(card_id).definition.config.stats.scheme_points {
        Some(p) => p,
        None => {
            return Err(GameError::MissingSchemePoints(card_id));
        },
    };
    match game.score_points(Side::Champion, scheme_points.points) {
        Ok(()) => {},
        Err(e) => {
            return Err(e);
        },
    }
    let ghost g5 = *game;
    let moved = game.move_card(card_id, CardPosition::Scored(Side::Champion));
    proof {
        if moved is Ok {
            assert(game.events@ == g0.events@ + seq![
                GameEvent::ChampionScoreCard(card_id),
                GameEvent::ScoreCard(Side::Champion, card_id),
            ]);
            assert forall|c: CardId| #![trigger g0.card_state(c)]
                game.valid_id(c) && c != card_id implies game.card_state(c) == g0.card_state(c) by {
                assert(g5.card_state(c) == game.card_state(c));
            }
        }
    }
    moved
}

/// Razing `card_id` succeeds: the Champion can pay its raze cost, a sorting
/// key is left and a raid is active.
pub open spec fn raze_card_succeeds(game: GameState, card_id: CardId) -> bool {
    &&& spec_raze_cost(game, card_id) <= game.champion.mana
    &&& game.info.next_sorting_key < u64::MAX
    &&& game.info.raid is Some
}

/// `after` is `before` once the Champion has razed `card_id`: the Champion
/// paid its raze cost, it is in the Overlord's discard pile and no longer
/// accessed.
pub open spec fn card_razed(before: GameState, after: GameState, card_id: CardId) -> bool {
    let key = before.info.next_sorting_key;
    &&& after.card_state(card_id) == (CardState {
        position: CardPosition::DiscardPile(Side::Overlord),
        sorting_key: key,
        ..before.card_state(card_id)
    })
    &&& after.cards_agree_except(before, card_id)
    &&& after.info == (GameInfo {
        next_sorting_key: (key + 1) as u64,
        raid: Some(RaidData { accessed: after.info.raid->0.accessed, ..before.info.raid->0 }),
        ..before.info
    })
    &&& after.info.raid->0.accessed@ == without(before.info.raid->0.accessed@, card_id)
    &&& after.champion == (PlayerState {
        mana: (before.champion.mana - spec_raze_cost(before, card_id)) as u32,
        ..before.champion
    })
    &&& after.overlord == before.overlord
    &&& after.events == before.events
    &&& after.updates == before.updates
    &&& after.history == before.history
    &&& after.play_card == before.play_card
}

/// The Champion razes the accessed `card_id`.
pub fn handle_raze_card(game: &mut GameState, card_id: CardId) -> (r: Result<(), GameError>)
    requires
        old(game).wf(),
        old(game).valid_id(card_id),
    ensures
        final(game).wf(),
        r is Ok <==> raze_card_succeeds(*old(game), card_id),
        r is Ok ==> card_razed(*old(game), *final(game), card_id),
{
    let cost = raze_cost(game, card_id);
    match game.spend_mana(Side::Champion, cost) {
        Ok(()) => {},
        Err(e) => {
            return Err(e);
        },
    }
    match game.move_card(card_id, CardPosition::DiscardPile(Side::Overlord)) {
        Ok(()) => {},
        Err(e) => {
            return Err(e);
        },
    }
    remove_from_accessed(game, card_id)
}

/// The card ids that `action` names are cards of `game`.
pub open spec fn action_ids_valid(game: GameState, action: AccessPhaseAction) -> bool {
    match action {
        AccessPhaseAction::ScoreCard(id) => game.valid_id(id),
        AccessPhaseAction::RazeCard(id, _, _) => game.valid_id(id),
        AccessPhaseAction::EndRaid => true,
    }
}

/// Handling `action` succeeds in `game`.
pub open spec fn access_action_succeeds(game: GameState, action: AccessPhaseAction) -> bool {
    match action {
        AccessPhaseAction::ScoreCard(id) => score_card_succeeds(game, id),
        AccessPhaseAction::RazeCard(id, _, _) => raze_card_succeeds(game, id),
        AccessPhaseAction::EndRaid => game.info.raid is Some,
    }
}

/// Handling `action` in `game` fails: scoring or razing cannot be done, or
/// there is no raid to end, or dispatching the raid's end fails.
pub open spec fn access_action_fails(game: GameState, action: AccessPhaseAction) -> bool {
    match action {
        AccessPhaseAction::ScoreCard(id) => !score_card_succeeds(game, id),
        AccessPhaseAction::RazeCard(id, _, _) => !raze_card_succeeds(game, id),
        AccessPhaseAction::EndRaid => game.info.raid is None || raid_end_fails(
            game,
            RaidOutcome::Success,
        ),
    }
}

/// `after` is `before` once `action` has been handled.
pub open spec fn access_action_applied(
    before: GameState,
    after: GameState,
    action: AccessPhaseAction,
) -> bool {
    match action {
        AccessPhaseAction::ScoreCard(id) => card_scored(before, after, id),
        AccessPhaseAction::RazeCard(id, _, _) => card_razed(before, after, id),
        AccessPhaseAction::EndRaid => raid_end_dispatched(before, after, RaidOutcome::Success),
    }
}

/// `shown` is `started` once the cards accessed were selected for the raid
/// target and revealed to the Champion, and the selection was recorded.
pub open spec fn accessed_cards_shown(started: GameState, shown: GameState) -> bool {
    let raid = started.info.raid->0;
    let accessed = shown.info.raid->0.accessed@;
    &&& accessed_cards_for(started, raid.target, accessed)
    &&& overlord_ids(started, accessed)
    &&& shown.info.raid == Some(RaidData { accessed: shown.info.raid->0.accessed, ..raid })
    &&& rng_advanced_for(
        started.info,
        GameInfo { raid: started.info.raid, ..shown.info },
        raid.target,
    )
    &&& shown.events@ == started.events@.push(
        GameEvent::RaidAccessSelected(raid.raid_id, raid.target),
    )
    &&& shown.overlord_cards@.len() == started.overlord_cards@.len()
    &&& shown.champion_cards@.len() == started.champion_cards@.len()
    &&& forall|c: CardId|
        #![trigger shown.card_state(c)]
        started.valid_id(c) ==> shown.card_state(c) == if accessed.contains(c) {
            CardState { revealed_to_champion: true, ..started.card_state(c) }
        } else {
            started.card_state(c)
        }
    &&& shown.same_players_and_logs_but_events(started)
}

/// `states` are the games that the accesses of the cards `accessed` leave,
/// one after the other, from `states[0]`: each access is recorded and
/// dispatched.
pub open spec fn is_access_run(states: Seq<GameState>, accessed: Seq<CardId>) -> bool {
    &&& states.len() == accessed.len() + 1
    &&& forall|j: int|
        #![trigger states[j]]
        0 <= j < accessed.len() ==> recorded_and_dispatched(
            states[j],
            states[j + 1],
            GameEvent::CardAccess(accessed[j]),
            EventKind::CardAccess,
            EventSubject::Card(accessed[j]),
        )
}

/// `started` is `before` once the start of the access phase of its raid was
/// recorded and dispatched.
pub open spec fn access_started(before: GameState, started: GameState) -> bool {
    let raid_id = before.info.raid->0.raid_id;
    recorded_and_dispatched(
        before,
        started,
        GameEvent::RaidAccessStart(raid_id),
        EventKind::RaidAccessStart,
        EventSubject::Raid(raid_id),
    )
}

/// `after` is `before` once the access phase has been entered: its start
/// was recorded and dispatched; then, unless that ended the raid, the cards
/// accessed were selected and revealed to the Champion, and the access of
/// each was recorded and dispatched in turn.
pub open spec fn access_phase_entered(before: GameState, after: GameState) -> bool {
    exists|started: GameState|
        #[trigger] access_started(before, started) && if started.info.raid is None {
            after == started
        } else {
            exists|shown: GameState, states: Seq<GameState>|
                #![trigger accessed_cards_shown(started, shown), is_access_run(states, shown.info.raid->0.accessed@)]
                accessed_cards_shown(started, shown) && is_access_run(
                    states,
                    shown.info.raid->0.accessed@,
                ) && states[0] == shown && states.last() == after
        }
}

/// Entering the access phase of the raid of `before` fails: dispatching its
/// start fails, or, the raid going on, dispatching the access of one of the
/// cards accessed does, after those before it.
pub open spec fn access_phase_fails(before: GameState) -> bool {
    let raid_id = before.info.raid->0.raid_id;
    ||| recorded_dispatch_fails(
        before,
        GameEvent::RaidAccessStart(raid_id),
        EventKind::RaidAccessStart,
        EventSubject::Raid(raid_id),
    )
    ||| exists|started: GameState, shown: GameState, states: Seq<GameState>|
        #![trigger access_started(before, started), accessed_cards_shown(started, shown), is_access_run(states, shown.info.raid->0.accessed@.take(states.len() - 1))]
        {
            let accessed = shown.info.raid->0.accessed@;
            let k = states.len() - 1;
            &&& access_started(before, started)
            &&& started.info.raid is Some
            &&& accessed_cards_shown(started, shown)
            &&& k < accessed.len()
            &&& is_access_run(states, accessed.take(k))
            &&& states[0] == shown
            &&& recorded_dispatch_fails(
                states.last(),
                GameEvent::CardAccess(accessed[k]),
                EventKind::CardAccess,
                EventSubject::Card(accessed[k]),
            )
        }
}

/// Selects the cards accessed in the raid, records the selection and
/// reveals them to the Champion. Returns the cards accessed.
fn show_accessed_cards(game: &mut GameState) -> (r: Vec<CardId>)
    requires
        old(game).wf(),
        old(game).info.raid is Some,
    ensures
        final(game).wf(),
        accessed_cards_shown(*old(game), *final(game)),
        r@ == final(game).info.raid->0.accessed@,
{
    let ghost started = *game;
    let (raid_id, target) = match game.raid() {
        Ok(raid) => (raid.raid_id, raid.target),
        Err(_) => {
            return Vec::new();
        },
    };
    let ghost g1 = *game;
    let selected = match select_accessed_cards(game) {
        Ok(a) => a,
        Err(_) => {
            return Vec::new();
        },
    };
    let accessed = copy_ids(&selected);
    let ghost g2 = *game;
    match &mut game.info.raid {
        Some(raid) => {
            raid.accessed = selected;
        },
        None => {},
    }
    proof {
        let (oc, cc) = (game.overlord_cards@.len(), game.champion_cards@.len());
        assert forall|i: int| 0 <= i < accessed@.len() implies #[trigger] id_in_range(
            accessed@[i],
            oc,
            cc,
        ) by {
            assert(g1.valid_id(accessed@[i]));
        }
    }
    game.invoke_event(GameEvent::RaidAccessSelected(raid_id, target));
    let ghost g3 = *game;
    let mut i: usize = 0;
    while i < accessed.len()
        invariant
            game.wf(),
            i <= accessed.len(),
            overlord_ids(g3, accessed@),
            game.info == g3.info,
            game.events == g3.events,
            game.overlord_cards@.len() == g3.overlord_cards@.len(),
            game.champion_cards@.len() == g3.champion_cards@.len(),
            game.same_players_and_logs(g3),
            forall|c: CardId|
                #![trigger game.card_state(c)]
                g3.valid_id(c) ==> game.card_state(c) == if accessed@.subrange(
                    0,
                    i as int,
                ).contains(c) {
                    CardState { revealed_to_champion: true, ..g3.card_state(c) }
                } else {
                    g3.card_state(c)
                },
        decreases accessed.len() - i,
    {
        let ghost before_step = *game;
        game.set_revealed_to(accessed[i], Side::Champion, true);
        proof {
            let s = accessed@.subrange(0, i + 1);
            let p = accessed@.subrange(0, i as int);
            assert forall|c: CardId| #![trigger game.card_state(c)] g3.valid_id(c) implies game.card_state(c)
                == if s.contains(c) {
                CardState { revealed_to_champion: true, ..g3.card_state(c) }
            } else {
                g3.card_state(c)
            } by {
                assert(s.contains(c) <==> (p.contains(c) || c == accessed@[i as int])) by {
                    if s.contains(c) {
                        let k = choose|k: int| 0 <= k < s.len() && s[k] == c;
                        if k < i {
                            assert(p[k] == c);
                        }
                    }
                    if p.contains(c) {
                        let k = choose|k: int| 0 <= k < p.len() && p[k] == c;
                        assert(s[k] == c);
                    }
                    if c == accessed@[i as int] {
                        assert(s[i as int] == c);
                    }
                }
                if c != accessed@[i as int] {
                    assert(before_step.card_state(c) == game.card_state(c));
                }
            }
        }
        i = i + 1;
    }
    let ghost g4 = *game;
    proof {
        assert(accessed@.subrange(0, accessed@.len() as int) == accessed@);
        assert(g4.info.raid->0.accessed@ == accessed@);
        assert forall|c: CardId| #![trigger g4.card_state(c)] started.valid_id(c) implies g4.card_state(c)
            == if accessed@.contains(c) {
            CardState { revealed_to_champion: true, ..started.card_state(c) }
        } else {
            started.card_state(c)
        } by {
            assert(g3.valid_id(c));
            assert(g3.card_state(c) == started.card_state(c));
        }
        assert(accessed_cards_shown(started, g4));
    }
    accessed
}

/// Records and dispatches the access of each card of `accessed`, in turn.
/// Stops at the first dispatch that fails.
fn dispatch_accesses(game: &mut GameState, accessed: &Vec<CardId>) -> (r: Result<(), GameError>)
    requires
        old(game).wf(),
    ensures
        final(game).wf(),
        r is Ok ==> exists|states: Seq<GameState>|
            #[trigger] is_access_run(states, accessed@) && states[0] == *old(game) && states.last()
                == *final(game),
        r is Err ==> exists|states: Seq<GameState>|
            #[trigger] is_access_run(states, accessed@.take(states.len() - 1)) && states.len() - 1
                < accessed@.len() && states[0] == *old(game) && recorded_dispatch_fails(
                states.last(),
                GameEvent::CardAccess(accessed@[states.len() - 1]),
                EventKind::CardAccess,
                EventSubject::Card(accessed@[states.len() - 1]),
            ),
        r is Ok ==> raid_kept_or_ended(*old(game), *final(game)),
{
    let ghost mut states: Seq<GameState> = seq![*game];
    let mut j: usize = 0;
    while j < accessed.len()
        invariant
            game.wf(),
            j <= accessed.len(),
            is_access_run(states, accessed@.take(j as int)),
            states[0] == *old(game),
            states.last() == *game,
            raid_kept_or_ended(*old(game), *game),
        decreases accessed.len() - j,
    {
        let ghost before = *game;
        match record_and_fire(
            game,
            GameEvent::CardAccess(accessed[j]),
            EventKind::CardAccess,
            EventSubject::Card(accessed[j]),
        ) {
            Ok(()) => {},
            Err(e) => {
                proof {
                    assert(accessed@.take(j as int) == accessed@.take(states.len() - 1));
                }
                return Err(e);
            },
        }
        proof {
            let s2 = states.push(*game);
            let t2 = accessed@.take(j + 1);
            assert forall|k: int| #![trigger s2[k]] 0 <= k < t2.len() implies recorded_and_dispatched(
                s2[k],
                s2[k + 1],
                GameEvent::CardAccess(t2[k]),
                EventKind::CardAccess,
                EventSubject::Card(t2[k]),
            ) by {
                if k < j {
                    assert(s2[k] == states[k]);
                    assert(s2[k + 1] == states[k + 1]);
                    assert(t2[k] == accessed@.take(j as int)[k]);
                } else {
                    assert(s2[k] == before);
                    assert(t2[k] == accessed@[j as int]);
                }
            }
            states = s2;
        }
        j = j + 1;
    }
    proof {
        assert(accessed@.take(j as int) =~= accessed@);
    }
    Ok(())
}

impl GameState {
    /// `self` and `other` agree on players, history, updates and the card being
    /// played.
    pub open spec fn same_players_and_logs_but_events(self, other: GameState) -> bool {
        &&& self.overlord == other.overlord
        &&& self.champion == other.champion
        &&& self.history == other.history
        &&& self.updates == other.updates
        &&& self.play_card == other.play_card
    }
}

impl AccessPhase {
    /// Extracts the access phase action of `action`.
    pub fn unwrap(action: PromptAction) -> (r: Result<AccessPhaseAction, GameError>)
        ensures
            match action {
                PromptAction::AccessPhaseAction(a) => r == Ok::<AccessPhaseAction, GameError>(a),
                _ => r == Err::<AccessPhaseAction, GameError>(
                    GameError::ExpectedAccessPhaseAction,
                ),
            },
    {
        match action {
            PromptAction::AccessPhaseAction(a) => Ok(a),
            _ => Err(GameError::ExpectedAccessPhaseAction),
        }
    }

    /// The prompt action which carries `action`.
    pub fn wrap(action: AccessPhaseAction) -> (r: Result<PromptAction, GameError>)
        ensures
            r == Ok::<PromptAction, GameError>(PromptAction::AccessPhaseAction(action)),
    {
        Ok(PromptAction::AccessPhaseAction(action))
    }

    /// Enters the access phase: records and dispatches its start; then, if
    /// the raid goes on, selects the accessed cards, reveals them to the
    /// Champion, and records and dispatches each access. The raid stays in
    /// this phase.
    pub fn enter(self, game: &mut GameState) -> (r: Result<Option<InternalRaidPhase>, GameError>)
        requires
            old(game).wf(),
        ensures
            final(game).wf(),
            old(game).info.raid is None ==> r == Err::<Option<InternalRaidPhase>, GameError>(
                GameError::NoActiveRaid,
            ) && *final(game) == *old(game),
            r is Ok ==> r == Ok::<Option<InternalRaidPhase>, GameError>(None) && access_phase_entered(
                *old(game),
                *final(game),
            ),
            r is Err && old(game).info.raid is Some ==> access_phase_fails(*old(game)),
            r is Ok ==> (final(game).info.raid matches Some(a) ==> old(game).info.raid matches Some(
                b,
            ) && a.jump_request == b.jump_request && a.internal_phase == b.internal_phase),
    {
        let ghost g0 = *game;
        let raid_id = match game.raid() {
            Ok(raid) => raid.raid_id,
            Err(e) => {
                return Err(e);
            },
        };
        match record_and_fire(
            game,
            GameEvent::RaidAccessStart(raid_id),
            EventKind::RaidAccessStart,
            EventSubject::Raid(raid_id),
        ) {
            Ok(()) => {},
            Err(e) => {
                return Err(e);
            },
        }
        let ghost started = *game;
        assert(access_started(g0, started));
        if game.info.raid.is_none() {
            return Ok(None);
        }
        let accessed = show_accessed_cards(game);
        let ghost g4 = *game;
        let ghost acc = g4.info.raid->0.accessed@;
        match dispatch_accesses(game, &accessed) {
            Ok(()) => {},
            Err(e) => {
                proof {
                    let states = choose|states: Seq<GameState>|
                        #[trigger] is_access_run(states, accessed@.take(states.len() - 1))
                            && states.len() - 1 < accessed@.len() && states[0] == g4
                            && recorded_dispatch_fails(
                            states.last(),
                            GameEvent::CardAccess(accessed@[states.len() - 1]),
                            EventKind::CardAccess,
                            EventSubject::Card(accessed@[states.len() - 1]),
                        );
                    assert(is_access_run(states, acc.take(states.len() - 1)));
                    assert(access_phase_fails(g0));
                }
                return Err(e);
            },
        }
        proof {
            assert(access_phase_entered(g0, *game));
        }
        Ok(None)
    }

    /// The actions which the Champion can take: score or raze each accessed
    /// card which allows it, then end the raid.
    pub fn actions(self, game: &GameState) -> (r: Result<Vec<AccessPhaseAction>, GameError>)
        requires
            game.wf(),
        ensures
            r is Err <==> game.info.raid is None,
            r matches Err(e) ==> e == GameError::NoActiveRaid,
            r matches Ok(actions) ==> actions@ == spec_access_actions(*game),
    {
        let raid = match game.raid() {
            Ok(raid) => raid,
            Err(e) => {
                return Err(e);
            },
        };
        let can_end = can_take_end_raid_access_phase_action(game, raid.raid_id);
        let mut result: Vec<AccessPhaseAction> = Vec::new();
        let mut i: usize = 0;
        while i < raid.accessed.len()
            invariant
                game.wf(),
                game.info.raid == Some(*raid),
                i <= raid.accessed.len(),
                result@ == access_actions_for(*game, raid.accessed@.subrange(0, i as int)),
            decreases raid.accessed.len() - i,
        {
            proof {
                assert(raid.accessed@.subrange(0, i + 1).drop_last() == raid.accessed@.subrange(
                    0,
                    i as int,
                ));
                assert(id_in_range(
                    raid.accessed@[i as int],
                    game.overlord_cards@.len(),
                    game.champion_cards@.len(),
                ));
            }
            match access_action_for_card(game, raid.accessed[i]) {
                Some(a) => result.push(a),
                None => {},
            }
            i = i + 1;
        }
        proof {
            assert(raid.accessed@.subrange(0, raid.accessed@.len() as int) == raid.accessed@);
        }
        if can_end {
            result.push(AccessPhaseAction::EndRaid);
        }
        Ok(result)
    }

    /// Handles an action of the Champion: scores or razes a card, or ends the
    /// raid in success, dispatching the success and the end of the raid to
    /// the abilities which respond to them. The raid stays in this phase.
    pub fn handle_action(self, game: &mut GameState, action: AccessPhaseAction) -> (r: Result<
        Option<InternalRaidPhase>,
        GameError,
    >)
        requires
            old(game).wf(),
            action_ids_valid(*old(game), action),
        ensures
            final(game).wf(),
            !(action is EndRaid) ==> (r is Ok <==> access_action_succeeds(*old(game), action)),
            r is Ok ==> access_action_succeeds(*old(game), action),
            r is Err ==> access_action_fails(*old(game), action),
            r is Ok ==> r == Ok::<Option<InternalRaidPhase>, GameError>(None)
                && access_action_applied(*old(game), *final(game), action),
    {
        let result = match action {
            AccessPhaseAction::ScoreCard(card_id) => handle_score_card(game, card_id),
            AccessPhaseAction::RazeCard(card_id, _, _) => handle_raze_card(game, card_id),
            AccessPhaseAction::EndRaid => end_raid_announced(game, RaidOutcome::Success),
        };
        match result {
            Ok(()) => Ok(None),
            Err(e) => Err(e),
        }
    }

    /// The client shows the access display during this phase.
    pub fn display_state(self, game: &GameState) -> (r: Result<RaidDisplayState, GameError>)
        ensures
            r == Ok::<RaidDisplayState, GameError>(RaidDisplayState::Access),
    {
        Ok(RaidDisplayState::Access)
    }
}

/// Whether the Champion may end the raid during the access phase: always, as
/// no ability in this crate prevents it.
pub fn can_take_end_raid_access_phase_action(game: &GameState, raid_id: crate::primitives::RaidId) -> (r: bool)
    ensures
        r,
{
    true
}

/// `action` is about the card `id`.
pub open spec fn action_on(action: AccessPhaseAction, id: CardId) -> bool {
    match action {
        AccessPhaseAction::ScoreCard(c) => c == id,
        AccessPhaseAction::RazeCard(c, _, _) => c == id,
        AccessPhaseAction::EndRaid => false,
    }
}

/// The actions for the cards `ids` are about those cards only.
proof fn lemma_actions_for_listed_cards(game: GameState, ids: Seq<CardId>, id: CardId)
    requires
        !ids.contains(id),
    ensures
        forall|k: int|
            0 <= k < access_actions_for(game, ids).len() ==> !action_on(
                #[trigger] access_actions_for(game, ids)[k],
                id,
            ),
    decreases ids.len(),
{
    if ids.len() > 0 {
        let prefix = ids.drop_last();
        assert(!prefix.contains(id)) by {
            if prefix.contains(id) {
                let j = choose|j: int| 0 <= j < prefix.len() && prefix[j] == id;
                assert(ids[j] == id);
            }
        }
        lemma_actions_for_listed_cards(game, prefix, id);
        assert(ids[ids.len() - 1] == ids.last());
        let all = access_actions_for(game, ids);
        let first = access_actions_for(game, prefix);
        assert forall|k: int| 0 <= k < all.len() implies !action_on(#[trigger] all[k], id) by {
            if k < first.len() {
                assert(all[k] == first[k]);
            }
        }
    }
}

/// A card that the Champion scored or razed is no longer accessed, so the
/// access phase offers no further action on it.
pub proof fn lemma_handled_card_not_offered_again(
    before: GameState,
    after: GameState,
    card_id: CardId,
)
    requires
        card_scored(before, after, card_id) || card_razed(before, after, card_id),
    ensures
        forall|k: int|
            0 <= k < spec_access_actions(after).len() ==> !action_on(
                #[trigger] spec_access_actions(after)[k],
                card_id,
            ),
{
    lemma_without_subset(before.info.raid->0.accessed@, card_id);
    let ids = after.info.raid->0.accessed@;
    lemma_actions_for_listed_cards(after, ids, card_id);
    let all = spec_access_actions(after);
    let listed = access_actions_for(after, ids);
    assert forall|k: int| 0 <= k < all.len() implies !action_on(#[trigger] all[k], card_id) by {
        if k < listed.len() {
            assert(all[k] == listed[k]);
        }
    }
}

/// Only a project still out of the discard piles can be razed: a card in a
/// discard pile is never offered a raze action, whatever the Champion's
/// mana; a project elsewhere is offered one exactly when the Champion can
/// pay its raze cost, for that cost.
pub proof fn lemma_raze_offers(game: GameState, card_id: CardId)
    ensures
        game.card_state(card_id).position.is_in_discard_pile() ==> !spec_can_raze_project(
            game,
            card_id,
        ) && !(spec_access_action_for_card(game, card_id) matches Some(
            AccessPhaseAction::RazeCard(_, _, _),
        )),
        game.card_state(card_id).definition.card_type == CardType::Project
            && !game.card_state(card_id).position.is_in_discard_pile() ==> (spec_access_action_for_card(
            game,
            card_id,
        ) matches Some(AccessPhaseAction::RazeCard(id, _, cost)) && id == card_id && cost
            == spec_raze_cost(game, card_id) <==> spec_raze_cost(game, card_id)
            <= game.champion.mana),
{
}

} // verus!
