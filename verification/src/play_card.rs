//! The state machine which plays a card, step by step.

use vstd::prelude::*;

use crate::access::copy_ids;
use crate::card_definition::{CustomCost, EventSubject};
use crate::dispatch::{dispatch_fails, event_dispatched, fire_event, EventKind};
use crate::constants::{
    MAXIMUM_ALLIES_IN_PLAY, MAXIMUM_ARTIFACTS_IN_PLAY, MAXIMUM_EVOCATIONS_IN_PLAY,
    MAXIMUM_MINIONS_IN_ROOM, MAXIMUM_OCCUPANTS_IN_ROOM, MAXIMUM_WEAPONS_IN_PLAY,
};
use crate::error::GameError;
use crate::game_actions::{
    ButtonPrompt, CardPromptAction, CardTarget, GamePrompt, PlayCardBrowser, PromptAction,
    PromptContext, UnplayedAction,
};
use crate::game_state::{
    CardPosition, CardState, GameEvent, GameInfo, GamePhase, GameState, HistoryEntry, HistoryEvent,
    PlayCardData, PlayCardStep, PlayInitiatedBy, PlayerState, id_in_range, prompt_ids_in_range,
    queue_ids_in_range,
};
use crate::game_updates::{GameUpdate, UpdateState};
use crate::primitives::{CardId, CardSubtype, CardType, RoomId, Side};
use crate::queries::{
    action_cost, allies, arena_filter, artifacts, defenders_filter, defenders_unordered,
    enters_play_face_up, evocations, game_weapons, mana_cost, occupants, occupants_filter,
    played_position, selected_cards, spec_enters_play_face_up, spec_played_position, CardFilter,
};

verus! {

/// How far a step is from the end of the play; every step moves closer.
pub open spec fn step_rank(step: PlayCardStep) -> int {
    match step {
        PlayCardStep::Begin => 10,
        PlayCardStep::CheckLimits => 9,
        PlayCardStep::AddToHistory => 8,
        PlayCardStep::MoveToPlayedPosition => 7,
        PlayCardStep::PayActionPoints => 6,
        PlayCardStep::ApplyPlayCardBrowser => 5,
        PlayCardStep::PayManaCost => 4,
        PlayCardStep::PayCustomCost => 3,
        PlayCardStep::TurnFaceUp => 2,
        PlayCardStep::MoveToTargetPosition => 1,
        PlayCardStep::Finish => 0,
    }
}

/// `queue` holds a prompt other than the 'play card' browser.
pub open spec fn shows_non_play_prompt(queue: Seq<GamePrompt>) -> bool {
    exists|i: int| 0 <= i < queue.len() && !(#[trigger] queue[i] is PlayCardBrowser)
}

/// The play of a card cannot advance: a player must answer a prompt, the game
/// is not in its play phase, or no card is being played.
pub open spec fn play_paused(game: GameState) -> bool {
    ||| shows_non_play_prompt(game.overlord.prompt_queue@)
    ||| shows_non_play_prompt(game.champion.prompt_queue@)
    ||| game.info.phase != GamePhase::Play
    ||| game.play_card is None
}

/// Returns true if the provided prompt queue currently contains a prompt which
/// is *not* the PlayCardBrowser prompt.
pub fn has_non_play_prompt(queue: &Vec<GamePrompt>) -> (r: bool)
    ensures
        r == shows_non_play_prompt(queue@),
{
    let mut i: usize = 0;
    while i < queue.len()
        invariant
            i <= queue.len(),
            forall|j: int| 0 <= j < i ==> (#[trigger] queue@[j]) is PlayCardBrowser,
        decreases queue.len() - i,
    {
        match &queue[i] {
            GamePrompt::PlayCardBrowser(_) => {},
            _ => {
                assert(!(queue@[i as int] is PlayCardBrowser));
                return true;
            },
        }
        i = i + 1;
    }
    false
}

/// The responses of a card limit prompt for the cards `cards`: sacrifice one
/// of them, or stop playing the card.
pub open spec fn limit_responses(cards: Seq<CardId>) -> Seq<PromptAction> {
    cards.map_values(|id: CardId| PromptAction::CardAction(CardPromptAction::Sacrifice(id))).push(
        PromptAction::CardAction(CardPromptAction::AbortPlayingCard),
    )
}

/// A prompt asking the player to sacrifice one of `cards`, or to stop playing
/// the card.
pub fn card_limit_prompt(cards: &Vec<CardId>, context: PromptContext) -> (r: GamePrompt)
    ensures
        r matches GamePrompt::ButtonPrompt(p) && p.context == Some(context) && p.responses@
            == limit_responses(cards@),
{
    let mut responses: Vec<PromptAction> = Vec::new();
    let mut i: usize = 0;
    while i < cards.len()
        invariant
            i <= cards.len(),
            responses@ == cards@.subrange(0, i as int).map_values(
                |id: CardId| PromptAction::CardAction(CardPromptAction::Sacrifice(id)),
            ),
        decreases cards.len() - i,
    {
        responses.push(PromptAction::CardAction(CardPromptAction::Sacrifice(cards[i])));
        proof {
            assert(cards@.subrange(0, i + 1) == cards@.subrange(0, i as int).push(cards@[i as int]));
        }
        i = i + 1;
    }
    proof {
        assert(cards@.subrange(0, cards@.len() as int) == cards@);
    }
    responses.push(PromptAction::CardAction(CardPromptAction::AbortPlayingCard));
    GamePrompt::ButtonPrompt(ButtonPrompt { context: Some(context), responses })
}

/// The cards, and the context, of the limit prompt which playing `play` in
/// `game` shows, if a limit would be exceeded: weapons, artifacts,
/// evocations and allies in play for a card without target; the defenders or
/// the occupants of the targeted room otherwise.
pub open spec fn spec_limit_prompt(game: GameState, play: PlayCardData) -> Option<
    (Seq<CardId>, PromptContext),
> {
    let definition = game.card_state(play.card_id).definition;
    let t = definition.card_type;
    let weapons = selected_cards(game, Side::Champion, CardFilter::WeaponsInPlay);
    let artifacts = selected_cards(game, Side::Champion, arena_filter(CardType::Artifact));
    let evocations = selected_cards(game, Side::Champion, arena_filter(CardType::Evocation));
    let allies = selected_cards(game, Side::Champion, arena_filter(CardType::Ally));
    match play.target {
        CardTarget::NoTarget => if t == CardType::Artifact && definition.subtypes@.contains(
            CardSubtype::Weapon,
        ) && weapons.len() >= MAXIMUM_WEAPONS_IN_PLAY {
            Some((weapons, PromptContext::CardLimit(CardType::Artifact, Some(CardSubtype::Weapon))))
        } else if t == CardType::Artifact && artifacts.len() >= MAXIMUM_ARTIFACTS_IN_PLAY {
            Some((artifacts, PromptContext::CardLimit(CardType::Artifact, None)))
        } else if t == CardType::Evocation && evocations.len() >= MAXIMUM_EVOCATIONS_IN_PLAY {
            Some((evocations, PromptContext::CardLimit(CardType::Evocation, None)))
        } else if t == CardType::Ally && allies.len() >= MAXIMUM_ALLIES_IN_PLAY {
            Some((allies, PromptContext::CardLimit(CardType::Ally, None)))
        } else {
            None
        },
        CardTarget::Room(room) => {
            let defenders = selected_cards(game, Side::Overlord, defenders_filter(room));
            let occupants = selected_cards(game, Side::Overlord, occupants_filter(room));
            if t == CardType::Minion && defenders.len() >= MAXIMUM_MINIONS_IN_ROOM {
                Some((defenders, PromptContext::CardLimit(CardType::Minion, None)))
            } else if (t == CardType::Project || t == CardType::Scheme) && occupants.len()
                >= MAXIMUM_OCCUPANTS_IN_ROOM {
                Some((occupants, PromptContext::CardLimit(t, None)))
            } else {
                None
            }
        },
    }
}

/// `after` is `before` with `prompt` appended to the `side` player's prompts.
pub open spec fn prompt_pushed(
    before: GameState,
    after: GameState,
    side: Side,
    cards: Seq<CardId>,
    context: PromptContext,
) -> bool {
    &&& after.player_state(side) == (PlayerState {
        prompt_queue: after.player_state(side).prompt_queue,
        ..before.player_state(side)
    })
    &&& after.player_state(side).prompt_queue@.drop_last() == before.player_state(side).prompt_queue@
    &&& after.player_state(side).prompt_queue@.len() == before.player_state(side).prompt_queue@.len() + 1
    &&& after.player_state(side).prompt_queue@.last() matches GamePrompt::ButtonPrompt(p)
        && p.context == Some(context) && p.responses@ == limit_responses(cards)
    &&& after.only_player_changed(before, side)
}

/// Checks the limits on cards in play: when playing the card would exceed
/// one, the player who plays it is asked to sacrifice a card or to stop.
fn check_limits(game: &mut GameState, play_card: PlayCardData) -> (r: Result<
    PlayCardStep,
    GameError,
>)
    requires
        old(game).wf(),
        old(game).valid_id(play_card.card_id),
    ensures
        final(game).wf(),
        r == Ok::<PlayCardStep, GameError>(PlayCardStep::AddToHistory),
        match spec_limit_prompt(*old(game), play_card) {
            Some((cards, context)) => prompt_pushed(
                *old(game),
                *final(game),
                play_card.card_id.side,
                cards,
                context,
            ),
            None => *final(game) == *old(game),
        },
{
    let card = game.card(play_card.card_id);
    let card_type = card.definition.card_type;
    let is_weapon = card.definition.has_subtype(CardSubtype::Weapon);
    let prompt = match play_card.target {
        CardTarget::NoTarget => {
            let weapons = game_weapons(game);
            let artifact_list = artifacts(game);
            let evocation_list = evocations(game);
            let ally_list = allies(game);
            if card_type == CardType::Artifact && is_weapon && weapons.len()
                >= MAXIMUM_WEAPONS_IN_PLAY {
                Some(
                    card_limit_prompt(
                        &weapons,
                        PromptContext::CardLimit(CardType::Artifact, Some(CardSubtype::Weapon)),
                    ),
                )
            } else if card_type == CardType::Artifact && artifact_list.len()
                >= MAXIMUM_ARTIFACTS_IN_PLAY {
                Some(
                    card_limit_prompt(
                        &artifact_list,
                        PromptContext::CardLimit(CardType::Artifact, None),
                    ),
                )
            } else if card_type == CardType::Evocation && evocation_list.len()
                >= MAXIMUM_EVOCATIONS_IN_PLAY {
                Some(
                    card_limit_prompt(
                        &evocation_list,
                        PromptContext::CardLimit(CardType::Evocation, None),
                    ),
                )
            } else if card_type == CardType::Ally && ally_list.len() >= MAXIMUM_ALLIES_IN_PLAY {
                Some(card_limit_prompt(&ally_list, PromptContext::CardLimit(CardType::Ally, None)))
            } else {
                None
            }
        },
        CardTarget::Room(room_id) => {
            let defenders = defenders_unordered(game, room_id);
            let occupant_list = occupants(game, room_id);
            if card_type == CardType::Minion && defenders.len() >= MAXIMUM_MINIONS_IN_ROOM {
                Some(
                    card_limit_prompt(&defenders, PromptContext::CardLimit(CardType::Minion, None)),
                )
            } else if (card_type == CardType::Project || card_type == CardType::Scheme)
                && occupant_list.len() >= MAXIMUM_OCCUPANTS_IN_ROOM {
                Some(card_limit_prompt(&occupant_list, PromptContext::CardLimit(card_type, None)))
            } else {
                None
            }
        },
    };
    let ghost g0 = *game;
    match prompt {
        Some(p) => {
            game.push_prompt(play_card.card_id.side, p);
            proof {
                let side = play_card.card_id.side;
                assert(game.player_state(side).prompt_queue@.drop_last()
                    =~= g0.player_state(side).prompt_queue@);
            }
        },
        None => {},
    }
    Ok(PlayCardStep::AddToHistory)
}

/// Records the play in the game history.
fn add_to_history(game: &mut GameState, play_card: PlayCardData) -> (r: Result<
    PlayCardStep,
    GameError,
>)
    requires
        old(game).wf(),
    ensures
        final(game).wf(),
        r == Ok::<PlayCardStep, GameError>(PlayCardStep::MoveToPlayedPosition),
        final(game).history@ == old(game).history@.push(
            HistoryEntry {
                turn: old(game).info.turn,
                event: HistoryEvent::PlayCard(
                    play_card.card_id,
                    play_card.target,
                    play_card.initiated_by,
                ),
            },
        ),
        *final(game) == (GameState { history: final(game).history, ..*old(game) }),
{
    game.add_history_event(
        HistoryEvent::PlayCard(play_card.card_id, play_card.target, play_card.initiated_by),
    );
    Ok(PlayCardStep::MoveToPlayedPosition)
}

/// `after` is `before` with `card_id` moved to `position`, as
/// [GameState::move_card] moves it.
pub open spec fn card_moved(
    before: GameState,
    after: GameState,
    card_id: CardId,
    position: CardPosition,
) -> bool {
    &&& after.card_state(card_id) == (CardState {
        position,
        sorting_key: before.info.next_sorting_key,
        ..before.card_state(card_id)
    })
    &&& after.cards_agree_except(before, card_id)
    &&& after.info == (GameInfo {
        next_sorting_key: (before.info.next_sorting_key + 1) as u64,
        ..before.info
    })
    &&& after.same_players_and_logs(before)
}

/// Moves the card to the 'played' position of its owner.
fn move_to_played_position(game: &mut GameState, play_card: PlayCardData) -> (r: Result<
    PlayCardStep,
    GameError,
>)
    requires
        old(game).wf(),
        old(game).valid_id(play_card.card_id),
    ensures
        final(game).wf(),
        r is Err <==> old(game).info.next_sorting_key == u64::MAX,
        r is Err ==> *final(game) == *old(game),
        r is Ok ==> r == Ok::<PlayCardStep, GameError>(PlayCardStep::PayActionPoints) && card_moved(
            *old(game),
            *final(game),
            play_card.card_id,
            CardPosition::Played(play_card.card_id.side, play_card.target),
        ),
{
    match game.move_card(
        play_card.card_id,
        CardPosition::Played(play_card.card_id.side, play_card.target),
    ) {
        Ok(()) => Ok(PlayCardStep::PayActionPoints),
        Err(e) => Err(e),
    }
}

/// The player pays the action cost of the card.
fn pay_action_points(game: &mut GameState, play_card: PlayCardData) -> (r: Result<
    PlayCardStep,
    GameError,
>)
    requires
        old(game).wf(),
        old(game).valid_id(play_card.card_id),
    ensures
        final(game).wf(),
        ({
            let side = play_card.card_id.side;
            let cost = old(game).card_state(play_card.card_id).definition.cost.actions;
            &&& r is Err <==> old(game).player_state(side).actions < cost
            &&& r is Err ==> *final(game) == *old(game)
            &&& r is Ok ==> {
                &&& r == Ok::<PlayCardStep, GameError>(PlayCardStep::ApplyPlayCardBrowser)
                &&& final(game).player_state(side) == (PlayerState {
                    actions: (old(game).player_state(side).actions - cost) as u32,
                    ..old(game).player_state(side)
                })
                &&& final(game).only_player_changed(*old(game), side)
            }
        }),
{
    let actions = action_cost(game, play_card.card_id);
    match game.spend_action_points(play_card.card_id.side, actions) {
        Ok(()) => Ok(PlayCardStep::ApplyPlayCardBrowser),
        Err(e) => Err(e),
    }
}

/// The cards of a 'play card' browser to discard when `played` is played
/// from it: all of them but the played card.
pub open spec fn unplayed_cards(cards: Seq<CardId>, played: Option<CardId>) -> Seq<CardId>
    decreases cards.len(),
{
    if cards.len() == 0 {
        Seq::empty()
    } else {
        unplayed_cards(cards.drop_last(), played) + if played == Some(cards.last()) {
            Seq::empty()
        } else {
            seq![cards.last()]
        }
    }
}

/// `after` is `before` with the cards of `discarded` moved to their owners'
/// discard piles, with new sorting keys; the other cards are unchanged.
pub open spec fn cards_discarded(before: GameState, after: GameState, discarded: Seq<CardId>) -> bool {
    &&& after.overlord_cards@.len() == before.overlord_cards@.len()
    &&& after.champion_cards@.len() == before.champion_cards@.len()
    &&& forall|c: CardId|
        #![trigger after.card_state(c)]
        before.valid_id(c) ==> after.card_state(c) == if discarded.contains(c) {
            CardState {
                position: CardPosition::DiscardPile(c.side),
                sorting_key: after.card_state(c).sorting_key,
                ..before.card_state(c)
            }
        } else {
            before.card_state(c)
        }
}

/// The 'play card' browser shown first to the `side` player, if any.
pub open spec fn first_play_browser(game: GameState, side: Side) -> Option<crate::game_actions::PlayCardBrowser> {
    let q = game.player_state(side).prompt_queue@;
    if q.len() > 0 {
        match q[0] {
            GamePrompt::PlayCardBrowser(p) => Some(p),
            _ => None,
        }
    } else {
        None
    }
}

/// Every element of `unplayed_cards(cards, played)` is an element of `cards`.
proof fn lemma_unplayed_subset(cards: Seq<CardId>, played: Option<CardId>)
    ensures
        forall|k: int|
            0 <= k < unplayed_cards(cards, played).len() ==> cards.contains(
                #[trigger] unplayed_cards(cards, played)[k],
            ),
    decreases cards.len(),
{
    if cards.len() > 0 {
        lemma_unplayed_subset(cards.drop_last(), played);
        let w = unplayed_cards(cards, played);
        let wp = unplayed_cards(cards.drop_last(), played);
        assert forall|k: int| 0 <= k < w.len() implies cards.contains(#[trigger] w[k]) by {
            if k < wp.len() {
                assert(w[k] == wp[k]);
                let j = choose|j: int|
                    0 <= j < cards.drop_last().len() && cards.drop_last()[j] == wp[k];
                assert(cards[j] == w[k]);
            } else {
                assert(w[k] == cards.last());
                assert(cards[cards.len() - 1] == w[k]);
            }
        }
    }
}

/// The cards of `cards` other than `played`.
fn unplayed_list(cards: &Vec<CardId>, played: Option<CardId>) -> (r: Vec<CardId>)
    ensures
        r@ == unplayed_cards(cards@, played),
{
    let mut result: Vec<CardId> = Vec::new();
    let mut i: usize = 0;
    while i < cards.len()
        invariant
            i <= cards.len(),
            result@ == unplayed_cards(cards@.subrange(0, i as int), played),
        decreases cards.len() - i,
    {
        proof {
            assert(cards@.subrange(0, i + 1).drop_last() == cards@.subrange(0, i as int));
        }
        let skip = match played {
            Some(id) => id == cards[i],
            None => false,
        };
        if !skip {
            result.push(cards[i]);
        }
        i = i + 1;
    }
    proof {
        assert(cards@.subrange(0, cards@.len() as int) == cards@);
    }
    result
}

/// The card played from the browser `p` is one that it offers; playing none
/// is always allowed.
pub open spec fn browser_offers(p: PlayCardBrowser, card_id: Option<CardId>) -> bool {
    match card_id {
        Some(id) => p.cards@.contains(id),
        None => true,
    }
}

/// The cards that resolving the browser `p` discards when `card_id` is
/// played from it.
pub open spec fn browser_discards(p: PlayCardBrowser, card_id: Option<CardId>) -> Seq<CardId> {
    if p.unplayed_action == UnplayedAction::Discard {
        unplayed_cards(p.cards@, card_id)
    } else {
        Seq::empty()
    }
}

/// Resolving the browser shown first to the `side` player fails: the played
/// card is not offered, or the sorting keys run out.
pub open spec fn browser_fails(game: GameState, side: Side, card_id: Option<CardId>) -> bool {
    match first_play_browser(game, side) {
        Some(p) => !browser_offers(p, card_id) || game.info.next_sorting_key + browser_discards(
            p,
            card_id,
        ).len() > u64::MAX,
        None => false,
    }
}

/// `after` is `before` once the browser shown first to the `side` player, if
/// any, was resolved: its unplayed cards discarded as it says and the
/// player's prompts cleared.
pub open spec fn browser_resolved(
    before: GameState,
    after: GameState,
    side: Side,
    card_id: Option<CardId>,
) -> bool {
    match first_play_browser(before, side) {
        Some(p) => {
            let discarded = browser_discards(p, card_id);
            &&& cards_discarded(before, after, discarded)
            &&& after.info == (GameInfo {
                next_sorting_key: (before.info.next_sorting_key + discarded.len()) as u64,
                ..before.info
            })
            &&& after.player_state(side) == (PlayerState {
                prompt_queue: after.player_state(side).prompt_queue,
                ..before.player_state(side)
            })
            &&& after.player_state(side).prompt_queue@.len() == 0
            &&& after.player_state(side.opponent()) == before.player_state(side.opponent())
            &&& after.history == before.history
            &&& after.events == before.events
            &&& after.updates == before.updates
            &&& after.play_card == before.play_card
        },
        None => after == before,
    }
}

/// Handles resolution of a 'play card' browser shown to the `side` player, if
/// one is shown first: checks that the played card was offered, applies the
/// browser's [UnplayedAction] and clears the player's prompt queue.
pub fn invoke_play_card_browser(game: &mut GameState, side: Side, card_id: Option<CardId>) -> (r:
    Result<(), GameError>)
    requires
        old(game).wf(),
    ensures
        final(game).wf(),
        final(game).play_card == old(game).play_card,
        final(game).info.phase == old(game).info.phase,
        final(game).overlord_cards@.len() == old(game).overlord_cards@.len(),
        final(game).champion_cards@.len() == old(game).champion_cards@.len(),
        first_play_browser(*old(game), side) is None ==> r is Ok && *final(game) == *old(game),
        r is Err <==> browser_fails(*old(game), side, card_id),
        r is Ok ==> browser_resolved(*old(game), *final(game), side, card_id),
        first_play_browser(*old(game), side) matches Some(p) ==> {
            let played_ok = match card_id {
                Some(id) => p.cards@.contains(id),
                None => true,
            };
            let discarded = if p.unplayed_action == UnplayedAction::Discard {
                unplayed_cards(p.cards@, card_id)
            } else {
                Seq::empty()
            };
            &&& !played_ok ==> r == Err::<(), GameError>(
                GameError::UnexpectedPromptCard(card_id->0),
            ) && *final(game) == *old(game)
            &&& played_ok ==> (r is Ok <==> old(game).info.next_sorting_key + discarded.len()
                <= u64::MAX)
            &&& r is Ok ==> {
                &&& cards_discarded(*old(game), *final(game), discarded)
                &&& final(game).info == (GameInfo {
                    next_sorting_key: (old(game).info.next_sorting_key + discarded.len()) as u64,
                    ..old(game).info
                })
                &&& final(game).player_state(side) == (PlayerState {
                    prompt_queue: final(game).player_state(side).prompt_queue,
                    ..old(game).player_state(side)
                })
                &&& final(game).player_state(side).prompt_queue@.len() == 0
                &&& final(game).player_state(side.opponent()) == old(game).player_state(
                    side.opponent(),
                )
                &&& final(game).history == old(game).history
                &&& final(game).events == old(game).events
                &&& final(game).updates == old(game).updates
                &&& final(game).play_card == old(game).play_card
            }
        },
{
    let ghost g0 = *game;
    let queue = &game.player(side).prompt_queue;
    if queue.len() == 0 {
        return Ok(());
    }
    let (cards, unplayed_action) = match &queue[0] {
        GamePrompt::PlayCardBrowser(prompt) => (copy_ids(&prompt.cards), prompt.unplayed_action),
        _ => {
            return Ok(());
        },
    };
    proof {
        let q = g0.player_state(side).prompt_queue@;
        let (oc, cc) = (g0.overlord_cards@.len(), g0.champion_cards@.len());
        assert(queue_ids_in_range(q, oc, cc));
        assert(prompt_ids_in_range(q[0], oc, cc));
        assert forall|i: int| 0 <= i < cards@.len() implies #[trigger] g0.valid_id(cards@[i]) by {
            assert(id_in_range(cards@[i], oc, cc));
        }
    }
    match card_id {
        Some(id) => {
            let mut found = false;
            let mut i: usize = 0;
            while i < cards.len()
                invariant
                    i <= cards.len(),
                    found <==> exists|j: int| 0 <= j < i && cards@[j] == id,
                decreases cards.len() - i,
            {
                if cards[i] == id {
                    found = true;
                }
                i = i + 1;
            }
            if !found {
                return Err(GameError::UnexpectedPromptCard(id));
            }
            proof {
                let j = choose|j: int| 0 <= j < i && cards@[j] == id;
                assert(cards@.contains(id));
            }
        },
        None => {},
    }
    match unplayed_action {
        UnplayedAction::Keep => {},
        UnplayedAction::Discard => {
            let discard = unplayed_list(&cards, card_id);
            proof {
                lemma_unplayed_subset(cards@, card_id);
            }
            let mut i: usize = 0;
            while i < discard.len()
                invariant
                    game.wf(),
                    i <= discard.len(),
                    discard@ == unplayed_cards(cards@, card_id),
                    forall|k: int| 0 <= k < discard@.len() ==> cards@.contains(#[trigger] discard@[k]),
                    forall|k: int| 0 <= k < cards@.len() ==> #[trigger] g0.valid_id(cards@[k]),
                    g0.info.next_sorting_key + i <= u64::MAX,
                    g0 == *old(game),
                    first_play_browser(g0, side) matches Some(p) && p.cards@ == cards@
                        && p.unplayed_action == UnplayedAction::Discard,
                    card_id matches Some(id) ==> cards@.contains(id),
                    game.info == (GameInfo {
                        next_sorting_key: (g0.info.next_sorting_key + i) as u64,
                        ..g0.info
                    }),
                    cards_discarded(g0, *game, discard@.subrange(0, i as int)),
                    game.same_players_and_logs(g0),
                decreases discard.len() - i,
            {
                let c = discard[i];
                proof {
                    assert(cards@.contains(c));
                    let k = choose|k: int| 0 <= k < cards@.len() && cards@[k] == c;
                    assert(g0.valid_id(cards@[k]));
                }
                let ghost before = *game;
                match game.discard_card(c) {
                    Ok(()) => {},
                    Err(e) => {
                        return Err(e);
                    },
                }
                proof {
                    let s = discard@.subrange(0, i + 1);
                    let p = discard@.subrange(0, i as int);
                    assert forall|x: CardId| #![trigger game.card_state(x)] g0.valid_id(x) implies game.card_state(x)
                        == if s.contains(x) {
                        CardState {
                            position: CardPosition::DiscardPile(x.side),
                            sorting_key: game.card_state(x).sorting_key,
                            ..g0.card_state(x)
                        }
                    } else {
                        g0.card_state(x)
                    } by {
                        assert(s.contains(x) <==> (p.contains(x) || x == c)) by {
                            if s.contains(x) {
                                let k = choose|k: int| 0 <= k < s.len() && s[k] == x;
                                if k < i {
                                    assert(p[k] == x);
                                }
                            }
                            if p.contains(x) {
                                let k = choose|k: int| 0 <= k < p.len() && p[k] == x;
                                assert(s[k] == x);
                            }
                            if x == c {
                                assert(s[i as int] == x);
                            }
                        }
                        assert(before.card_state(x) == if p.contains(x) {
                            CardState {
                                position: CardPosition::DiscardPile(x.side),
                                sorting_key: before.card_state(x).sorting_key,
                                ..g0.card_state(x)
                            }
                        } else {
                            g0.card_state(x)
                        });
                        if x != c {
                            assert(before.card_state(x) == game.card_state(x));
                        }
                    }
                }
                i = i + 1;
            }
            proof {
                assert(discard@.subrange(0, discard@.len() as int) == discard@);
            }
        },
    }
    let ghost g1 = *game;
    game.clear_prompts(side);
    proof {
        assert(g1.player_state(side) == g0.player_state(side));
        let discarded = if unplayed_action == UnplayedAction::Discard {
            unplayed_cards(cards@, card_id)
        } else {
            Seq::empty()
        };
        assert(cards_discarded(g1, *game, Seq::empty())) by {
            assert forall|c: CardId| #![trigger game.card_state(c)] g1.valid_id(c) implies game.card_state(c)
                == g1.card_state(c) by {}
        }
        assert forall|c: CardId| #![trigger game.card_state(c)] g0.valid_id(c) implies game.card_state(c)
            == if discarded.contains(c) {
            CardState {
                position: CardPosition::DiscardPile(c.side),
                sorting_key: game.card_state(c).sorting_key,
                ..g0.card_state(c)
            }
        } else {
            g0.card_state(c)
        } by {
            assert(game.card_state(c) == g1.card_state(c));
        }
        if unplayed_action == UnplayedAction::Keep {
            assert(cards_discarded(g0, *game, Seq::empty())) by {
                assert forall|c: CardId| #![trigger game.card_state(c)] g0.valid_id(c) implies game.card_state(c)
                    == g0.card_state(c) by {}
            }
        }
    }
    Ok(())
}

/// Resolves the 'play card' browser, if any, from which the card is played.
fn apply_play_card_browser(game: &mut GameState, play_card: PlayCardData) -> (r: Result<
    PlayCardStep,
    GameError,
>)
    requires
        old(game).wf(),
    ensures
        final(game).wf(),
        r matches Ok(s) ==> s == PlayCardStep::PayManaCost,
        r is Err <==> browser_fails(*old(game), play_card.card_id.side, Some(play_card.card_id)),
        r is Ok ==> browser_resolved(
            *old(game),
            *final(game),
            play_card.card_id.side,
            Some(play_card.card_id),
        ),
        first_play_browser(*old(game), play_card.card_id.side) is None ==> r is Ok && *final(game)
            == *old(game),
        final(game).play_card == old(game).play_card,
        final(game).info.phase == old(game).info.phase,
        final(game).overlord_cards@.len() == old(game).overlord_cards@.len(),
        final(game).champion_cards@.len() == old(game).champion_cards@.len(),
{
    match invoke_play_card_browser(game, play_card.card_id.side, Some(play_card.card_id)) {
        Ok(()) => Ok(PlayCardStep::PayManaCost),
        Err(e) => Err(e),
    }
}

/// Pays the mana cost of a card which enters play face up.
fn pay_mana_cost(game: &mut GameState, play_card: PlayCardData) -> (r: Result<
    PlayCardStep,
    GameError,
>)
    requires
        old(game).wf(),
        old(game).valid_id(play_card.card_id),
    ensures
        final(game).wf(),
        ({
            let side = play_card.card_id.side;
            let definition = old(game).card_state(play_card.card_id).definition;
            if spec_enters_play_face_up(definition.card_type) {
                match definition.cost.mana {
                    Some(amount) => {
                        &&& (r is Ok <==> amount <= old(game).player_state(side).mana)
                        &&& r is Err ==> *final(game) == *old(game)
                        &&& r is Ok ==> {
                            &&& r == Ok::<PlayCardStep, GameError>(PlayCardStep::PayCustomCost)
                            &&& final(game).player_state(side) == (PlayerState {
                                mana: (old(game).player_state(side).mana - amount) as u32,
                                ..old(game).player_state(side)
                            })
                            &&& final(game).only_player_changed(*old(game), side)
                        }
                    },
                    None => r == Err::<PlayCardStep, GameError>(
                        GameError::MissingManaCost(play_card.card_id),
                    ) && *final(game) == *old(game),
                }
            } else {
                r == Ok::<PlayCardStep, GameError>(PlayCardStep::MoveToTargetPosition)
                    && *final(game) == *old(game)
            }
        }),
{
    if enters_play_face_up(game, play_card.card_id) {
        let amount = match mana_cost(game, play_card.card_id) {
            Some(a) => a,
            None => {
                return Err(GameError::MissingManaCost(play_card.card_id));
            },
        };
        match game.spend_mana(play_card.card_id.side, amount) {
            Ok(()) => Ok(PlayCardStep::PayCustomCost),
            Err(e) => Err(e),
        }
    } else {
        Ok(PlayCardStep::MoveToTargetPosition)
    }
}

/// Pays the additional cost of the card, if it has one. Banishing or
/// sacrificing the card pays for activating an ability, and costs nothing
/// when the card is played.
fn pay_custom_cost(game: &mut GameState, play_card: PlayCardData) -> (r: Result<
    PlayCardStep,
    GameError,
>)
    requires
        old(game).wf(),
        old(game).valid_id(play_card.card_id),
    ensures
        final(game).wf(),
        ({
            let side = play_card.card_id.side;
            let player = old(game).player_state(side);
            match old(game).card_state(play_card.card_id).definition.cost.custom_cost {
                Some(CustomCost::SpendActionPoints(n)) => {
                    &&& (r is Ok <==> n <= player.actions)
                    &&& r is Err ==> *final(game) == *old(game)
                    &&& r is Ok ==> final(game).player_state(side) == (PlayerState {
                        actions: (player.actions - n) as u32,
                        ..player
                    })
                },
                Some(CustomCost::LoseMana(n)) => {
                    &&& (r is Ok <==> n <= player.mana)
                    &&& r is Err ==> *final(game) == *old(game)
                    &&& r is Ok ==> final(game).player_state(side) == (PlayerState {
                        mana: (player.mana - n) as u32,
                        ..player
                    })
                },
                _ => r is Ok && *final(game) == *old(game),
            }
        }),
        r matches Ok(s) ==> s == PlayCardStep::TurnFaceUp,
        final(game).only_player_changed(*old(game), play_card.card_id.side),
{
    let side = play_card.card_id.side;
    let paid = match game.card(play_card.card_id).definition.cost.custom_cost {
        Some(CustomCost::SpendActionPoints(n)) => game.spend_action_points(side, n),
        Some(CustomCost::LoseMana(n)) => game.spend_mana(side, n),
        _ => Ok(()),
    };
    match paid {
        Ok(()) => Ok(PlayCardStep::TurnFaceUp),
        Err(e) => Err(e),
    }
}

/// Turns the card face up and records its play for the client.
fn turn_face_up(game: &mut GameState, play_card: PlayCardData) -> (r: Result<
    PlayCardStep,
    GameError,
>)
    requires
        old(game).wf(),
        old(game).valid_id(play_card.card_id),
    ensures
        final(game).wf(),
        r == Ok::<PlayCardStep, GameError>(PlayCardStep::MoveToTargetPosition),
        final(game).card_state(play_card.card_id) == (CardState {
            face_up: true,
            ..old(game).card_state(play_card.card_id)
        }),
        final(game).cards_agree_except(*old(game), play_card.card_id),
        final(game).info == old(game).info,
        old(game).updates.state == UpdateState::Push ==> {
            &&& final(game).updates.steps@.len() == old(game).updates.steps@.len() + 1
            &&& final(game).updates.steps@.last().update == GameUpdate::PlayCard(
                play_card.card_id.side,
                play_card.card_id,
            )
        },
        old(game).updates.state == UpdateState::Ignore ==> final(game).updates == old(game).updates,
        final(game).overlord == old(game).overlord,
        final(game).champion == old(game).champion,
        final(game).history == old(game).history,
        final(game).events == old(game).events,
        final(game).play_card == old(game).play_card,
{
    game.turn_face_up(play_card.card_id);
    game.record_update(GameUpdate::PlayCard(play_card.card_id.side, play_card.card_id));
    Ok(PlayCardStep::MoveToTargetPosition)
}

/// Moves the card to where it comes to rest.
fn move_to_target_position(game: &mut GameState, play_card: PlayCardData) -> (r: Result<
    PlayCardStep,
    GameError,
>)
    requires
        old(game).wf(),
        old(game).valid_id(play_card.card_id),
    ensures
        final(game).wf(),
        ({
            let card_type = old(game).card_state(play_card.card_id).definition.card_type;
            match spec_played_position(card_type, play_card.card_id.side, play_card.target) {
                Some(position) => {
                    &&& (r is Ok <==> old(game).info.next_sorting_key < u64::MAX)
                    &&& r is Err ==> *final(game) == *old(game)
                    &&& r is Ok ==> r == Ok::<PlayCardStep, GameError>(PlayCardStep::Finish)
                        && card_moved(*old(game), *final(game), play_card.card_id, position)
                },
                None => r == Err::<PlayCardStep, GameError>(
                    GameError::NoValidPosition(play_card.card_id),
                ) && *final(game) == *old(game),
            }
        }),
{
    let position = match played_position(
        game,
        play_card.card_id.side,
        play_card.card_id,
        play_card.target,
    ) {
        Some(p) => p,
        None => {
            return Err(GameError::NoValidPosition(play_card.card_id));
        },
    };
    match game.move_card(play_card.card_id, position) {
        Ok(()) => Ok(PlayCardStep::Finish),
        Err(e) => Err(e),
    }
}

/// Ends the play: records the play of the card and dispatches it to the
/// abilities which respond to a card being played.
fn finish(game: &mut GameState, play_card: PlayCardData) -> (r: Result<PlayCardStep, GameError>)
    requires
        old(game).wf(),
    ensures
        final(game).wf(),
        r is Ok ==> r == Ok::<PlayCardStep, GameError>(PlayCardStep::Finish),
        r is Ok ==> final(game).play_card is None,
        r is Ok ==> final(game).overlord_cards@.len() == old(game).overlord_cards@.len(),
        r is Ok ==> final(game).champion_cards@.len() == old(game).champion_cards@.len(),
        r is Ok ==> play_dispatched(*old(game), *final(game), play_card),
        r is Err ==> play_dispatch_fails(*old(game), play_card),
{
    game.invoke_event(GameEvent::PlayCard(play_card.card_id, play_card.target));
    game.play_card = None;
    match fire_event(game, EventKind::PlayCard, EventSubject::Card(play_card.card_id)) {
        Ok(()) => Ok(PlayCardStep::Finish),
        Err(e) => Err(e),
    }
}

/// `game` once the play of `play.card_id` was recorded and the play ended.
pub open spec fn play_recorded(game: GameState, play: PlayCardData, events: Vec<GameEvent>) -> bool {
    events@ == game.events@.push(GameEvent::PlayCard(play.card_id, play.target))
}

/// `after` is `before` once the play of `play.card_id` was recorded, the
/// play ended and the play was dispatched to the abilities of the cards.
pub open spec fn play_dispatched(before: GameState, after: GameState, play: PlayCardData) -> bool {
    exists|mid: GameState|
        #[trigger] event_dispatched(
            mid,
            after,
            EventKind::PlayCard,
            EventSubject::Card(play.card_id),
        ) && play_recorded(before, play, mid.events) && mid == (GameState {
            events: mid.events,
            play_card: None,
            ..before
        })
}

/// Dispatching the play of `play.card_id`, once recorded and ended, fails.
pub open spec fn play_dispatch_fails(game: GameState, play: PlayCardData) -> bool {
    exists|mid: GameState|
        #[trigger] dispatch_fails(mid, EventKind::PlayCard, EventSubject::Card(play.card_id))
            && play_recorded(game, play, mid.events) && mid == (GameState {
            events: mid.events,
            play_card: None,
            ..game
        })
}

/// The step `play.step` of playing a card fails in `game`: a position, a
/// sorting key, an action point or mana is missing, or the browser which
/// offers the card does not offer it.
pub open spec fn step_fails(game: GameState, play: PlayCardData) -> bool {
    let side = play.card_id.side;
    let player = game.player_state(side);
    let definition = game.card_state(play.card_id).definition;
    match play.step {
        PlayCardStep::MoveToPlayedPosition => game.info.next_sorting_key == u64::MAX,
        PlayCardStep::PayActionPoints => player.actions < definition.cost.actions,
        PlayCardStep::ApplyPlayCardBrowser => browser_fails(game, side, Some(play.card_id)),
        PlayCardStep::PayManaCost => spec_enters_play_face_up(definition.card_type) && match definition.cost.mana {
            Some(amount) => amount > player.mana,
            None => true,
        },
        PlayCardStep::PayCustomCost => match definition.cost.custom_cost {
            Some(CustomCost::SpendActionPoints(n)) => n > player.actions,
            Some(CustomCost::LoseMana(n)) => n > player.mana,
            _ => false,
        },
        PlayCardStep::MoveToTargetPosition => match spec_played_position(
            definition.card_type,
            side,
            play.target,
        ) {
            Some(_) => game.info.next_sorting_key == u64::MAX,
            None => true,
        },
        PlayCardStep::Finish => play_dispatch_fails(game, play),
        _ => false,
    }
}

/// `after` is `before` once the step `play.step` of playing a card
/// succeeded, and `next` is the step which follows it.
pub open spec fn step_done(
    before: GameState,
    after: GameState,
    play: PlayCardData,
    next: PlayCardStep,
) -> bool {
    let side = play.card_id.side;
    let player = before.player_state(side);
    let definition = before.card_state(play.card_id).definition;
    match play.step {
        PlayCardStep::Begin => next == PlayCardStep::CheckLimits && after == before,
        PlayCardStep::CheckLimits => next == PlayCardStep::AddToHistory && match spec_limit_prompt(
            before,
            play,
        ) {
            Some((cards, context)) => prompt_pushed(before, after, side, cards, context),
            None => after == before,
        },
        PlayCardStep::AddToHistory => {
            &&& next == PlayCardStep::MoveToPlayedPosition
            &&& after.history@ == before.history@.push(
                HistoryEntry {
                    turn: before.info.turn,
                    event: HistoryEvent::PlayCard(play.card_id, play.target, play.initiated_by),
                },
            )
            &&& after == (GameState { history: after.history, ..before })
        },
        PlayCardStep::MoveToPlayedPosition => next == PlayCardStep::PayActionPoints && card_moved(
            before,
            after,
            play.card_id,
            CardPosition::Played(side, play.target),
        ),
        PlayCardStep::PayActionPoints => {
            &&& next == PlayCardStep::ApplyPlayCardBrowser
            &&& after.player_state(side) == (PlayerState {
                actions: (player.actions - definition.cost.actions) as u32,
                ..player
            })
            &&& after.only_player_changed(before, side)
        },
        PlayCardStep::ApplyPlayCardBrowser => next == PlayCardStep::PayManaCost
            && browser_resolved(before, after, side, Some(play.card_id)),
        PlayCardStep::PayManaCost => if spec_enters_play_face_up(definition.card_type) {
            &&& next == PlayCardStep::PayCustomCost
            &&& after.player_state(side) == (PlayerState {
                mana: (player.mana - definition.cost.mana->0) as u32,
                ..player
            })
            &&& after.only_player_changed(before, side)
        } else {
            next == PlayCardStep::MoveToTargetPosition && after == before
        },
        PlayCardStep::PayCustomCost => {
            &&& next == PlayCardStep::TurnFaceUp
            &&& after.only_player_changed(before, side)
            &&& match definition.cost.custom_cost {
                Some(CustomCost::SpendActionPoints(n)) => after.player_state(side) == (
                PlayerState { actions: (player.actions - n) as u32, ..player }),
                Some(CustomCost::LoseMana(n)) => after.player_state(side) == (PlayerState {
                    mana: (player.mana - n) as u32,
                    ..player
                }),
                _ => after == before,
            }
        },
        PlayCardStep::TurnFaceUp => {
            &&& next == PlayCardStep::MoveToTargetPosition
            &&& after.card_state(play.card_id) == (CardState {
                face_up: true,
                ..before.card_state(play.card_id)
            })
            &&& after.cards_agree_except(before, play.card_id)
            &&& after.info == before.info
            &&& before.updates.state == UpdateState::Push ==> {
                &&& after.updates.steps@.len() == before.updates.steps@.len() + 1
                &&& after.updates.steps@.last().update == GameUpdate::PlayCard(side, play.card_id)
            }
            &&& before.updates.state == UpdateState::Ignore ==> after.updates == before.updates
            &&& after.overlord == before.overlord
            &&& after.champion == before.champion
            &&& after.history == before.history
            &&& after.events == before.events
            &&& after.play_card == before.play_card
        },
        PlayCardStep::MoveToTargetPosition => next == PlayCardStep::Finish && card_moved(
            before,
            after,
            play.card_id,
            spec_played_position(definition.card_type, side, play.target)->0,
        ),
        PlayCardStep::Finish => {
            &&& next == PlayCardStep::Finish
            &&& after.play_card is None
            &&& play_dispatched(before, after, play)
        },
    }
}

/// Performs the step `play_card.step` and returns the step which follows it.
fn evaluate_play_step(game: &mut GameState, play_card: PlayCardData) -> (r: Result<
    PlayCardStep,
    GameError,
>)
    requires
        old(game).wf(),
        old(game).valid_id(play_card.card_id),
    ensures
        final(game).wf(),
        r is Err ==> step_fails(*old(game), play_card),
        play_card.step != PlayCardStep::Finish ==> (r is Err <==> step_fails(*old(game), play_card)),
        r matches Ok(next) ==> step_done(*old(game), *final(game), play_card, next),
        r matches Ok(next) ==> play_card.step == PlayCardStep::Finish || step_rank(next)
            < step_rank(play_card.step),
        r is Ok && play_card.step == PlayCardStep::Finish ==> final(game).play_card is None,
        r is Ok && play_card.step != PlayCardStep::Finish ==> final(game).play_card == old(
            game,
        ).play_card,
        r is Ok ==> final(game).overlord_cards@.len() == old(game).overlord_cards@.len(),
        r is Ok ==> final(game).champion_cards@.len() == old(game).champion_cards@.len(),
{
    match play_card.step {
        PlayCardStep::Begin => Ok(PlayCardStep::CheckLimits),
        PlayCardStep::CheckLimits => check_limits(game, play_card),
        PlayCardStep::AddToHistory => add_to_history(game, play_card),
        PlayCardStep::MoveToPlayedPosition => move_to_played_position(game, play_card),
        PlayCardStep::PayActionPoints => pay_action_points(game, play_card),
        PlayCardStep::ApplyPlayCardBrowser => apply_play_card_browser(game, play_card),
        PlayCardStep::PayManaCost => pay_mana_cost(game, play_card),
        PlayCardStep::PayCustomCost => pay_custom_cost(game, play_card),
        PlayCardStep::TurnFaceUp => turn_face_up(game, play_card),
        PlayCardStep::MoveToTargetPosition => move_to_target_position(game, play_card),
        PlayCardStep::Finish => finish(game, play_card),
    }
}

/// `game` with the card being played, if any, moved on to the step `next`.
pub open spec fn play_advanced(game: GameState, next: PlayCardStep) -> GameState {
    match game.play_card {
        Some(p) => GameState { play_card: Some(PlayCardData { step: next, ..p }), ..game },
        None => game,
    }
}

/// `after` is `before` once the play of a card, which could advance, took
/// one step successfully.
pub open spec fn run_step(before: GameState, after: GameState) -> bool {
    &&& before.play_card is Some
    &&& !play_paused(before)
    &&& exists|mid: GameState, next: PlayCardStep|
        #[trigger] step_done(before, mid, before.play_card->0, next) && after == play_advanced(
            mid,
            next,
        )
}

/// Each state of `trace` follows from the one before it by a successful
/// step of the play.
pub open spec fn is_run_trace(trace: Seq<GameState>) -> bool {
    forall|i: int| #![trigger trace[i]] 0 <= i < trace.len() - 1 ==> run_step(trace[i], trace[i + 1])
}

/// Running the play from `start` can reach `end` by successful steps.
pub open spec fn run_reaches(start: GameState, end: GameState) -> bool {
    exists|trace: Seq<GameState>|
        #[trigger] is_run_trace(trace) && trace.len() >= 1 && trace[0] == start && trace.last()
            == end
}

/// The play, run from `game`, stops with an error: a state that it reaches
/// can advance and its next step fails.
pub open spec fn run_fails(game: GameState) -> bool {
    exists|g: GameState|
        #[trigger] run_reaches(game, g) && !play_paused(g) && g.play_card is Some && step_fails(
            g,
            g.play_card->0,
        )
}

/// Run the play card state machine, if needed.
///
/// This advances the state machine through its steps. The state machine
/// pauses if a player is presented with a prompt to respond to. If no play
/// action is currently active or the state machine cannot currently advance,
/// this function silently ignores the run request.
pub fn run(game: &mut GameState) -> (r: Result<(), GameError>)
    requires
        old(game).wf(),
    ensures
        final(game).wf(),
        play_paused(*old(game)) ==> r is Ok && *final(game) == *old(game),
        r is Ok ==> play_paused(*final(game)) && run_reaches(*old(game), *final(game)),
        r is Err ==> run_fails(*old(game)),
        r is Ok ==> (final(game).play_card matches Some(p) ==> old(game).play_card matches Some(q)
            && p == (PlayCardData { step: p.step, ..q }) && step_rank(p.step) <= step_rank(q.step)),
{
    let ghost mut trace: Seq<GameState> = seq![*game];
    loop
        invariant
            game.wf(),
            play_paused(*old(game)) ==> *game == *old(game),
            game.play_card matches Some(p) ==> old(game).play_card matches Some(q) && p
                == (PlayCardData { step: p.step, ..q }) && step_rank(p.step) <= step_rank(q.step),
            is_run_trace(trace),
            trace.len() >= 1,
            trace[0] == *old(game),
            trace.last() == *game,
        ensures
            game.wf(),
            play_paused(*game),
            play_paused(*old(game)) ==> *game == *old(game),
            game.play_card matches Some(p) ==> old(game).play_card matches Some(q) && p
                == (PlayCardData { step: p.step, ..q }) && step_rank(p.step) <= step_rank(q.step),
            is_run_trace(trace),
            trace.len() >= 1,
            trace[0] == *old(game),
            trace.last() == *game,
        decreases match game.play_card {
            Some(p) => step_rank(p.step) + 1,
            None => 0,
        },
    {
        if has_non_play_prompt(&game.overlord.prompt_queue) || has_non_play_prompt(
            &game.champion.prompt_queue,
        ) {
            break ;
        }
        if game.info.phase != GamePhase::Play {
            break ;
        }
        match game.play_card {
            Some(play_card) => {
                let ghost before = *game;
                let step = match evaluate_play_step(game, play_card) {
                    Ok(s) => s,
                    Err(e) => {
                        proof {
                            assert(run_reaches(*old(game), before));
                        }
                        return Err(e);
                    },
                };
                let ghost mid = *game;
                match &mut game.play_card {
                    Some(play) => {
                        play.step = step;
                    },
                    None => {},
                }
                proof {
                    assert(*game == play_advanced(mid, step));
                    assert(step_done(before, mid, before.play_card->0, step));
                    assert(run_step(before, *game));
                    let t2 = trace.push(*game);
                    assert forall|i: int| #![trigger t2[i]] 0 <= i < t2.len() - 1 implies run_step(
                        t2[i],
                        t2[i + 1],
                    ) by {
                        if i < trace.len() - 1 {
                            assert(t2[i] == trace[i]);
                            assert(t2[i + 1] == trace[i + 1]);
                            assert(run_step(trace[i], trace[i + 1]));
                        } else {
                            assert(t2[i] == before);
                        }
                    }
                    trace = t2;
                }
            },
            None => {
                break ;
            },
        }
    }
    proof {
        assert(run_reaches(*old(game), *game));
    }
    Ok(())
}

/// Who starts playing `card_id` in `game`: the ability which opened the 'play
/// card' browser shown first to the card's owner, or a game action.
pub open spec fn spec_play_initiated_by(game: GameState, card_id: CardId) -> PlayInitiatedBy {
    match first_play_browser(game, card_id.side) {
        Some(p) => PlayInitiatedBy::Ability(p.initiated_by),
        None => PlayInitiatedBy::GameAction,
    }
}

/// Starts a new play card action, either as a result the explicit game action
/// or as an effect of another card, and runs it as far as it can go.
pub fn initiate(game: &mut GameState, card_id: CardId, target: CardTarget) -> (r: Result<
    (),
    GameError,
>)
    requires
        old(game).wf(),
        old(game).valid_id(card_id),
    ensures
        final(game).wf(),
        old(game).play_card is Some ==> r == Err::<(), GameError>(
            GameError::PlayAlreadyInProgress,
        ) && *final(game) == *old(game),
        old(game).play_card is None ==> {
            let started = PlayCardData {
                card_id,
                initiated_by: spec_play_initiated_by(*old(game), card_id),
                target,
                step: PlayCardStep::Begin,
            };
            &&& r is Ok ==> play_paused(*final(game)) && run_reaches(
                GameState { play_card: Some(started), ..*old(game) },
                *final(game),
            )
            &&& r is Err ==> run_fails(GameState { play_card: Some(started), ..*old(game) })
            &&& r is Ok ==> (final(game).play_card matches Some(p) ==> p == (PlayCardData {
                step: p.step,
                ..started
            }))
            &&& play_paused(GameState { play_card: Some(started), ..*old(game) }) ==> r is Ok
                && *final(game) == (GameState { play_card: Some(started), ..*old(game) })
        },
{
    if game.play_card.is_some() {
        return Err(GameError::PlayAlreadyInProgress);
    }
    let queue = &game.player(card_id.side).prompt_queue;
    let initiated_by = if queue.len() > 0 {
        match &queue[0] {
            GamePrompt::PlayCardBrowser(prompt) => PlayInitiatedBy::Ability(prompt.initiated_by),
            _ => PlayInitiatedBy::GameAction,
        }
    } else {
        PlayInitiatedBy::GameAction
    };
    game.play_card = Some(
        PlayCardData { card_id, initiated_by, target, step: PlayCardStep::Begin },
    );
    run(game)
}

/// The card limits of a room: playing a Project or a Scheme into a room that
/// already holds an occupant (a room holds at most one) asks the player to
/// sacrifice one of the occupants, naming the card type played; playing a
/// minion into a room that already has four defenders asks to sacrifice one
/// of them; a room below its limit asks nothing, and neither do spells.
pub proof fn lemma_room_limits(game: GameState, play: PlayCardData, room: RoomId)
    ensures
        ({
            let t = game.card_state(play.card_id).definition.card_type;
            let occupants = selected_cards(game, Side::Overlord, occupants_filter(room));
            let defenders = selected_cards(game, Side::Overlord, defenders_filter(room));
            &&& play.target == CardTarget::Room(room) && (t == CardType::Project || t
                == CardType::Scheme) && occupants.len() >= 1 ==> spec_limit_prompt(game, play)
                == Some((occupants, PromptContext::CardLimit(t, None)))
            &&& play.target == CardTarget::Room(room) && (t == CardType::Project || t
                == CardType::Scheme) && occupants.len() == 0 ==> spec_limit_prompt(game, play)
                is None
            &&& play.target == CardTarget::Room(room) && t == CardType::Minion && defenders.len()
                >= 4 ==> spec_limit_prompt(game, play) == Some(
                (defenders, PromptContext::CardLimit(CardType::Minion, None)),
            )
            &&& play.target == CardTarget::Room(room) && t == CardType::Minion && defenders.len()
                < 4 ==> spec_limit_prompt(game, play) is None
            &&& t == CardType::Spell ==> spec_limit_prompt(game, play) is None
        }),
{
}

/// The card limits of the Champion's arena: a third weapon, a fifth
/// artifact, a fourth evocation or a third ally asks the Champion to
/// sacrifice one of those already in play, naming its kind.
pub proof fn lemma_arena_limits(game: GameState, play: PlayCardData)
    ensures
        ({
            let definition = game.card_state(play.card_id).definition;
            let t = definition.card_type;
            let weapons = selected_cards(game, Side::Champion, CardFilter::WeaponsInPlay);
            let artifacts = selected_cards(game, Side::Champion, arena_filter(CardType::Artifact));
            let evocations = selected_cards(game, Side::Champion, arena_filter(CardType::Evocation));
            let allies = selected_cards(game, Side::Champion, arena_filter(CardType::Ally));
            &&& play.target == CardTarget::NoTarget && t == CardType::Artifact
                && definition.subtypes@.contains(CardSubtype::Weapon) && weapons.len() >= 2
                ==> spec_limit_prompt(game, play) == Some(
                (weapons, PromptContext::CardLimit(CardType::Artifact, Some(CardSubtype::Weapon))),
            )
            &&& play.target == CardTarget::NoTarget && t == CardType::Artifact
                && !definition.subtypes@.contains(CardSubtype::Weapon) && artifacts.len() >= 4
                ==> spec_limit_prompt(game, play) == Some(
                (artifacts, PromptContext::CardLimit(CardType::Artifact, None)),
            )
            &&& play.target == CardTarget::NoTarget && t == CardType::Evocation && evocations.len()
                >= 3 ==> spec_limit_prompt(game, play) == Some(
                (evocations, PromptContext::CardLimit(CardType::Evocation, None)),
            )
            &&& play.target == CardTarget::NoTarget && t == CardType::Ally && allies.len() >= 2
                ==> spec_limit_prompt(game, play) == Some(
                (allies, PromptContext::CardLimit(CardType::Ally, None)),
            )
            &&& play.target == CardTarget::NoTarget && t == CardType::Ally && allies.len() < 2
                ==> spec_limit_prompt(game, play) is None
        }),
{
}

} // verus!
