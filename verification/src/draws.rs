//! Drawing cards as the rules run it: the draw is announced to the abilities
//! which respond to draws, which may cut it short, then the cards are drawn
//! and counted for the turn.

use vstd::prelude::*;

use crate::card_definition::{EventDelegate, EventSubject, Mutation, Requirement, Scope};
use crate::cards_beryl::{draws_limited, limited_quantity};
use crate::dispatch::{
    fire_nested_event, lemma_single_nested_listener_acts, listeners, nested_dispatch_fails,
    nested_event_dispatched, EventKind, Listener, end_raid_announced_nested,
    raid_end_dispatched_nested, raid_end_fails_nested,
};
use crate::effects::{apply_mutation, mutation_applied, mutation_fits, raid_kept_or_ended};
use crate::error::GameError;
use crate::game_state::{DrawCardsState, GameInfo, GameState, HistoryCounters, PlayerState};
use crate::mutations::{cards_drawn, draw_cards, draw_fits};
use crate::primitives::{CardId, Side};
use crate::selection::{chosen_are_topmost, deck_cards, is_selection_of};

verus! {

/// `mid` is `game` with a draw of `count` cards by `side` under way.
pub open spec fn draw_under_way(game: GameState, mid: GameState, side: Side, count: u32) -> bool {
    &&& mid.info.draws@ == game.info.draws@.push(DrawCardsState { side, quantity: count })
    &&& mid == (GameState { info: GameInfo { draws: mid.info.draws, ..game.info }, ..game })
}

/// `ended` is `game` once the last draw under way was taken off.
pub open spec fn draw_taken_off(game: GameState, ended: GameState) -> bool {
    &&& game.info.draws@.len() > 0
    &&& ended.info.draws@ == game.info.draws@.drop_last()
    &&& ended == (GameState { info: GameInfo { draws: ended.info.draws, ..game.info }, ..game })
}

/// The quantity of the last draw under way in `game`.
pub open spec fn quantity_left(game: GameState) -> u32 {
    game.info.draws@.last().quantity
}

/// `after` is `before` once the `side` player drew the cards `drawn`, the
/// topmost `count` of their deck or all of it when it holds fewer.
pub open spec fn drew(before: GameState, after: GameState, side: Side, count: u32, drawn: Seq<CardId>) -> bool {
    let deck = deck_cards(before, side);
    &&& is_selection_of(drawn, deck, count as usize)
    &&& chosen_are_topmost(before, drawn, deck)
    &&& cards_drawn(before, after, side, drawn)
    &&& after.overlord_cards@.len() == before.overlord_cards@.len()
    &&& after.champion_cards@.len() == before.champion_cards@.len()
    &&& after.info == (GameInfo {
        next_sorting_key: (before.info.next_sorting_key + drawn.len()) as u64,
        ..before.info
    })
    &&& after.same_players_and_logs(before)
}

/// `after` is `before` with `n` more cards counted as drawn by `side` this
/// turn; the count stays at the largest `u32` once it gets there.
pub open spec fn drawn_counted(before: GameState, after: GameState, side: Side, n: nat) -> bool {
    let player = before.player_state(side);
    let total = player.counters.cards_drawn + n;
    &&& after.player_state(side) == (PlayerState {
        counters: HistoryCounters {
            cards_drawn: if total > u32::MAX {
                u32::MAX
            } else {
                total as u32
            },
            ..player.counters
        },
        ..player
    })
    &&& after.only_player_changed(before, side)
}

/// `after` is `before` once the `side` player drew `count` cards as the
/// rules run it: the draw was put under way and announced to the abilities
/// which respond to draws, then taken off, and the quantity it was left with
/// was drawn, as the cards `drawn`, and counted for the turn.
pub open spec fn draw_run(
    before: GameState,
    after: GameState,
    side: Side,
    count: u32,
    drawn: Seq<CardId>,
) -> bool {
    exists|mid: GameState, announced: GameState, ended: GameState, moved: GameState|
        #![trigger nested_event_dispatched(mid, announced, EventKind::WillDrawCards, EventSubject::Player(side)), drew(ended, moved, side, quantity_left(announced), drawn)]
        {
            &&& draw_under_way(before, mid, side, count)
            &&& nested_event_dispatched(mid, announced, EventKind::WillDrawCards, EventSubject::Player(side))
            &&& draw_taken_off(announced, ended)
            &&& drew(ended, moved, side, quantity_left(announced), drawn)
            &&& drawn_counted(moved, after, side, drawn.len())
        }
}

/// After the draw was announced in `announced`, taking it off or drawing
/// what is left fails: no draw is under way any more, or the sorting keys
/// run out.
pub open spec fn announced_draw_fails(announced: GameState, side: Side) -> bool {
    ||| announced.info.draws@.len() == 0
    ||| exists|ended: GameState|
        #[trigger] draw_taken_off(announced, ended) && !draw_fits(
            ended,
            side,
            quantity_left(announced) as usize,
        )
}

/// Drawing `count` cards by `side` as the rules run it fails: announcing the
/// draw fails, or taking it off or drawing what is left does.
pub open spec fn draw_run_fails(before: GameState, side: Side, count: u32) -> bool {
    exists|mid: GameState|
        #[trigger] draw_under_way(before, mid, side, count) && {
            ||| nested_dispatch_fails(mid, EventKind::WillDrawCards, EventSubject::Player(side))
            ||| exists|announced: GameState|
                #[trigger] nested_event_dispatched(
                    mid,
                    announced,
                    EventKind::WillDrawCards,
                    EventSubject::Player(side),
                ) && announced_draw_fails(announced, side)
        }
}

/// The `side` player draws `count` cards: the draw is put under way and
/// announced to the abilities which respond to draws, which may cut it
/// short; then it is taken off, the quantity it was left with is drawn from
/// the top of the deck and counted as drawn this turn. Returns the cards
/// drawn.
pub fn draw_with_limits(game: &mut GameState, side: Side, count: u32) -> (r: Result<
    Vec<CardId>,
    GameError,
>)
    requires
        old(game).wf(),
    ensures
        final(game).wf(),
        r matches Ok(drawn) ==> draw_run(*old(game), *final(game), side, count, drawn@),
        r is Err ==> draw_run_fails(*old(game), side, count),
        r is Ok ==> final(game).play_card == old(game).play_card,
        r is Ok ==> raid_kept_or_ended(*old(game), *final(game)),
        r is Ok ==> final(game).overlord_cards@.len() == old(game).overlord_cards@.len(),
        r is Ok ==> final(game).champion_cards@.len() == old(game).champion_cards@.len(),
{
    game.info.draws.push(DrawCardsState { side, quantity: count });
    let ghost mid = *game;
    assert(draw_under_way(*old(game), mid, side, count));
    match fire_nested_event(game, EventKind::WillDrawCards, EventSubject::Player(side)) {
        Ok(()) => {},
        Err(e) => {
            return Err(e);
        },
    }
    let ghost announced = *game;
    let state = match game.info.draws.pop() {
        Some(s) => s,
        None => {
            return Err(GameError::NoActiveDraw);
        },
    };
    let ghost ended = *game;
    assert(draw_taken_off(announced, ended));
    let drawn = match draw_cards(game, side, state.quantity as usize) {
        Ok(d) => d,
        Err(e) => {
            assert(announced_draw_fails(announced, side));
            return Err(e);
        },
    };
    let ghost moved = *game;
    assert(drew(ended, moved, side, quantity_left(announced), drawn@));
    let n: u32 = drawn.len() as u32;
    match side {
        Side::Overlord => {
            game.overlord.counters.cards_drawn = game.overlord.counters.cards_drawn.saturating_add(
                n,
            );
        },
        Side::Champion => {
            game.champion.counters.cards_drawn = game.champion.counters.cards_drawn.saturating_add(
                n,
            );
        },
    }
    assert(drawn_counted(moved, *game, side, drawn@.len()));
    Ok(drawn)
}

/// Magistrate's Thronehall keeps the Champion to 2 cards drawn in a turn:
/// while it is in play, and its limit is the only ability which responds to
/// draws, a draw by the Champion takes no more cards than 2 less those drawn
/// this turn already, and leaves the count of cards drawn this turn at no
/// more than 2, unless it was past 2 before.
pub proof fn lemma_thronehall_caps_champion_draws(
    before: GameState,
    after: GameState,
    count: u32,
    drawn: Seq<CardId>,
    scope: Scope,
)
    requires
        before.valid_id(scope.spec_card_id()),
        before.card_state(scope.spec_card_id()).position.is_in_play(),
        listeners(before, EventKind::WillDrawCards) == seq![
            Listener {
                scope,
                delegate: EventDelegate {
                    requirement: Requirement::InPlay,
                    mutation: Mutation::LimitChampionDraws(2),
                },
            },
        ],
        draw_run(before, after, Side::Champion, count, drawn),
    ensures
        drawn.len() <= limited_quantity(2, before.champion.counters.cards_drawn, count),
        before.champion.counters.cards_drawn <= 2 ==> after.champion.counters.cards_drawn <= 2,
        before.champion.counters.cards_drawn > 2 ==> after.champion.counters.cards_drawn
            == before.champion.counters.cards_drawn,
{
    let subject = EventSubject::Player(Side::Champion);
    let (mid, announced, ended, moved) = choose|
        mid: GameState,
        announced: GameState,
        ended: GameState,
        moved: GameState,
    |
        #![trigger nested_event_dispatched(mid, announced, EventKind::WillDrawCards, subject), drew(ended, moved, Side::Champion, quantity_left(announced), drawn)]
        {
            &&& draw_under_way(before, mid, Side::Champion, count)
            &&& nested_event_dispatched(mid, announced, EventKind::WillDrawCards, subject)
            &&& draw_taken_off(announced, ended)
            &&& drew(ended, moved, Side::Champion, quantity_left(announced), drawn)
            &&& drawn_counted(moved, after, Side::Champion, drawn.len())
        };
    assert(listeners(mid, EventKind::WillDrawCards) == listeners(before, EventKind::WillDrawCards));
    lemma_single_nested_listener_acts(mid, announced, EventKind::WillDrawCards, subject);
    assert(mid.card_state(scope.spec_card_id()) == before.card_state(scope.spec_card_id()));
    assert(draws_limited(mid, announced, scope, 2));
    let last = mid.info.draws@.last();
    assert(last == DrawCardsState { side: Side::Champion, quantity: count });
    assert(quantity_left(announced) == limited_quantity(2, before.champion.counters.cards_drawn, count));
}

/// `after` is `before` once the effect `mutation` of the ability of `scope`
/// was carried out: a draw as the rules run it, announced to the abilities
/// which respond to draws; mana taken from the card, with the taking then
/// passed to the abilities which respond to it; any other effect as
/// [mutation_applied] says.
pub open spec fn effect_done(before: GameState, after: GameState, scope: Scope, mutation: Mutation) -> bool {
    match mutation {
        Mutation::DrawCards(side, count) => exists|drawn: Seq<CardId>|
            #[trigger] draw_run(before, after, side, count, drawn),
        Mutation::TakeStoredMana(_, _) => exists|taken: GameState|
            #[trigger] mutation_applied(before, taken, scope, mutation) && nested_event_dispatched(
                taken,
                after,
                EventKind::StoredManaTaken,
                EventSubject::Card(scope.spec_card_id()),
            ),
        Mutation::EndRaid(outcome) => before.info.raid is Some && raid_end_dispatched_nested(
            before,
            after,
            outcome,
        ),
        _ => mutation_applied(before, after, scope, mutation),
    }
}

/// Carrying out the effect `mutation` of the ability of `scope` in `game`
/// fails: the draw run fails, the effect cannot be carried out, or passing
/// the taking of mana to the abilities fails.
pub open spec fn effect_fails(game: GameState, scope: Scope, mutation: Mutation) -> bool {
    match mutation {
        Mutation::DrawCards(side, count) => draw_run_fails(game, side, count),
        Mutation::TakeStoredMana(_, _) => {
            ||| !mutation_fits(game, scope, mutation)
            ||| exists|taken: GameState|
                #[trigger] mutation_applied(game, taken, scope, mutation) && nested_dispatch_fails(
                    taken,
                    EventKind::StoredManaTaken,
                    EventSubject::Card(scope.spec_card_id()),
                )
        },
        Mutation::EndRaid(outcome) => game.info.raid is None || raid_end_fails_nested(
            game,
            outcome,
        ),
        _ => !mutation_fits(game, scope, mutation),
    }
}

/// Carries out the effect `mutation` of the ability of `scope`: a draw is
/// run by [draw_with_limits]; the taking of stored mana is carried out by
/// [apply_mutation] and then passed to the abilities which respond to it;
/// the end of the raid is dispatched to the abilities which respond to it;
/// any other effect is carried out by [apply_mutation].
pub fn carry_out_effect(game: &mut GameState, scope: Scope, mutation: Mutation) -> (r: Result<
    (),
    GameError,
>)
    requires
        old(game).wf(),
        old(game).valid_id(scope.spec_card_id()),
    ensures
        final(game).wf(),
        r is Ok ==> effect_done(*old(game), *final(game), scope, mutation),
        r is Err ==> effect_fails(*old(game), scope, mutation),
        !(mutation is DrawCards) && !(mutation is TakeStoredMana) && !(mutation is EndRaid) ==> (r
            is Ok <==> mutation_fits(
            *old(game),
            scope,
            mutation,
        )),
        r is Ok ==> final(game).play_card == old(game).play_card,
        r is Ok ==> raid_kept_or_ended(*old(game), *final(game)),
        r is Ok ==> final(game).overlord_cards@.len() == old(game).overlord_cards@.len(),
        r is Ok ==> final(game).champion_cards@.len() == old(game).champion_cards@.len(),
{
    match mutation {
        Mutation::DrawCards(side, count) => match draw_with_limits(game, side, count) {
            Ok(_) => Ok(()),
            Err(e) => Err(e),
        },
        Mutation::TakeStoredMana(_, _) => {
            match apply_mutation(game, scope, mutation) {
                Ok(()) => {},
                Err(e) => {
                    return Err(e);
                },
            }
            let ghost taken = *game;
            fire_nested_event(game, EventKind::StoredManaTaken, EventSubject::Card(scope.card_id()))
        },
        Mutation::EndRaid(outcome) => end_raid_announced_nested(game, outcome),
        _ => apply_mutation(game, scope, mutation),
    }
}

} // verus!
