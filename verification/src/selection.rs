//! Choosing some cards out of several: the top cards of a deck, or cards at
//! random.

use vstd::prelude::*;

use crate::game_state::{CardPosition, GameInfo, GameState};
use crate::primitives::{CardId, Side};
use crate::queries::{card_list, lemma_matching_ids, selected_cards, CardFilter};

verus! {

/// `chosen` holds `count` of the cards of `pool`, or all of them when the pool
/// is smaller, each once.
pub open spec fn is_selection_of(chosen: Seq<CardId>, pool: Seq<CardId>, count: usize) -> bool {
    &&& chosen.len() == if count <= pool.len() {
        count as nat
    } else {
        pool.len()
    }
    &&& chosen.no_duplicates()
    &&& forall|i: int| 0 <= i < chosen.len() ==> pool.contains(#[trigger] chosen[i])
}

/// Every card of `pool` left out of `chosen` was placed no later than every
/// card of `chosen`.
pub open spec fn chosen_are_topmost(game: GameState, chosen: Seq<CardId>, pool: Seq<CardId>) -> bool {
    forall|x: CardId, y: CardId|
        #![trigger chosen.contains(x), pool.contains(y)]
        chosen.contains(x) && pool.contains(y) && !chosen.contains(y) ==> game.card_state(
            y,
        ).sorting_key <= game.card_state(x).sorting_key
}

/// The cards of the `side` player's deck.
pub open spec fn deck_cards(game: GameState, side: Side) -> Seq<CardId> {
    selected_cards(game, side, CardFilter::InPosition(CardPosition::Deck(side)))
}

/// The invariant of the selection loops: `chosen` and `rest` split `pool`.
pub open spec fn splits(pool: Seq<CardId>, chosen: Seq<CardId>, rest: Seq<CardId>) -> bool {
    &&& chosen.no_duplicates()
    &&& rest.no_duplicates()
    &&& chosen.len() + rest.len() == pool.len()
    &&& forall|x: CardId| chosen.contains(x) ==> !rest.contains(x)
    &&& forall|x: CardId| pool.contains(x) <==> (chosen.contains(x) || rest.contains(x))
}

/// Moving the element at `m` from `rest` to the end of `chosen` keeps the
/// split.
proof fn lemma_move_one(pool: Seq<CardId>, chosen: Seq<CardId>, rest: Seq<CardId>, m: int)
    requires
        splits(pool, chosen, rest),
        0 <= m < rest.len(),
    ensures
        splits(pool, chosen.push(rest[m]), rest.remove(m)),
        forall|y: CardId| rest.remove(m).contains(y) <==> (rest.contains(y) && y != rest[m]),
{
    let x = rest[m];
    let r2 = rest.remove(m);
    let c2 = chosen.push(x);
    rest.remove_ensures(m);
    assert forall|y: CardId| r2.contains(y) <==> (rest.contains(y) && y != x) by {
        if r2.contains(y) {
            let j = choose|j: int| 0 <= j < r2.len() && r2[j] == y;
            if j < m {
                assert(rest[j] == y);
                assert(j != m);
            } else {
                assert(rest[j + 1] == y);
            }
        }
        if rest.contains(y) && y != x {
            let j = choose|j: int| 0 <= j < rest.len() && rest[j] == y;
            if j < m {
                assert(r2[j] == y);
            } else {
                assert(j != m);
                assert(r2[j - 1] == y);
            }
        }
    }
    assert forall|a: int, b: int| 0 <= a < r2.len() && 0 <= b < r2.len() && a != b implies r2[a]
        != r2[b] by {
        let a1 = if a < m { a } else { a + 1 };
        let b1 = if b < m { b } else { b + 1 };
        assert(r2[a] == rest[a1]);
        assert(r2[b] == rest[b1]);
    }
    assert(!chosen.contains(x));
    assert forall|a: int, b: int| 0 <= a < c2.len() && 0 <= b < c2.len() && a != b implies c2[a]
        != c2[b] by {
        if a < chosen.len() && b < chosen.len() {
        } else if a < chosen.len() {
            assert(chosen.contains(c2[a]));
        } else if b < chosen.len() {
            assert(chosen.contains(c2[b]));
        }
    }
    assert forall|y: CardId| c2.contains(y) <==> (chosen.contains(y) || y == x) by {
        if c2.contains(y) {
            let j = choose|j: int| 0 <= j < c2.len() && c2[j] == y;
            if j < chosen.len() {
                assert(chosen[j] == y);
            }
        }
        if chosen.contains(y) {
            let j = choose|j: int| 0 <= j < chosen.len() && chosen[j] == y;
            assert(c2[j] == y);
        }
        if y == x {
            assert(c2[chosen.len() as int] == y);
        }
    }
}

/// At the start, nothing is chosen and the rest is the pool.
proof fn lemma_split_start(pool: Seq<CardId>)
    requires
        pool.no_duplicates(),
    ensures
        splits(pool, Seq::empty(), pool),
{
}

/// A split with `count` chosen, or with nothing left, is a selection.
proof fn lemma_split_end(pool: Seq<CardId>, chosen: Seq<CardId>, rest: Seq<CardId>, count: usize)
    requires
        splits(pool, chosen, rest),
        chosen.len() == count || rest.len() == 0,
        chosen.len() <= count,
    ensures
        is_selection_of(chosen, pool, count),
{
    assert forall|i: int| 0 <= i < chosen.len() implies pool.contains(#[trigger] chosen[i]) by {
        assert(chosen.contains(chosen[i]));
    }
}

/// The `count` topmost cards of the `side` player's deck, the most recently
/// placed first, or the whole deck when it holds fewer.
pub fn top_of_deck(game: &GameState, side: Side, count: usize) -> (r: Vec<CardId>)
    requires
        game.wf(),
    ensures
        is_selection_of(r@, deck_cards(*game, side), count),
        chosen_are_topmost(*game, r@, deck_cards(*game, side)),
{
    let pool = card_list(game, side, CardFilter::InPosition(CardPosition::Deck(side)));
    let ghost gpool = pool@;
    let n = game.card_count(side);
    proof {
        lemma_matching_ids(game.cards(side), side, CardFilter::InPosition(CardPosition::Deck(side)));
        lemma_split_start(gpool);
        assert forall|i: int| 0 <= i < gpool.len() implies #[trigger] game.valid_id(gpool[i]) by {
        }
    }
    let mut rest = pool;
    let mut chosen: Vec<CardId> = Vec::new();
    while chosen.len() < count && rest.len() > 0
        invariant
            game.wf(),
            gpool == deck_cards(*game, side),
            splits(gpool, chosen@, rest@),
            chosen@.len() <= count,
            forall|i: int| 0 <= i < gpool.len() ==> #[trigger] game.valid_id(gpool[i]),
            forall|x: CardId, y: CardId|
                #![trigger chosen@.contains(x), rest@.contains(y)]
                chosen@.contains(x) && rest@.contains(y) ==> game.card_state(y).sorting_key
                    <= game.card_state(x).sorting_key,
        decreases rest.len(),
    {
        let mut m: usize = 0;
        let mut j: usize = 1;
        proof {
            assert(rest@.contains(rest@[0]));
            assert(gpool.contains(rest@[0]));
        }
        while j < rest.len()
            invariant
                game.wf(),
                0 < j <= rest.len(),
                m < j,
                splits(gpool, chosen@, rest@),
                forall|i: int| 0 <= i < gpool.len() ==> #[trigger] game.valid_id(gpool[i]),
                forall|i: int|
                    0 <= i < j ==> game.card_state(#[trigger] rest@[i]).sorting_key
                        <= game.card_state(rest@[m as int]).sorting_key,
            decreases rest.len() - j,
        {
            proof {
                assert(rest@.contains(rest@[j as int]));
                assert(gpool.contains(rest@[j as int]));
                assert(rest@.contains(rest@[m as int]));
                assert(gpool.contains(rest@[m as int]));
            }
            if game.card(rest[j]).sorting_key > game.card(rest[m]).sorting_key {
                m = j;
            }
            j = j + 1;
        }
        let ghost old_chosen = chosen@;
        let ghost old_rest = rest@;
        proof {
            lemma_move_one(gpool, chosen@, rest@, m as int);
        }
        let x = rest.remove(m);
        chosen.push(x);
        proof {
            assert forall|a: CardId, b: CardId|
                #![trigger chosen@.contains(a), rest@.contains(b)]
                chosen@.contains(a) && rest@.contains(b) implies game.card_state(b).sorting_key
                <= game.card_state(a).sorting_key by {
                assert(old_rest.contains(b));
                if a == x {
                    let k = choose|k: int| 0 <= k < old_rest.len() && old_rest[k] == b;
                    assert(game.card_state(old_rest[k]).sorting_key <= game.card_state(
                        old_rest[m as int],
                    ).sorting_key);
                } else {
                    let k = choose|k: int| 0 <= k < chosen@.len() && chosen@[k] == a;
                    assert(k < old_chosen.len());
                    assert(old_chosen[k] == a);
                    assert(old_chosen.contains(a));
                }
            }
        }
    }
    proof {
        lemma_split_end(gpool, chosen@, rest@, count);
        assert forall|x: CardId, y: CardId|
            #![trigger chosen@.contains(x), gpool.contains(y)]
            chosen@.contains(x) && gpool.contains(y) && !chosen@.contains(y) implies game.card_state(
            y,
        ).sorting_key <= game.card_state(x).sorting_key by {
            assert(rest@.contains(y));
        }
    }
    chosen
}

/// The state that the game's generator moves to from `state`: a linear
/// congruential step modulo 2^64.
pub open spec fn next_rng_state(state: u64) -> u64 {
    vstd::wrapping::u64_specs::wrapping_add(
        vstd::wrapping::u64_specs::wrapping_mul(state, 6364136223846793005u64),
        1442695040888963407u64,
    )
}

/// The number below `bound` that the generator's `state` gives: its high 31
/// bits, reduced modulo `bound`.
pub open spec fn random_below(state: u64, bound: usize) -> usize {
    ((state >> 33u64) % (bound as u64)) as usize
}

/// Draws a random number below `bound` from the game's generator, advancing
/// it.
fn next_random(info: &mut GameInfo, bound: usize) -> (r: usize)
    requires
        bound > 0,
    ensures
        r < bound,
        final(info).rng_state == next_rng_state(old(info).rng_state),
        r == random_below(final(info).rng_state, bound),
        *final(info) == (GameInfo { rng_state: final(info).rng_state, ..*old(info) }),
{
    let state = info.rng_state.wrapping_mul(6364136223846793005).wrapping_add(1442695040888963407);
    info.rng_state = state;
    let high = state >> 33u64;
    (high % (bound as u64)) as usize
}

/// Up to `count` cards of the `side` player in `position`, chosen at random
/// with the game's generator, which advances.
pub fn random_cards_in_position(
    game: &mut GameState,
    side: Side,
    position: CardPosition,
    count: usize,
) -> (r: Vec<CardId>)
    requires
        old(game).wf(),
    ensures
        final(game).wf(),
        is_selection_of(r@, selected_cards(*old(game), side, CardFilter::InPosition(position)), count),
        final(game).info == (GameInfo { rng_state: final(game).info.rng_state, ..old(game).info }),
        final(game).overlord_cards == old(game).overlord_cards,
        final(game).champion_cards == old(game).champion_cards,
        final(game).same_players_and_logs(*old(game)),
{
    let pool = card_list(game, side, CardFilter::InPosition(position));
    let ghost gpool = pool@;
    let n = game.card_count(side);
    proof {
        lemma_matching_ids(game.cards(side), side, CardFilter::InPosition(position));
        lemma_split_start(gpool);
    }
    let mut rest = pool;
    let mut chosen: Vec<CardId> = Vec::new();
    while chosen.len() < count && rest.len() > 0
        invariant
            game.wf(),
            gpool == selected_cards(*old(game), side, CardFilter::InPosition(position)),
            splits(gpool, chosen@, rest@),
            chosen@.len() <= count,
            game.info == (GameInfo { rng_state: game.info.rng_state, ..old(game).info }),
            game.overlord_cards == old(game).overlord_cards,
            game.champion_cards == old(game).champion_cards,
            game.same_players_and_logs(*old(game)),
        decreases rest.len(),
    {
        let m = next_random(&mut game.info, rest.len());
        proof {
            lemma_move_one(gpool, chosen@, rest@, m as int);
        }
        let x = rest.remove(m);
        chosen.push(x);
    }
    proof {
        lemma_split_end(gpool, chosen@, rest@, count);
    }
    chosen
}

} // verus!
