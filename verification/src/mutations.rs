//! What the delegates of card abilities do: the behaviour behind each
//! [Requirement] and [Mutation].

use vstd::prelude::*;

use crate::card_definition::{EventSubject, Mutation, OnZeroStored, Requirement, Scope};
use crate::error::GameError;
use crate::game_state::{
    CardPosition, CardState, GameEvent, GameInfo, GamePhase, GameState, PlayerState,
};
use crate::primitives::{CardId, ManaValue, Side};
use crate::queries::{selected_cards, CardFilter};
use crate::selection::{
    chosen_are_topmost, deck_cards, is_selection_of, random_cards_in_position, top_of_deck,
};

verus! {

/// Whether `requirement` holds for a delegate of `scope` and an event about
/// `subject`.
pub open spec fn spec_requirement_met(
    game: GameState,
    scope: Scope,
    requirement: Requirement,
    subject: EventSubject,
) -> bool {
    match requirement {
        Requirement::Always => true,
        Requirement::ThisCard => subject.is_about(scope.spec_card_id()),
        Requirement::ThisAbility => subject == EventSubject::Ability(scope.ability_id),
        Requirement::InPlay => game.card_state(scope.spec_card_id()).position.is_in_play(),
        Requirement::FaceUpInPlayOrThisCard => {
            ||| game.card_state(scope.spec_card_id()).face_up && game.card_state(
                scope.spec_card_id(),
            ).position.is_in_play()
            ||| subject.is_about(scope.spec_card_id())
        },
    }
}

/// Whether `requirement` holds for a delegate of `scope` and an event about
/// `subject`.
pub fn requirement_met(
    game: &GameState,
    scope: Scope,
    requirement: Requirement,
    subject: EventSubject,
) -> (r: bool)
    requires
        game.valid_id(scope.spec_card_id()),
    ensures
        r == spec_requirement_met(*game, scope, requirement, subject),
{
    match requirement {
        Requirement::Always => true,
        Requirement::ThisCard => subject.about(scope.card_id()),
        Requirement::ThisAbility => subject == EventSubject::Ability(scope.ability_id),
        Requirement::InPlay => game.card(scope.card_id()).position.in_play(),
        Requirement::FaceUpInPlayOrThisCard => {
            let card = game.card(scope.card_id());
            (card.face_up && card.position.in_play()) || subject.about(scope.card_id())
        },
    }
}

/// `after` is `before` with only the card `card_id` changed, to `card`.
pub open spec fn only_card_changed(
    before: GameState,
    after: GameState,
    card_id: CardId,
    card: CardState,
) -> bool {
    &&& after.card_state(card_id) == card
    &&& after.cards_agree_except(before, card_id)
    &&& after.info == before.info
    &&& after.same_players_and_logs(before)
}

/// Records one more use of the attack boost of `card_id`; fails, changing
/// nothing, when the count would exceed its range.
pub fn write_boost(game: &mut GameState, card_id: CardId) -> (r: Result<(), GameError>)
    requires
        old(game).wf(),
        old(game).valid_id(card_id),
    ensures
        final(game).wf(),
        r is Err <==> old(game).card_state(card_id).boost_count == u32::MAX,
        r is Err ==> *final(game) == *old(game),
        r is Ok ==> only_card_changed(
            *old(game),
            *final(game),
            card_id,
            CardState {
                boost_count: (old(game).card_state(card_id).boost_count + 1) as u32,
                ..old(game).card_state(card_id)
            },
        ),
{
    let count = game.card(card_id).boost_count;
    if count == u32::MAX {
        return Err(GameError::ValueOutOfRange);
    }
    game.set_boost_count(card_id, count + 1);
    Ok(())
}

/// Clears the uses of the attack boost of `card_id`.
pub fn clear_boost(game: &mut GameState, card_id: CardId)
    requires
        old(game).wf(),
        old(game).valid_id(card_id),
    ensures
        final(game).wf(),
        only_card_changed(
            *old(game),
            *final(game),
            card_id,
            CardState { boost_count: 0, ..old(game).card_state(card_id) },
        ),
{
    game.set_boost_count(card_id, 0);
}

/// Moves `card_id` to the discard pile of `side` when no mana is stored in
/// it; fails, changing nothing, when no sorting key is left.
pub fn discard_when_mana_depleted(game: &mut GameState, card_id: CardId, side: Side) -> (r: Result<
    (),
    GameError,
>)
    requires
        old(game).wf(),
        old(game).valid_id(card_id),
    ensures
        final(game).wf(),
        old(game).card_state(card_id).stored_mana != 0 ==> r is Ok && *final(game) == *old(game),
        old(game).card_state(card_id).stored_mana == 0 ==> {
            &&& (r is Ok <==> old(game).info.next_sorting_key < u64::MAX)
            &&& r is Err ==> *final(game) == *old(game)
            &&& r is Ok ==> {
                &&& final(game).card_state(card_id) == (CardState {
                    position: CardPosition::DiscardPile(side),
                    sorting_key: old(game).info.next_sorting_key,
                    ..old(game).card_state(card_id)
                })
                &&& final(game).cards_agree_except(*old(game), card_id)
                &&& final(game).info == (GameInfo {
                    next_sorting_key: (old(game).info.next_sorting_key + 1) as u64,
                    ..old(game).info
                })
                &&& final(game).same_players_and_logs(*old(game))
            }
        },
{
    if game.card(card_id).stored_mana == 0 {
        game.move_card(card_id, CardPosition::DiscardPile(side))
    } else {
        Ok(())
    }
}

/// Takes up to `maximum` mana stored in `card_id` and gives it to the card's
/// owner, recording the taking; when the card is then empty and
/// `on_zero_stored` asks it, the card is sacrificed to its owner's discard
/// pile. Returns the mana taken. Fails when the owner's mana pool or the
/// sorting keys would exceed their range.
pub fn take_stored_mana(
    game: &mut GameState,
    card_id: CardId,
    maximum: ManaValue,
    on_zero_stored: OnZeroStored,
) -> (r: Result<ManaValue, GameError>)
    requires
        old(game).wf(),
        old(game).valid_id(card_id),
    ensures
        final(game).wf(),
        ({
            let stored = old(game).card_state(card_id).stored_mana;
            let taken = if stored < maximum {
                stored
            } else {
                maximum
            };
            let owner = old(game).player_state(card_id.side);
            let sacrificed = on_zero_stored == OnZeroStored::Sacrifice && stored == taken;
            &&& (r is Ok <==> owner.mana + taken <= u32::MAX && (sacrificed
                ==> old(game).info.next_sorting_key < u64::MAX))
            &&& owner.mana + taken > u32::MAX ==> *final(game) == *old(game)
            &&& r matches Ok(t) ==> {
                &&& t == taken
                &&& final(game).player_state(card_id.side) == (PlayerState {
                    mana: (owner.mana + taken) as u32,
                    ..owner
                })
                &&& final(game).player_state(card_id.side.opponent()) == old(game).player_state(
                    card_id.side.opponent(),
                )
                &&& final(game).card_state(card_id) == (CardState {
                    stored_mana: (stored - taken) as u32,
                    position: if sacrificed {
                        CardPosition::DiscardPile(card_id.side)
                    } else {
                        old(game).card_state(card_id).position
                    },
                    sorting_key: if sacrificed {
                        old(game).info.next_sorting_key
                    } else {
                        old(game).card_state(card_id).sorting_key
                    },
                    ..old(game).card_state(card_id)
                })
                &&& final(game).cards_agree_except(*old(game), card_id)
                &&& final(game).info == (GameInfo {
                    next_sorting_key: if sacrificed {
                        (old(game).info.next_sorting_key + 1) as u64
                    } else {
                        old(game).info.next_sorting_key
                    },
                    ..old(game).info
                })
                &&& final(game).events@ == old(game).events@.push(
                    GameEvent::StoredManaTaken(card_id),
                )
                &&& final(game).history == old(game).history
                &&& final(game).updates == old(game).updates
                &&& final(game).play_card == old(game).play_card
            }
        }),
{
    let stored = game.card(card_id).stored_mana;
    let taken = if stored < maximum {
        stored
    } else {
        maximum
    };
    let ghost g0 = *game;
    match game.gain_mana(card_id.side, taken) {
        Ok(()) => {},
        Err(e) => {
            return Err(e);
        },
    }
    let ghost g1 = *game;
    game.set_stored_mana(card_id, stored - taken);
    let ghost g2 = *game;
    game.invoke_event(GameEvent::StoredManaTaken(card_id));
    let ghost g3 = *game;
    if on_zero_stored == OnZeroStored::Sacrifice && stored - taken == 0 {
        match game.move_card(card_id, CardPosition::DiscardPile(card_id.side)) {
            Ok(()) => {},
            Err(e) => {
                return Err(e);
            },
        }
    }
    proof {
        assert forall|c: CardId| #![trigger g0.card_state(c)]
            game.valid_id(c) && c != card_id implies game.card_state(c) == g0.card_state(c) by {
            assert(g1.card_state(c) == g0.card_state(c));
            assert(g2.card_state(c) == g1.card_state(c));
            assert(g3.card_state(c) == g2.card_state(c));
        }
    }
    Ok(taken)
}

/// `after` is `before` once the Champion took `amount` damage: they
/// discarded that many cards of their hand, chosen at random, or their whole
/// hand and lost the game when it held fewer.
pub open spec fn damage_dealt(before: GameState, after: GameState, amount: u32) -> bool {
    let hand = selected_cards(
        before,
        Side::Champion,
        CardFilter::InPosition(CardPosition::Hand(Side::Champion)),
    );
    &&& after.overlord_cards@.len() == before.overlord_cards@.len()
    &&& after.champion_cards@.len() == before.champion_cards@.len()
    &&& exists|discarded: Seq<CardId>|
        #![trigger is_selection_of(discarded, hand, amount as usize)]
        {
            &&& is_selection_of(discarded, hand, amount as usize)
            &&& forall|c: CardId|
                #![trigger after.card_state(c)]
                before.valid_id(c) ==> after.card_state(c) == if discarded.contains(c) {
                    CardState {
                        position: CardPosition::DiscardPile(Side::Champion),
                        sorting_key: after.card_state(c).sorting_key,
                        ..before.card_state(c)
                    }
                } else {
                    before.card_state(c)
                }
        }
    &&& after.info.phase == if hand.len() < amount {
        GamePhase::GameOver(Side::Overlord)
    } else {
        before.info.phase
    }
    &&& after.info.raid == before.info.raid
    &&& after.info.next_raid_id == before.info.next_raid_id
    &&& after.same_players_and_logs(before)
}

/// Enough sorting keys are left for the Champion to discard the cards that
/// `amount` damage takes from their hand.
pub open spec fn damage_fits(game: GameState, amount: u32) -> bool {
    let hand = selected_cards(
        game,
        Side::Champion,
        CardFilter::InPosition(CardPosition::Hand(Side::Champion)),
    );
    let n = if amount <= hand.len() {
        amount as int
    } else {
        hand.len() as int
    };
    game.info.next_sorting_key + n <= u64::MAX
}

/// Deals `amount` damage to the Champion: they discard that many cards at
/// random from their hand, and lose the game when they cannot.
pub fn deal_damage(game: &mut GameState, amount: u32) -> (r: Result<(), GameError>)
    requires
        old(game).wf(),
    ensures
        final(game).wf(),
        r is Ok <==> damage_fits(*old(game), amount),
        r is Ok ==> damage_dealt(*old(game), *final(game), amount),
{
    let ghost g0 = *game;
    let ghost hand = selected_cards(
        g0,
        Side::Champion,
        CardFilter::InPosition(CardPosition::Hand(Side::Champion)),
    );
    let discard = random_cards_in_position(
        game,
        Side::Champion,
        CardPosition::Hand(Side::Champion),
        amount as usize,
    );
    let ghost g1 = *game;
    let n = game.card_count(Side::Champion);
    proof {
        crate::queries::lemma_matching_ids(
            g0.cards(Side::Champion),
            Side::Champion,
            CardFilter::InPosition(CardPosition::Hand(Side::Champion)),
        );
    }
    let mut i: usize = 0;
    while i < discard.len()
        invariant
            game.wf(),
            i <= discard.len(),
            is_selection_of(discard@, hand, amount as usize),
            g0 == *old(game),
            game.info.next_sorting_key == g0.info.next_sorting_key + i,
            hand == selected_cards(
                g0,
                Side::Champion,
                CardFilter::InPosition(CardPosition::Hand(Side::Champion)),
            ),
            forall|k: int|
                0 <= k < hand.len() ==> (#[trigger] hand[k]).side == Side::Champion
                    && g0.valid_id(hand[k]),
            game.overlord_cards@.len() == g0.overlord_cards@.len(),
            game.champion_cards@.len() == g0.champion_cards@.len(),
            game.info.phase == g0.info.phase,
            game.info.raid == g0.info.raid,
            game.info.next_raid_id == g0.info.next_raid_id,
            game.same_players_and_logs(g0),
            forall|c: CardId|
                #![trigger game.card_state(c)]
                g0.valid_id(c) ==> game.card_state(c) == if discard@.subrange(0, i as int).contains(
                    c,
                ) {
                    CardState {
                        position: CardPosition::DiscardPile(Side::Champion),
                        sorting_key: game.card_state(c).sorting_key,
                        ..g0.card_state(c)
                    }
                } else {
                    g0.card_state(c)
                },
        decreases discard.len() - i,
    {
        let c = discard[i];
        proof {
            assert(hand.contains(c));
            let k = choose|k: int| 0 <= k < hand.len() && hand[k] == c;
            assert(g0.valid_id(hand[k]));
        }
        let ghost before = *game;
        match game.discard_card(c) {
            Ok(()) => {},
            Err(e) => {
                proof {
                    assert(before.info.next_sorting_key == u64::MAX);
                    assert(g0.info.next_sorting_key + discard@.len() > u64::MAX);
                }
                return Err(e);
            },
        }
        proof {
            let s = discard@.subrange(0, i + 1);
            let p = discard@.subrange(0, i as int);
            assert forall|x: CardId| #![trigger game.card_state(x)] g0.valid_id(x) implies game.card_state(x)
                == if s.contains(x) {
                CardState {
                    position: CardPosition::DiscardPile(Side::Champion),
                    sorting_key: game.card_state(x).sorting_key,
                    ..g0.card_state(x)
                }
            } else {
                g0.card_state(x)
            } by {
                assert(s.contains(x) <==> (p.contains(x) || x == c)) by {
                    if s.contains(x) {
                        let k = choose|k: int| 0 <= k < s.len() && s[k] == x;
                        if k < i {
                            assert(p[k] == x);
                        }
                    }
                    if p.contains(x) {
                        let k = choose|k: int| 0 <= k < p.len() && p[k] == x;
                        assert(s[k] == x);
                    }
                    if x == c {
                        assert(s[i as int] == x);
                    }
                }
                assert(before.card_state(x) == if p.contains(x) {
                    CardState {
                        position: CardPosition::DiscardPile(Side::Champion),
                        sorting_key: before.card_state(x).sorting_key,
                        ..g0.card_state(x)
                    }
                } else {
                    g0.card_state(x)
                });
                if x != c {
                    assert(before.card_state(x) == game.card_state(x));
                }
            }
        }
        i = i + 1;
    }
    proof {
        assert(discard@.subrange(0, discard@.len() as int) == discard@);
    }
    let ghost gl = *game;
    if discard.len() < amount as usize {
        game.info.phase = GamePhase::GameOver(Side::Overlord);
    }
    proof {
        assert(discard@.len() < amount <==> hand.len() < amount);
        assert(is_selection_of(discard@, hand, amount as usize));
        assert forall|c: CardId|
            #![trigger game.card_state(c)]
            g0.valid_id(c) implies game.card_state(c) == if discard@.contains(c) {
                CardState {
                    position: CardPosition::DiscardPile(Side::Champion),
                    sorting_key: game.card_state(c).sorting_key,
                    ..g0.card_state(c)
                }
            } else {
                g0.card_state(c)
            } by {
            assert(game.card_state(c) == gl.card_state(c));
        }
        assert(damage_dealt(g0, *game, amount));
    }
    Ok(())
}

/// `after` is `before` once the cards `drawn` moved to the hand of their
/// owner `side`, each with a new sorting key.
pub open spec fn cards_drawn(before: GameState, after: GameState, side: Side, drawn: Seq<CardId>) -> bool {
    forall|c: CardId|
        #![trigger after.card_state(c)]
        before.valid_id(c) ==> after.card_state(c) == if drawn.contains(c) {
            CardState {
                position: CardPosition::Hand(side),
                sorting_key: after.card_state(c).sorting_key,
                ..before.card_state(c)
            }
        } else {
            before.card_state(c)
        }
}

/// Enough sorting keys are left for the `side` player to draw `count`
/// cards, or their whole deck when it holds fewer.
pub open spec fn draw_fits(game: GameState, side: Side, count: usize) -> bool {
    let deck = deck_cards(game, side);
    let n = if count <= deck.len() {
        count as int
    } else {
        deck.len() as int
    };
    game.info.next_sorting_key + n <= u64::MAX
}

/// The `side` player draws `count` cards: the topmost cards of their deck,
/// or all of it when it holds fewer, move to their hand. Returns the cards
/// drawn. Fails when the sorting keys run out before every card has moved.
pub fn draw_cards(game: &mut GameState, side: Side, count: usize) -> (r: Result<
    Vec<CardId>,
    GameError,
>)
    requires
        old(game).wf(),
    ensures
        final(game).wf(),
        ({
            let deck = deck_cards(*old(game), side);
            let n = if count <= deck.len() {
                count as int
            } else {
                deck.len() as int
            };
            &&& r is Ok <==> draw_fits(*old(game), side, count)
            &&& r matches Ok(drawn) ==> {
                &&& is_selection_of(drawn@, deck, count)
                &&& chosen_are_topmost(*old(game), drawn@, deck)
                &&& cards_drawn(*old(game), *final(game), side, drawn@)
                &&& final(game).overlord_cards@.len() == old(game).overlord_cards@.len()
                &&& final(game).champion_cards@.len() == old(game).champion_cards@.len()
                &&& final(game).info == (GameInfo {
                    next_sorting_key: (old(game).info.next_sorting_key + n) as u64,
                    ..old(game).info
                })
                &&& final(game).same_players_and_logs(*old(game))
            }
        }),
{
    let ghost g0 = *game;
    let ghost deck = deck_cards(g0, side);
    let drawn = top_of_deck(game, side, count);
    let n = game.card_count(side);
    proof {
        crate::queries::lemma_matching_ids(
            g0.cards(side),
            side,
            CardFilter::InPosition(CardPosition::Deck(side)),
        );
    }
    let mut i: usize = 0;
    while i < drawn.len()
        invariant
            game.wf(),
            i <= drawn.len(),
            is_selection_of(drawn@, deck, count),
            g0 == *old(game),
            deck == deck_cards(g0, side),
            forall|k: int|
                0 <= k < deck.len() ==> (#[trigger] deck[k]).side == side && g0.valid_id(deck[k]),
            game.overlord_cards@.len() == g0.overlord_cards@.len(),
            game.champion_cards@.len() == g0.champion_cards@.len(),
            game.info == (GameInfo {
                next_sorting_key: (g0.info.next_sorting_key + i) as u64,
                ..g0.info
            }),
            g0.info.next_sorting_key + i <= u64::MAX,
            game.same_players_and_logs(g0),
            cards_drawn(g0, *game, side, drawn@.subrange(0, i as int)),
        decreases drawn.len() - i,
    {
        let c = drawn[i];
        proof {
            assert(deck.contains(c));
            let k = choose|k: int| 0 <= k < deck.len() && deck[k] == c;
            assert(g0.valid_id(deck[k]));
        }
        let ghost before = *game;
        match game.move_card(c, CardPosition::Hand(side)) {
            Ok(()) => {},
            Err(e) => {
                proof {
                    assert(before.info.next_sorting_key == u64::MAX);
                    assert(g0.info.next_sorting_key + drawn@.len() > u64::MAX);
                }
                return Err(e);
            },
        }
        proof {
            let s = drawn@.subrange(0, i + 1);
            let p = drawn@.subrange(0, i as int);
            assert forall|x: CardId| #![trigger game.card_state(x)] g0.valid_id(x) implies game.card_state(x)
                == if s.contains(x) {
                CardState {
                    position: CardPosition::Hand(side),
                    sorting_key: game.card_state(x).sorting_key,
                    ..g0.card_state(x)
                }
            } else {
                g0.card_state(x)
            } by {
                assert(s.contains(x) <==> (p.contains(x) || x == c)) by {
                    if s.contains(x) {
                        let k = choose|k: int| 0 <= k < s.len() && s[k] == x;
                        if k < i {
                            assert(p[k] == x);
                        }
                    }
                    if p.contains(x) {
                        let k = choose|k: int| 0 <= k < p.len() && p[k] == x;
                        assert(s[k] == x);
                    }
                    if x == c {
                        assert(s[i as int] == x);
                    }
                }
                assert(before.card_state(x) == if p.contains(x) {
                    CardState {
                        position: CardPosition::Hand(side),
                        sorting_key: before.card_state(x).sorting_key,
                        ..g0.card_state(x)
                    }
                } else {
                    g0.card_state(x)
                });
                if x != c {
                    assert(before.card_state(x) == game.card_state(x));
                }
            }
        }
        i = i + 1;
    }
    proof {
        assert(drawn@.subrange(0, drawn@.len() as int) == drawn@);
    }
    Ok(drawn)
}

} // verus!
