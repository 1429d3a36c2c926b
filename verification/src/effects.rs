//! What each effect of a card ability does to a game: the meaning of every
//! [Mutation], and the function which carries one out for an ability.

use vstd::prelude::*;

use crate::card_definition::{BasicAction, Mutation, OnZeroStored, Scope};
use crate::cards_beryl::{
    curses_removed, draws_limited, gain_action_on_third_use, limit_draw_under_way,
    prevent_curses_prompt_pushed, push_prevent_curses_prompt, push_shuffle_into_vault_prompt,
    remove_curses_shown, third_use_rewarded, vault_prompt_pushed,
};
use crate::error::GameError;
use crate::game_state::{CardPosition, CardState, GameEvent, GameInfo, GameState, PlayerState};
use crate::mutations::{
    cards_drawn, clear_boost, damage_dealt, damage_fits, deal_damage, discard_when_mana_depleted,
    only_card_changed, take_stored_mana, write_boost,
};
use crate::play_card::card_moved;
use crate::primitives::{CardId, ManaValue, Side};
use crate::selection::{chosen_are_topmost, deck_cards, is_selection_of};

verus! {

/// The raid of `before` goes on unchanged in `after`, or has ended.
pub open spec fn raid_kept_or_ended(before: GameState, after: GameState) -> bool {
    after.info.raid matches Some(a) ==> before.info.raid == Some(a)
}

/// The mana that taking up to `maximum` from `card_id` takes.
pub open spec fn mana_taken(game: GameState, card_id: CardId, maximum: ManaValue) -> u32 {
    let stored = game.card_state(card_id).stored_mana;
    if stored < maximum {
        stored
    } else {
        maximum
    }
}

/// Taking up to `maximum` mana from `card_id` empties it and sacrifices it.
pub open spec fn sacrificed_by_taking(
    game: GameState,
    card_id: CardId,
    maximum: ManaValue,
    on_zero_stored: OnZeroStored,
) -> bool {
    on_zero_stored == OnZeroStored::Sacrifice && game.card_state(card_id).stored_mana == mana_taken(
        game,
        card_id,
        maximum,
    )
}

/// `after` is `before` once up to `maximum` mana stored in `card_id` went to
/// its owner, the taking was recorded, and the card was sacrificed when
/// `on_zero_stored` asks it and nothing is left.
pub open spec fn stored_mana_taken(
    before: GameState,
    after: GameState,
    card_id: CardId,
    maximum: ManaValue,
    on_zero_stored: OnZeroStored,
) -> bool {
    let stored = before.card_state(card_id).stored_mana;
    let taken = mana_taken(before, card_id, maximum);
    let owner = before.player_state(card_id.side);
    let sacrificed = sacrificed_by_taking(before, card_id, maximum, on_zero_stored);
    &&& after.player_state(card_id.side) == (PlayerState {
        mana: (owner.mana + taken) as u32,
        ..owner
    })
    &&& after.player_state(card_id.side.opponent()) == before.player_state(card_id.side.opponent())
    &&& after.card_state(card_id) == (CardState {
        stored_mana: (stored - taken) as u32,
        position: if sacrificed {
            CardPosition::DiscardPile(card_id.side)
        } else {
            before.card_state(card_id).position
        },
        sorting_key: if sacrificed {
            before.info.next_sorting_key
        } else {
            before.card_state(card_id).sorting_key
        },
        ..before.card_state(card_id)
    })
    &&& after.cards_agree_except(before, card_id)
    &&& after.info == (GameInfo {
        next_sorting_key: if sacrificed {
            (before.info.next_sorting_key + 1) as u64
        } else {
            before.info.next_sorting_key
        },
        ..before.info
    })
    &&& after.events@ == before.events@.push(GameEvent::StoredManaTaken(card_id))
    &&& after.history == before.history
    &&& after.updates == before.updates
    &&& after.play_card == before.play_card
}

/// The effect `mutation` of the ability of `scope` can be carried out in
/// `game` without announcing anything to other abilities: no count, mana
/// pool or sorting key would leave its range, a raid or a draw is under way
/// where one is needed. Drawing cards is announced to the abilities which
/// respond to draws (`draws::carry_out_effect`), so it is not among these
/// effects.
pub open spec fn mutation_fits(game: GameState, scope: Scope, mutation: Mutation) -> bool {
    let card_id = scope.spec_card_id();
    let card = game.card_state(card_id);
    match mutation {
        Mutation::WriteBoost => card.boost_count < u32::MAX,
        Mutation::DiscardWhenManaDepleted => card.stored_mana != 0 || game.info.next_sorting_key
            < u64::MAX,
        Mutation::TakeStoredMana(maximum, on_zero_stored) => {
            &&& game.player_state(card_id.side).mana + mana_taken(game, card_id, maximum)
                <= u32::MAX
            &&& sacrificed_by_taking(game, card_id, maximum, on_zero_stored)
                ==> game.info.next_sorting_key < u64::MAX
        },
        Mutation::DealDamage(amount) => damage_fits(game, amount),
        Mutation::EndRaid(_) => game.info.raid is Some,
        Mutation::MoveToDiscardPile => game.info.next_sorting_key < u64::MAX,
        Mutation::LimitChampionDraws(_) => game.info.draws@.len() > 0,
        Mutation::DrawCards(_, _) => false,
        Mutation::GainActionOnThirdUse(action) => !(game.overlord.counters.spec_count(action) == 3
            && game.overlord.actions + 1 > u32::MAX),
        _ => true,
    }
}

/// `after` is `before` once the effect `mutation` of the ability of `scope`,
/// one which announces nothing to other abilities, was carried out.
pub open spec fn mutation_applied(
    before: GameState,
    after: GameState,
    scope: Scope,
    mutation: Mutation,
) -> bool {
    let card_id = scope.spec_card_id();
    let card = before.card_state(card_id);
    match mutation {
        Mutation::WriteBoost => only_card_changed(
            before,
            after,
            card_id,
            CardState { boost_count: (card.boost_count + 1) as u32, ..card },
        ),
        Mutation::ClearBoost => only_card_changed(
            before,
            after,
            card_id,
            CardState { boost_count: 0, ..card },
        ),
        Mutation::StoreMana(amount) => only_card_changed(
            before,
            after,
            card_id,
            CardState { stored_mana: amount, ..card },
        ),
        Mutation::DiscardWhenManaDepleted => if card.stored_mana != 0 {
            after == before
        } else {
            card_moved(before, after, card_id, CardPosition::DiscardPile(card_id.side))
        },
        Mutation::TakeStoredMana(maximum, on_zero_stored) => stored_mana_taken(
            before,
            after,
            card_id,
            maximum,
            on_zero_stored,
        ),
        Mutation::DealDamage(amount) => damage_dealt(before, after, amount),
        Mutation::EndRaid(outcome) => {
            &&& after.info == (GameInfo { raid: None, ..before.info })
            &&& after.events@ == before.events@.push(
                GameEvent::RaidEnd(before.info.raid->0.raid_id, outcome),
            )
            &&& after.id == before.id
            &&& after.overlord == before.overlord
            &&& after.champion == before.champion
            &&& after.overlord_cards == before.overlord_cards
            &&& after.champion_cards == before.champion_cards
            &&& after.history == before.history
            &&& after.updates == before.updates
            &&& after.play_card == before.play_card
        },
        Mutation::LoseActionPointsIfAble(side, amount) => {
            let player = before.player_state(side);
            &&& after.player_state(side) == (PlayerState {
                actions: if player.actions < amount {
                    0
                } else {
                    (player.actions - amount) as u32
                },
                ..player
            })
            &&& after.only_player_changed(before, side)
        },
        Mutation::MoveToDiscardPile => card_moved(
            before,
            after,
            card_id,
            CardPosition::DiscardPile(card_id.side),
        ),
        Mutation::LimitChampionDraws(limit) => draws_limited(before, after, scope, limit),
        Mutation::DrawCards(_, _) => false,
        Mutation::ShowShuffleIntoVaultPrompt(count) => vault_prompt_pushed(before, after, scope, count),
        Mutation::GainActionOnThirdUse(action) => third_use_rewarded(before, after, action),
        Mutation::ShowSacrificeToPreventCursesPrompt(count) => prevent_curses_prompt_pushed(
            before,
            after,
            scope,
            count,
        ),
        Mutation::RemoveCurses(count) => curses_removed(before, after, count),
    }
}

/// Carries out the effect `mutation` of the ability of `scope`, when it is
/// one which announces nothing to other abilities. Fails when it cannot be
/// carried out, and refuses to draw cards, which is announced: here the
/// effect belongs to an ability answering the announcement of a draw.
pub fn apply_mutation(game: &mut GameState, scope: Scope, mutation: Mutation) -> (r: Result<
    (),
    GameError,
>)
    requires
        old(game).wf(),
        old(game).valid_id(scope.spec_card_id()),
    ensures
        final(game).wf(),
        r is Ok ==> final(game).overlord_cards@.len() == old(game).overlord_cards@.len(),
        r is Ok ==> final(game).champion_cards@.len() == old(game).champion_cards@.len(),
        r is Ok ==> final(game).play_card == old(game).play_card,
        r is Ok ==> raid_kept_or_ended(*old(game), *final(game)),
        r is Ok <==> mutation_fits(*old(game), scope, mutation),
        r is Ok ==> mutation_applied(*old(game), *final(game), scope, mutation),
{
    let card_id = scope.card_id();
    match mutation {
        Mutation::WriteBoost => write_boost(game, card_id),
        Mutation::ClearBoost => {
            clear_boost(game, card_id);
            Ok(())
        },
        Mutation::StoreMana(amount) => {
            game.set_stored_mana(card_id, amount);
            Ok(())
        },
        Mutation::DiscardWhenManaDepleted => discard_when_mana_depleted(
            game,
            card_id,
            card_id.side,
        ),
        Mutation::TakeStoredMana(maximum, on_zero_stored) => {
            match take_stored_mana(game, card_id, maximum, on_zero_stored) {
                Ok(_) => Ok(()),
                Err(e) => Err(e),
            }
        },
        Mutation::DealDamage(amount) => deal_damage(game, amount),
        Mutation::EndRaid(outcome) => game.end_raid(outcome),
        Mutation::LoseActionPointsIfAble(side, amount) => {
            game.lose_action_points_if_able(side, amount);
            Ok(())
        },
        Mutation::MoveToDiscardPile => game.discard_card(card_id),
        Mutation::LimitChampionDraws(limit) => limit_draw_under_way(game, scope, limit),
        Mutation::DrawCards(_, _) => Err(GameError::DrawDuringDrawAnnouncement),
        Mutation::ShowShuffleIntoVaultPrompt(count) => {
            push_shuffle_into_vault_prompt(game, scope, count);
            Ok(())
        },
        Mutation::GainActionOnThirdUse(action) => {
            match gain_action_on_third_use(game, scope, action) {
                Ok(_) => Ok(()),
                Err(e) => Err(e),
            }
        },
        Mutation::ShowSacrificeToPreventCursesPrompt(count) => {
            push_prevent_curses_prompt(game, scope, count);
            Ok(())
        },
        Mutation::RemoveCurses(count) => {
            remove_curses_shown(game, count);
            Ok(())
        },
    }
}

} // verus!
