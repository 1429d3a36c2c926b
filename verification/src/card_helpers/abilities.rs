//! Helpers for defining common card abilities.

use vstd::prelude::*;

use crate::card_definition::{
    Ability, AbilityText, AbilityType, Cost, DamageWord, Delegate, EventDelegate, Flag, Keyword,
    EventSubject, Mutation, NumericOperator, OnZeroStored, QueryDelegate, RaidOutcome, Requirement, Scope,
    Sentence, TargetRequirement, TextToken, Transformation,
};
use crate::dispatch::{
    event_dispatched, lemma_single_listener_acts, lemma_single_nested_listener_acts, listeners,
    nested_event_dispatched, EventKind, Listener,
};
use crate::play_card::card_moved;
use crate::game_state::{CardPosition, CardState, GameState};
use crate::mutations::only_card_changed;
use crate::primitives::{AttackBoost, AttackValue, CardId, Side};

verus! {

broadcast use vstd::string::group_string_axioms;

/// `token` is the literal text `text`.
pub open spec fn is_literal(token: TextToken, text: Seq<char>) -> bool {
    match token {
        TextToken::Literal(s) => s@ == text,
        _ => false,
    }
}

/// The tokens of an ability text given token by token; none otherwise.
pub open spec fn tokens(text: AbilityText) -> Seq<TextToken> {
    match text {
        AbilityText::Text(t) => t@,
        AbilityText::EncounterBoost => Seq::empty(),
    }
}

/// The standard weapon ability; applies an attack boost for the duration of a
/// single encounter.
pub fn encounter_boost() -> (r: Ability)
    ensures
        r.ability_type == AbilityType::Encounter,
        r.text is EncounterBoost,
        r.delegates@ == seq![
            Delegate::ActivateBoost(EventDelegate { requirement: Requirement::ThisCard, mutation: Mutation::WriteBoost }),
            Delegate::AttackValue(QueryDelegate { requirement: Requirement::ThisCard, transformation: Transformation::AddBoost }),
            Delegate::EncounterEnd(EventDelegate { requirement: Requirement::Always, mutation: Mutation::ClearBoost }),
        ],
{
    let mut delegates: Vec<Delegate> = Vec::new();
    delegates.push(
        Delegate::ActivateBoost(EventDelegate::new(Requirement::ThisCard, Mutation::WriteBoost)),
    );
    delegates.push(
        Delegate::AttackValue(QueryDelegate::new(Requirement::ThisCard, Transformation::AddBoost)),
    );
    delegates.push(
        Delegate::EncounterEnd(EventDelegate::new(Requirement::Always, Mutation::ClearBoost)),
    );
    Ability { ability_type: AbilityType::Encounter, text: AbilityText::EncounterBoost, delegates }
}

/// The text of the standard weapon ability for a card with attack boost
/// `boost` (none counts as a boost of nothing for nothing): pay the boost's
/// cost to add its bonus to attack.
pub fn encounter_boost_text(boost: Option<AttackBoost>) -> (r: Vec<TextToken>)
    ensures
        ({
            let b = match boost {
                Some(b) => b,
                None => AttackBoost { cost: 0, bonus: 0 },
            };
            &&& r@.len() == 3
            &&& r@[0] == TextToken::Cost(b.cost)
            &&& r@[1] == TextToken::Number(NumericOperator::Add, b.bonus)
            &&& is_literal(r@[2], "Attack"@)
        }),
{
    let boost = match boost {
        Some(b) => b,
        None => AttackBoost::none(),
    };
    let mut text: Vec<TextToken> = Vec::new();
    text.push(TextToken::Cost(boost.cost));
    text.push(TextToken::Number(NumericOperator::Add, boost.bonus));
    text.push(TextToken::Literal("Attack".to_owned()));
    text
}

/// Store `N` mana in this card when played. Move it to the discard pile when
/// the stored mana is depleted.
pub fn store_mana_on_play<const N: u32>() -> (r: Ability)
    ensures
        r.ability_type == AbilityType::Standard,
        r.text matches AbilityText::Text(t) && t@ == seq![
            TextToken::Keyword(Keyword::Play),
            TextToken::Keyword(Keyword::Store(Sentence::Start, N)),
        ],
        r.delegates@ == seq![
            Delegate::CastCard(EventDelegate { requirement: Requirement::ThisCard, mutation: Mutation::StoreMana(N) }),
            Delegate::StoredManaTaken(EventDelegate { requirement: Requirement::ThisCard, mutation: Mutation::DiscardWhenManaDepleted }),
        ],
{
    let mut text: Vec<TextToken> = Vec::new();
    text.push(TextToken::Keyword(Keyword::Play));
    text.push(TextToken::Keyword(Keyword::Store(Sentence::Start, N)));
    let mut delegates: Vec<Delegate> = Vec::new();
    delegates.push(
        Delegate::CastCard(EventDelegate::new(Requirement::ThisCard, Mutation::StoreMana(N))),
    );
    delegates.push(
        Delegate::StoredManaTaken(
            EventDelegate::new(Requirement::ThisCard, Mutation::DiscardWhenManaDepleted),
        ),
    );
    Ability { ability_type: AbilityType::Standard, text: AbilityText::Text(text), delegates }
}

/// Activated ability to take `N` stored mana from this card by paying a cost
pub fn activated_take_mana<const N: u32>(cost: Cost) -> (r: Ability)
    ensures
        r.ability_type == AbilityType::Activated(cost, TargetRequirement::NoTarget),
        r.text matches AbilityText::Text(t) && t@ == seq![
            TextToken::Keyword(Keyword::Take(Sentence::Start, N)),
        ],
        r.delegates@ == seq![
            Delegate::ActivateAbility(EventDelegate { requirement: Requirement::ThisAbility, mutation: Mutation::TakeStoredMana(N, OnZeroStored::Sacrifice) }),
        ],
{
    let mut text: Vec<TextToken> = Vec::new();
    text.push(TextToken::Keyword(Keyword::Take(Sentence::Start, N)));
    let mut delegates: Vec<Delegate> = Vec::new();
    delegates.push(
        Delegate::ActivateAbility(
            EventDelegate::new(
                Requirement::ThisAbility,
                Mutation::TakeStoredMana(N, OnZeroStored::Sacrifice),
            ),
        ),
    );
    Ability {
        ability_type: AbilityType::Activated(cost, TargetRequirement::NoTarget),
        text: AbilityText::Text(text),
        delegates,
    }
}

/// A minion combat ability with `mutation`.
pub fn combat(mutation: Mutation) -> (r: Delegate)
    ensures
        r == Delegate::MinionCombatAbility(
            EventDelegate { requirement: Requirement::ThisCard, mutation },
        ),
{
    Delegate::MinionCombatAbility(EventDelegate::new(Requirement::ThisCard, mutation))
}

/// Minion combat ability which deals damage to the Champion player during
/// combat, causing them to discard `N` random cards and lose the game if they
/// cannot.
pub fn combat_deal_damage<const N: u32>() -> (r: Ability)
    ensures
        r.ability_type == AbilityType::Standard,
        r.text is Text,
        tokens(r.text).len() == 3,
        tokens(r.text)[0] == TextToken::Keyword(Keyword::Combat),
        tokens(r.text)[1] == TextToken::Keyword(Keyword::DealDamage(DamageWord::DealStart, N)),
        is_literal(tokens(r.text)[2], "."@),
        r.delegates@ == seq![
            Delegate::MinionCombatAbility(EventDelegate { requirement: Requirement::ThisCard, mutation: Mutation::DealDamage(N) }),
        ],
{
    let mut text: Vec<TextToken> = Vec::new();
    text.push(TextToken::Keyword(Keyword::Combat));
    text.push(TextToken::Keyword(Keyword::DealDamage(DamageWord::DealStart, N)));
    text.push(TextToken::Literal(".".to_owned()));
    let mut delegates: Vec<Delegate> = Vec::new();
    delegates.push(combat(Mutation::DealDamage(N)));
    Ability { ability_type: AbilityType::Standard, text: AbilityText::Text(text), delegates }
}

/// Minion combat ability which ends the current raid in failure.
pub fn end_raid() -> (r: Ability)
    ensures
        r.ability_type == AbilityType::Standard,
        r.text is Text,
        tokens(r.text).len() == 2,
        tokens(r.text)[0] == TextToken::Keyword(Keyword::Combat),
        is_literal(tokens(r.text)[1], "End the raid."@),
        r.delegates@ == seq![
            Delegate::MinionCombatAbility(EventDelegate { requirement: Requirement::ThisCard, mutation: Mutation::EndRaid(RaidOutcome::Failure) }),
        ],
{
    let mut text: Vec<TextToken> = Vec::new();
    text.push(TextToken::Keyword(Keyword::Combat));
    text.push(TextToken::Literal("End the raid.".to_owned()));
    let mut delegates: Vec<Delegate> = Vec::new();
    delegates.push(combat(Mutation::EndRaid(RaidOutcome::Failure)));
    Ability { ability_type: AbilityType::Standard, text: AbilityText::Text(text), delegates }
}

/// Minion combat ability which causes the Champion player to lose `N` action
/// points, or all they have.
pub fn remove_actions_if_able<const N: u32>() -> (r: Ability)
    ensures
        r.ability_type == AbilityType::Standard,
        r.text is Text,
        tokens(r.text).len() == 3,
        tokens(r.text)[0] == TextToken::Keyword(Keyword::Combat),
        is_literal(tokens(r.text)[1], "Remove"@),
        tokens(r.text)[2] == TextToken::Actions(1),
        r.delegates@ == seq![
            Delegate::MinionCombatAbility(EventDelegate { requirement: Requirement::ThisCard, mutation: Mutation::LoseActionPointsIfAble(Side::Champion, N) }),
        ],
{
    let mut text: Vec<TextToken> = Vec::new();
    text.push(TextToken::Keyword(Keyword::Combat));
    text.push(TextToken::Literal("Remove".to_owned()));
    text.push(TextToken::Actions(1));
    let mut delegates: Vec<Delegate> = Vec::new();
    delegates.push(combat(Mutation::LoseActionPointsIfAble(Side::Champion, N)));
    Ability { ability_type: AbilityType::Standard, text: AbilityText::Text(text), delegates }
}

/// The attack value of `card_id` once its attack boost is applied as many
/// times as it was used.
pub open spec fn spec_add_boost(game: GameState, card_id: CardId, current: AttackValue) -> int {
    let card = game.card_state(card_id);
    let bonus = match card.definition.config.stats.attack_boost {
        Some(b) => b.bonus,
        None => 0,
    };
    current + card.boost_count * bonus
}

/// Applies this card's `attack_boost` stat a number of times equal to its
/// boost count. A card without attack boost adds nothing.
pub fn add_boost(game: &GameState, _scope: Scope, card_id: &CardId, current: AttackValue) -> (r:
    AttackValue)
    requires
        game.valid_id(*card_id),
        spec_add_boost(*game, *card_id, current) <= u32::MAX,
    ensures
        r == spec_add_boost(*game, *card_id, current),
{
    let card = game.card(*card_id);
    let boost_count = card.boost_count;
    let bonus = match card.definition.config.stats.attack_boost {
        Some(b) => b.bonus,
        None => 0,
    };
    proof {
        assert(0 <= boost_count * bonus <= u32::MAX) by (nonlinear_arith)
            requires
                current + boost_count * bonus <= u32::MAX,
                0 <= current,
                0 <= boost_count,
                0 <= bonus,
        ;
    }
    current + boost_count * bonus
}

/// An ability which allows a card to have level counters placed on it.
pub fn level_up() -> (r: Ability)
    ensures
        r.ability_type == AbilityType::Standard,
        r.text matches AbilityText::Text(t) && t@ == seq![TextToken::Keyword(Keyword::LevelUp)],
        r.delegates@ == seq![
            Delegate::CanLevelUpCard(QueryDelegate { requirement: Requirement::ThisCard, transformation: Transformation::OverrideTrue }),
        ],
{
    let mut text: Vec<TextToken> = Vec::new();
    text.push(TextToken::Keyword(Keyword::LevelUp));
    let mut delegates: Vec<Delegate> = Vec::new();
    delegates.push(
        Delegate::CanLevelUpCard(
            QueryDelegate::new(Requirement::ThisCard, Transformation::OverrideTrue),
        ),
    );
    Ability { ability_type: AbilityType::Standard, text: AbilityText::Text(text), delegates }
}

/// The answer of the level-up query once this card's level-up ability
/// applies: forced to true.
pub fn level_up_override(current: Flag) -> (r: Flag)
    ensures
        r == Flag::Override(true),
{
    current.with_override(true)
}

/// An ability which moves a minion to its owner's discard pile when it is
/// defeated.
pub fn construct() -> (r: Ability)
    ensures
        r.ability_type == AbilityType::Standard,
        r.text matches AbilityText::Text(t) && t@ == seq![TextToken::Keyword(Keyword::Construct)],
        r.delegates@ == seq![
            Delegate::MinionDefeated(EventDelegate { requirement: Requirement::ThisCard, mutation: Mutation::MoveToDiscardPile }),
        ],
{
    let mut text: Vec<TextToken> = Vec::new();
    text.push(TextToken::Keyword(Keyword::Construct));
    let mut delegates: Vec<Delegate> = Vec::new();
    delegates.push(
        Delegate::MinionDefeated(
            EventDelegate::new(Requirement::ThisCard, Mutation::MoveToDiscardPile),
        ),
    );
    Ability { ability_type: AbilityType::Standard, text: AbilityText::Text(text), delegates }
}

/// The mana stored by [store_mana_on_play] is placed when its card is cast:
/// while that ability is the only one which responds to cards being cast,
/// dispatching the cast of `cast` stores `n` mana in the ability's card when
/// it is the card cast, and changes nothing otherwise.
pub proof fn lemma_mana_stored_on_cast(
    before: GameState,
    after: GameState,
    cast: CardId,
    scope: Scope,
    n: u32,
)
    requires
        listeners(before, EventKind::CastCard) == seq![
            Listener {
                scope,
                delegate: EventDelegate {
                    requirement: Requirement::ThisCard,
                    mutation: Mutation::StoreMana(n),
                },
            },
        ],
        event_dispatched(before, after, EventKind::CastCard, EventSubject::Card(cast)),
    ensures
        cast == scope.spec_card_id() ==> only_card_changed(
            before,
            after,
            cast,
            CardState { stored_mana: n, ..before.card_state(cast) },
        ),
        cast != scope.spec_card_id() ==> after == before,
{
    lemma_single_listener_acts(before, after, EventKind::CastCard, EventSubject::Card(cast));
}

/// A card of [store_mana_on_play] leaves play once its stored mana is gone:
/// while that ability is the only one which responds to mana being taken,
/// passing the taking of mana from its card to the abilities moves the card
/// to its owner's discard pile when no mana is left on it, and changes
/// nothing otherwise.
pub proof fn lemma_discarded_when_mana_depleted(
    taken: GameState,
    after: GameState,
    scope: Scope,
)
    requires
        listeners(taken, EventKind::StoredManaTaken) == seq![
            Listener {
                scope,
                delegate: EventDelegate {
                    requirement: Requirement::ThisCard,
                    mutation: Mutation::DiscardWhenManaDepleted,
                },
            },
        ],
        nested_event_dispatched(
            taken,
            after,
            EventKind::StoredManaTaken,
            EventSubject::Card(scope.spec_card_id()),
        ),
    ensures
        taken.card_state(scope.spec_card_id()).stored_mana != 0 ==> after == taken,
        taken.card_state(scope.spec_card_id()).stored_mana == 0 ==> card_moved(
            taken,
            after,
            scope.spec_card_id(),
            CardPosition::DiscardPile(scope.spec_card_id().side),
        ),
{
    lemma_single_nested_listener_acts(
        taken,
        after,
        EventKind::StoredManaTaken,
        EventSubject::Card(scope.spec_card_id()),
    );
}

} // verus!
