//! Helpers for defining card behaviors: rules text, costs, stats, and
//! abilities which fire on common events.

use vstd::prelude::*;

use crate::card_definition::{
    Ability, AbilityText, AbilityType, CardStats, Cost, Delegate, EventDelegate, Keyword,
    Mutation, NumericOperator, Requirement, Scope, TextToken,
};
use crate::game_state::GameState;
use crate::primitives::{
    AbilityId, AttackBoost, AttackValue, CardId, HealthValue, ManaValue, SchemePoints,
};

verus! {

broadcast use vstd::string::group_string_axioms;

/// The address of an image.
#[derive(Debug, Clone)]
pub struct Sprite {
    pub address: String,
}

/// A use of a weapon's attack boost: the weapon, and how many times it was
/// boosted.
#[derive(Debug, Clone, Copy, PartialEq, Eq, Structural)]
pub struct BoostData {
    pub card_id: CardId,
    pub count: u32,
}

/// Rules text for a card.
pub fn text(value: &str) -> (r: TextToken)
    ensures
        r matches TextToken::Literal(s) && s@ == value@,
{
    TextToken::Literal(value.to_owned())
}

/// A number in rules text.
pub fn number(value: u32) -> (r: TextToken)
    ensures
        r == TextToken::Number(NumericOperator::NoOperator, value),
{
    TextToken::Number(NumericOperator::NoOperator, value)
}

/// A number added to something, in rules text.
pub fn add_number(value: u32) -> (r: TextToken)
    ensures
        r == TextToken::Number(NumericOperator::Add, value),
{
    TextToken::Number(NumericOperator::Add, value)
}

/// An amount of mana in rules text.
pub fn mana_symbol(value: ManaValue) -> (r: TextToken)
    ensures
        r == TextToken::Mana(value),
{
    TextToken::Mana(value)
}

/// A cost of mana in rules text.
pub fn mana_cost_text(value: ManaValue) -> (r: TextToken)
    ensures
        r == TextToken::Cost(value),
{
    TextToken::Cost(value)
}

/// A keyword in rules text.
pub fn keyword(word: Keyword) -> (r: TextToken)
    ensures
        r == TextToken::Keyword(word),
{
    TextToken::Keyword(word)
}

/// The cost of a card: `mana`, and one action point.
pub fn cost(mana: ManaValue) -> (r: Cost)
    ensures
        r == (Cost { mana: Some(mana), actions: 1, custom_cost: None }),
{
    Cost { mana: Some(mana), actions: 1, custom_cost: None }
}

/// The image at `text`.
pub fn sprite(address: &str) -> (r: Sprite)
    ensures
        r.address@ == address@,
{
    Sprite { address: address.to_owned() }
}

/// A requirement which always holds.
pub fn always(_game: &GameState, _scope: Scope) -> (r: bool)
    ensures
        r,
{
    true
}

/// A requirement that the delegate's card is in play.
pub fn in_play(game: &GameState, scope: Scope) -> (r: bool)
    requires
        game.valid_id(scope.spec_card_id()),
    ensures
        r == game.card_state(scope.spec_card_id()).position.is_in_play(),
{
    game.card(scope.card_id()).position.in_play()
}

/// A requirement that the event is about the delegate's own card.
pub fn this_card(_game: &GameState, scope: Scope, card_id: CardId) -> (r: bool)
    ensures
        r == (scope.spec_card_id() == card_id),
{
    scope.card_id() == card_id
}

/// A requirement that the event is about the delegate's own ability.
pub fn this_ability(_game: &GameState, scope: Scope, ability_id: AbilityId) -> (r: bool)
    ensures
        r == (scope.ability_id == ability_id),
{
    scope.ability_id == ability_id
}

/// A requirement that the boost event is about the delegate's own card.
pub fn this_boost(_game: &GameState, scope: Scope, boost_data: BoostData) -> (r: bool)
    ensures
        r == (scope.spec_card_id() == boost_data.card_id),
{
    scope.card_id() == boost_data.card_id
}

/// A standard ability with `rules` text and a single `delegate`.
fn standard(rules: AbilityText, delegate: Delegate) -> (r: Ability)
    ensures
        r.ability_type == AbilityType::Standard,
        r.text == rules,
        r.delegates@ == seq![delegate],
{
    let mut delegates: Vec<Delegate> = Vec::new();
    delegates.push(delegate);
    Ability { ability_type: AbilityType::Standard, text: rules, delegates }
}

/// An ability which fires when its card is cast.
pub fn on_cast(rules: AbilityText, mutation: Mutation) -> (r: Ability)
    ensures
        r.ability_type == AbilityType::Standard,
        r.text == rules,
        r.delegates@ == seq![
            Delegate::CastCard(EventDelegate { requirement: Requirement::ThisCard, mutation }),
        ],
{
    standard(rules, Delegate::CastCard(EventDelegate::new(Requirement::ThisCard, mutation)))
}

/// An ability which fires when its card is played.
pub fn on_play(rules: AbilityText, mutation: Mutation) -> (r: Ability)
    ensures
        r.ability_type == AbilityType::Standard,
        r.text == rules,
        r.delegates@ == seq![
            Delegate::PlayCard(EventDelegate { requirement: Requirement::ThisCard, mutation }),
        ],
{
    standard(rules, Delegate::PlayCard(EventDelegate::new(Requirement::ThisCard, mutation)))
}

/// An ability which fires at dawn while its card is in play.
pub fn at_dawn(rules: AbilityText, mutation: Mutation) -> (r: Ability)
    ensures
        r.ability_type == AbilityType::Standard,
        r.text == rules,
        r.delegates@ == seq![
            Delegate::Dawn(EventDelegate { requirement: Requirement::InPlay, mutation }),
        ],
{
    standard(rules, Delegate::Dawn(EventDelegate::new(Requirement::InPlay, mutation)))
}

/// An ability which fires at dusk while its card is in play.
pub fn at_dusk(rules: AbilityText, mutation: Mutation) -> (r: Ability)
    ensures
        r.ability_type == AbilityType::Standard,
        r.text == rules,
        r.delegates@ == seq![
            Delegate::Dusk(EventDelegate { requirement: Requirement::InPlay, mutation }),
        ],
{
    standard(rules, Delegate::Dusk(EventDelegate::new(Requirement::InPlay, mutation)))
}

/// A minion combat ability.
pub fn combat(rules: AbilityText, mutation: Mutation) -> (r: Ability)
    ensures
        r.ability_type == AbilityType::Standard,
        r.text == rules,
        r.delegates@ == seq![
            Delegate::MinionCombatAbility(EventDelegate { requirement: Requirement::ThisCard, mutation }),
        ],
{
    standard(
        rules,
        Delegate::MinionCombatAbility(EventDelegate::new(Requirement::ThisCard, mutation)),
    )
}

/// An ability which fires when its card is scored.
pub fn on_score(rules: AbilityText, mutation: Mutation) -> (r: Ability)
    ensures
        r.ability_type == AbilityType::Standard,
        r.text == rules,
        r.delegates@ == seq![
            Delegate::ScoreScheme(EventDelegate { requirement: Requirement::ThisCard, mutation }),
        ],
{
    standard(rules, Delegate::ScoreScheme(EventDelegate::new(Requirement::ThisCard, mutation)))
}

/// Stats with an attack of `base_attack` and the attack boost `boost`.
pub fn attack(base_attack: AttackValue, boost: AttackBoost) -> (r: CardStats)
    ensures
        r == (CardStats {
            base_attack: Some(base_attack),
            attack_boost: Some(boost),
            health: None,
            shield: None,
            raze_cost: None,
            scheme_points: None,
        }),
{
    CardStats { base_attack: Some(base_attack), attack_boost: Some(boost), ..CardStats::empty() }
}

/// Stats with a health of `health`.
pub fn health(value: HealthValue) -> (r: CardStats)
    ensures
        r == (CardStats {
            base_attack: None,
            attack_boost: None,
            health: Some(value),
            shield: None,
            raze_cost: None,
            scheme_points: None,
        }),
{
    CardStats { health: Some(value), ..CardStats::empty() }
}

/// Stats of a scheme worth `points`.
pub fn scheme_points(points: SchemePoints) -> (r: CardStats)
    ensures
        r == (CardStats {
            base_attack: None,
            attack_boost: None,
            health: None,
            shield: None,
            raze_cost: None,
            scheme_points: Some(points),
        }),
{
    CardStats { scheme_points: Some(points), ..CardStats::empty() }
}

} // verus!
