//! Weapon cards.

use vstd::prelude::*;

use crate::card_definition::{
    AbilityType, CardConfig, CardDefinition, CardStats, Cost, Delegate, EventDelegate, Faction,
    Mutation, QueryDelegate, Requirement, Transformation,
};
use crate::card_helpers::abilities::encounter_boost;
use crate::helpers::{attack, cost};
use crate::primitives::{AttackBoost, CardName, CardSubtype, CardType, Rarity, School, Side};

verus! {

/// Greataxe: a weapon with 3 attack, which gains 1 attack for each 2 mana
/// paid during an encounter.
pub fn greataxe() -> (r: CardDefinition)
    ensures
        r.name == CardName::Greataxe,
        r.cost == (Cost { mana: Some(3), actions: 1, custom_cost: None }),
        r.card_type == CardType::Artifact,
        r.subtypes@ == seq![CardSubtype::Weapon],
        r.side == Side::Champion,
        r.school == School::Time,
        r.rarity == Rarity::Common,
        r.abilities@.len() == 1,
        r.abilities@[0].ability_type == AbilityType::Encounter,
        r.abilities@[0].text is EncounterBoost,
        r.abilities@[0].delegates@ == seq![
            Delegate::ActivateBoost(EventDelegate { requirement: Requirement::ThisCard, mutation: Mutation::WriteBoost }),
            Delegate::AttackValue(QueryDelegate { requirement: Requirement::ThisCard, transformation: Transformation::AddBoost }),
            Delegate::EncounterEnd(EventDelegate { requirement: Requirement::Always, mutation: Mutation::ClearBoost }),
        ],
        r.config == (CardConfig {
            stats: CardStats {
                base_attack: Some(3),
                attack_boost: Some(AttackBoost { cost: 2, bonus: 1 }),
                health: None,
                shield: None,
                raze_cost: None,
                scheme_points: None,
            },
            faction: Some(Faction::Infernal),
        }),
{
    let mut subtypes: Vec<CardSubtype> = Vec::new();
    subtypes.push(CardSubtype::Weapon);
    let mut abilities = Vec::new();
    abilities.push(encounter_boost());
    CardDefinition {
        name: CardName::Greataxe,
        cost: cost(3),
        card_type: CardType::Artifact,
        subtypes,
        side: Side::Champion,
        school: School::Time,
        rarity: Rarity::Common,
        abilities,
        config: CardConfig {
            stats: attack(3, AttackBoost { cost: 2, bonus: 1 }),
            faction: Some(Faction::Infernal),
        },
    }
}

} // verus!
