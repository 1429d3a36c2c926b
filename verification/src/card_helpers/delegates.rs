//! Helpers to build delegates, and common transformations.

use vstd::prelude::*;

use crate::card_definition::{
    AbilityFlag, Delegate, EventDelegate, Flag, Mutation, QueryDelegate, Requirement, Scope,
    Transformation,
};
use crate::game_state::GameState;

verus! {

/// A transformation which invokes [Flag::allow] to enable an action.
pub fn allow<T>(_game: &GameState, _scope: Scope, _data: &T, flag: Flag) -> (r: Flag)
    ensures
        r == flag.allowed(),
{
    flag.allow()
}

/// A transformation which invokes [Flag::disallow] to prevent an action.
pub fn disallow<T>(_game: &GameState, _scope: Scope, _data: &T, flag: Flag) -> (r: Flag)
    ensures
        r == flag.disallowed(),
{
    flag.disallow()
}

/// A transformation which invokes [AbilityFlag::disallow] to prevent an
/// action, recording the delegate's ability.
pub fn disallow_ability<T>(_game: &GameState, scope: Scope, _data: &T, flag: AbilityFlag) -> (r:
    AbilityFlag)
    ensures
        r == (AbilityFlag { flag: flag.flag.disallowed(), disallowed_by: Some(scope.ability_id) }),
{
    flag.disallow(scope.ability_id)
}

/// A delegate which changes the answer to the mana cost of a card.
pub fn mana_cost(requirement: Requirement, transformation: Transformation) -> (r: Delegate)
    ensures
        r == Delegate::ManaCost(QueryDelegate { requirement, transformation }),
{
    Delegate::ManaCost(QueryDelegate { requirement, transformation })
}

/// A delegate which changes the answer to the number of cards accessed in the sanctum.
pub fn sanctum_access_count(requirement: Requirement, transformation: Transformation) -> (r: Delegate)
    ensures
        r == Delegate::SanctumAccessCount(QueryDelegate { requirement, transformation }),
{
    Delegate::SanctumAccessCount(QueryDelegate { requirement, transformation })
}

/// A delegate which changes the answer to the number of cards accessed in the vault.
pub fn vault_access_count(requirement: Requirement, transformation: Transformation) -> (r: Delegate)
    ensures
        r == Delegate::VaultAccessCount(QueryDelegate { requirement, transformation }),
{
    Delegate::VaultAccessCount(QueryDelegate { requirement, transformation })
}

/// A delegate which changes the answer to the shield value of a card.
pub fn shield_value(requirement: Requirement, transformation: Transformation) -> (r: Delegate)
    ensures
        r == Delegate::ShieldValue(QueryDelegate { requirement, transformation }),
{
    Delegate::ShieldValue(QueryDelegate { requirement, transformation })
}

/// A delegate which acts on the play of a card.
pub fn on_played(requirement: Requirement, mutation: Mutation) -> (r: Delegate)
    ensures
        r == Delegate::PlayCard(EventDelegate { requirement, mutation }),
{
    Delegate::PlayCard(EventDelegate { requirement, mutation })
}

/// A delegate which acts on the population of the summon prompt of a raid.
pub fn on_will_populate_summon_prompt(requirement: Requirement, mutation: Mutation) -> (r: Delegate)
    ensures
        r == Delegate::WillPopulateSummonPrompt(EventDelegate { requirement, mutation }),
{
    Delegate::WillPopulateSummonPrompt(EventDelegate { requirement, mutation })
}

/// A delegate which acts on the summoning of a minion.
pub fn on_minion_summoned(requirement: Requirement, mutation: Mutation) -> (r: Delegate)
    ensures
        r == Delegate::SummonMinion(EventDelegate { requirement, mutation }),
{
    Delegate::SummonMinion(EventDelegate { requirement, mutation })
}

/// A delegate which acts on the approach of a minion during a raid.
pub fn on_minion_approached(requirement: Requirement, mutation: Mutation) -> (r: Delegate)
    ensures
        r == Delegate::ApproachMinion(EventDelegate { requirement, mutation }),
{
    Delegate::ApproachMinion(EventDelegate { requirement, mutation })
}

/// A delegate which acts on the start of the access phase of a raid.
pub fn on_raid_access_start(requirement: Requirement, mutation: Mutation) -> (r: Delegate)
    ensures
        r == Delegate::RaidAccessStart(EventDelegate { requirement, mutation }),
{
    Delegate::RaidAccessStart(EventDelegate { requirement, mutation })
}

/// A delegate which acts on the population of the access prompt of a raid.
pub fn on_will_populate_access_prompt(requirement: Requirement, mutation: Mutation) -> (r: Delegate)
    ensures
        r == Delegate::WillPopulateAccessPrompt(EventDelegate { requirement, mutation }),
{
    Delegate::WillPopulateAccessPrompt(EventDelegate { requirement, mutation })
}

/// A delegate which acts on the access of a card during a raid.
pub fn on_card_access(requirement: Requirement, mutation: Mutation) -> (r: Delegate)
    ensures
        r == Delegate::CardAccess(EventDelegate { requirement, mutation }),
{
    Delegate::CardAccess(EventDelegate { requirement, mutation })
}

/// A delegate which acts on the razing of a card during a raid.
pub fn on_card_razed(requirement: Requirement, mutation: Mutation) -> (r: Delegate)
    ensures
        r == Delegate::RazeCard(EventDelegate { requirement, mutation }),
{
    Delegate::RazeCard(EventDelegate { requirement, mutation })
}

/// A delegate which acts on the end of a custom access phase.
pub fn on_custom_access_end(requirement: Requirement, mutation: Mutation) -> (r: Delegate)
    ensures
        r == Delegate::CustomAccessEnd(EventDelegate { requirement, mutation }),
{
    Delegate::CustomAccessEnd(EventDelegate { requirement, mutation })
}

/// A delegate which acts on the end of a raid by an ability.
pub fn on_ability_will_end_raid(requirement: Requirement, mutation: Mutation) -> (r: Delegate)
    ensures
        r == Delegate::AbilityWillEndRaid(EventDelegate { requirement, mutation }),
{
    Delegate::AbilityWillEndRaid(EventDelegate { requirement, mutation })
}

/// A delegate which acts on the end of a raid.
pub fn on_raid_end(requirement: Requirement, mutation: Mutation) -> (r: Delegate)
    ensures
        r == Delegate::RaidEnd(EventDelegate { requirement, mutation }),
{
    Delegate::RaidEnd(EventDelegate { requirement, mutation })
}

/// A delegate which acts on the successful end of a raid.
pub fn on_raid_successful(requirement: Requirement, mutation: Mutation) -> (r: Delegate)
    ensures
        r == Delegate::RaidSuccess(EventDelegate { requirement, mutation }),
{
    Delegate::RaidSuccess(EventDelegate { requirement, mutation })
}

/// A delegate which acts on the drawing of cards.
pub fn on_will_draw_cards(requirement: Requirement, mutation: Mutation) -> (r: Delegate)
    ensures
        r == Delegate::WillDrawCards(EventDelegate { requirement, mutation }),
{
    Delegate::WillDrawCards(EventDelegate { requirement, mutation })
}

/// A delegate which changes the answer to the status markers of a card.
pub fn on_query_card_status_markers(requirement: Requirement, transformation: Transformation) -> (r: Delegate)
    ensures
        r == Delegate::CardStatusMarkers(QueryDelegate { requirement, transformation }),
{
    Delegate::CardStatusMarkers(QueryDelegate { requirement, transformation })
}

/// A delegate which changes the answer to the question whether a card can be played.
pub fn can_play_card(requirement: Requirement, transformation: Transformation) -> (r: Delegate)
    ensures
        r == Delegate::CanPlayCard(QueryDelegate { requirement, transformation }),
{
    Delegate::CanPlayCard(QueryDelegate { requirement, transformation })
}

/// A delegate which changes the answer to the question whether a minion can be summoned.
pub fn can_summon(requirement: Requirement, transformation: Transformation) -> (r: Delegate)
    ensures
        r == Delegate::CanSummon(QueryDelegate { requirement, transformation }),
{
    Delegate::CanSummon(QueryDelegate { requirement, transformation })
}

/// A delegate which changes the answer to the question whether an accessed card can be scored.
pub fn can_score_accessed_card(requirement: Requirement, transformation: Transformation) -> (r: Delegate)
    ensures
        r == Delegate::CanScoreAccessedCard(QueryDelegate { requirement, transformation }),
{
    Delegate::CanScoreAccessedCard(QueryDelegate { requirement, transformation })
}

/// A delegate which changes the answer to the question whether the Overlord can score a scheme.
pub fn can_covenant_score_scheme(requirement: Requirement, transformation: Transformation) -> (r: Delegate)
    ensures
        r == Delegate::CanCovenantScoreScheme(QueryDelegate { requirement, transformation }),
{
    Delegate::CanCovenantScoreScheme(QueryDelegate { requirement, transformation })
}

/// A delegate which changes the answer to the status markers of a card.
pub fn status_markers(requirement: Requirement, transformation: Transformation) -> (r: Delegate)
    ensures
        r == Delegate::CardStatusMarkers(QueryDelegate { requirement, transformation }),
{
    Delegate::CardStatusMarkers(QueryDelegate { requirement, transformation })
}

/// A delegate which changes the answer to the continuous display effect of a card.
pub fn continuous_display_effect(requirement: Requirement, transformation: Transformation) -> (r: Delegate)
    ensures
        r == Delegate::ContinuousDisplayEffect(QueryDelegate { requirement, transformation }),
{
    Delegate::ContinuousDisplayEffect(QueryDelegate { requirement, transformation })
}

} // verus!
