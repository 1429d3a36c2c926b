//! Questions whose answer card abilities can change: which query delegates
//! answer a question, what each [Transformation] does to a yes-or-no answer,
//! and whether an ability can be activated.

use vstd::prelude::*;

use crate::card_definition::{
    Ability, Delegate, EventSubject, Flag, QueryDelegate, Scope, Transformation,
};
use crate::game_state::{CardState, GameState};
use crate::mutations::{requirement_met, spec_requirement_met};
use crate::primitives::{AbilityId, CardId};

verus! {

/// The questions to which card abilities can change the answer.
#[derive(Debug, Clone, Copy, PartialEq, Eq, Structural)]
pub enum QueryKind {
    AttackValue,
    CanLevelUpCard,
    ManaCost,
    SanctumAccessCount,
    VaultAccessCount,
    ShieldValue,
    CardStatusMarkers,
    CanPlayCard,
    CanSummon,
    CanScoreAccessedCard,
    CanCovenantScoreScheme,
    ContinuousDisplayEffect,
    CanActivate,
}

/// The query delegate of `delegate`, when it answers questions of `kind`.
pub open spec fn answering(delegate: Delegate, kind: QueryKind) -> Option<QueryDelegate> {
    match (delegate, kind) {
        (Delegate::AttackValue(d), QueryKind::AttackValue) => Some(d),
        (Delegate::CanLevelUpCard(d), QueryKind::CanLevelUpCard) => Some(d),
        (Delegate::ManaCost(d), QueryKind::ManaCost) => Some(d),
        (Delegate::SanctumAccessCount(d), QueryKind::SanctumAccessCount) => Some(d),
        (Delegate::VaultAccessCount(d), QueryKind::VaultAccessCount) => Some(d),
        (Delegate::ShieldValue(d), QueryKind::ShieldValue) => Some(d),
        (Delegate::CardStatusMarkers(d), QueryKind::CardStatusMarkers) => Some(d),
        (Delegate::CanPlayCard(d), QueryKind::CanPlayCard) => Some(d),
        (Delegate::CanSummon(d), QueryKind::CanSummon) => Some(d),
        (Delegate::CanScoreAccessedCard(d), QueryKind::CanScoreAccessedCard) => Some(d),
        (Delegate::CanCovenantScoreScheme(d), QueryKind::CanCovenantScoreScheme) => Some(d),
        (Delegate::ContinuousDisplayEffect(d), QueryKind::ContinuousDisplayEffect) => Some(d),
        (Delegate::CanActivate(d), QueryKind::CanActivate) => Some(d),
        _ => None,
    }
}

/// The query delegate of `delegate`, when it answers questions of `kind`.
pub fn answers_for(delegate: &Delegate, kind: QueryKind) -> (r: Option<QueryDelegate>)
    ensures
        r == answering(*delegate, kind),
{
    let (d, k) = match *delegate {
        Delegate::AttackValue(d) => (d, QueryKind::AttackValue),
        Delegate::CanLevelUpCard(d) => (d, QueryKind::CanLevelUpCard),
        Delegate::ManaCost(d) => (d, QueryKind::ManaCost),
        Delegate::SanctumAccessCount(d) => (d, QueryKind::SanctumAccessCount),
        Delegate::VaultAccessCount(d) => (d, QueryKind::VaultAccessCount),
        Delegate::ShieldValue(d) => (d, QueryKind::ShieldValue),
        Delegate::CardStatusMarkers(d) => (d, QueryKind::CardStatusMarkers),
        Delegate::CanPlayCard(d) => (d, QueryKind::CanPlayCard),
        Delegate::CanSummon(d) => (d, QueryKind::CanSummon),
        Delegate::CanScoreAccessedCard(d) => (d, QueryKind::CanScoreAccessedCard),
        Delegate::CanCovenantScoreScheme(d) => (d, QueryKind::CanCovenantScoreScheme),
        Delegate::ContinuousDisplayEffect(d) => (d, QueryKind::ContinuousDisplayEffect),
        Delegate::CanActivate(d) => (d, QueryKind::CanActivate),
        _ => {
            return None;
        },
    };
    if k == kind {
        Some(d)
    } else {
        None
    }
}

/// A query delegate of an ability, with the ability it belongs to.
#[derive(Debug, Clone, Copy, PartialEq, Eq, Structural)]
pub struct Answerer {
    pub scope: Scope,
    pub delegate: QueryDelegate,
}

/// The answerers of `kind` among `delegates`, the delegates of the ability
/// `ability_id`, in order.
pub open spec fn delegate_answerers(
    ability_id: AbilityId,
    delegates: Seq<Delegate>,
    kind: QueryKind,
) -> Seq<Answerer>
    decreases delegates.len(),
{
    if delegates.len() == 0 {
        Seq::empty()
    } else {
        let before = delegate_answerers(ability_id, delegates.drop_last(), kind);
        match answering(delegates.last(), kind) {
            Some(d) => before.push(Answerer { scope: Scope { ability_id }, delegate: d }),
            None => before,
        }
    }
}

/// The answerers of `kind` among the abilities of the card `card_id`.
pub open spec fn ability_answerers(
    card_id: CardId,
    abilities: Seq<Ability>,
    kind: QueryKind,
) -> Seq<Answerer>
    decreases abilities.len(),
{
    if abilities.len() == 0 {
        Seq::empty()
    } else {
        let n = (abilities.len() - 1) as int;
        ability_answerers(card_id, abilities.drop_last(), kind) + delegate_answerers(
            AbilityId { card_id, index: n as usize },
            abilities.last().delegates@,
            kind,
        )
    }
}

/// The answerers of `kind` among the abilities of `cards`, card by card.
pub open spec fn card_answerers(cards: Seq<CardState>, kind: QueryKind) -> Seq<Answerer>
    decreases cards.len(),
{
    if cards.len() == 0 {
        Seq::empty()
    } else {
        card_answerers(cards.drop_last(), kind) + ability_answerers(
            cards.last().id,
            cards.last().definition.abilities@,
            kind,
        )
    }
}

/// The answerers of `kind` in `game`: those of the Overlord's cards, then
/// those of the Champion's cards.
pub open spec fn answerers(game: GameState, kind: QueryKind) -> Seq<Answerer> {
    card_answerers(game.overlord_cards@, kind) + card_answerers(game.champion_cards@, kind)
}

fn push_delegate_answerers(
    out: &mut Vec<Answerer>,
    ability_id: AbilityId,
    delegates: &Vec<Delegate>,
    kind: QueryKind,
)
    ensures
        final(out)@ == old(out)@ + delegate_answerers(ability_id, delegates@, kind),
{
    let ghost start = out@;
    let mut i: usize = 0;
    while i < delegates.len()
        invariant
            i <= delegates.len(),
            out@ == start + delegate_answerers(ability_id, delegates@.take(i as int), kind),
        decreases delegates.len() - i,
    {
        assert(delegates@.take(i + 1).drop_last() =~= delegates@.take(i as int));
        match answers_for(&delegates[i], kind) {
            Some(d) => {
                out.push(Answerer { scope: Scope { ability_id }, delegate: d });
            },
            None => {},
        }
        i = i + 1;
        assert(out@ =~= start + delegate_answerers(ability_id, delegates@.take(i as int), kind));
    }
    assert(delegates@.take(i as int) =~= delegates@);
}

fn push_ability_answerers(
    out: &mut Vec<Answerer>,
    card_id: CardId,
    abilities: &Vec<Ability>,
    kind: QueryKind,
)
    ensures
        final(out)@ == old(out)@ + ability_answerers(card_id, abilities@, kind),
{
    let ghost start = out@;
    let mut i: usize = 0;
    while i < abilities.len()
        invariant
            i <= abilities.len(),
            out@ == start + ability_answerers(card_id, abilities@.take(i as int), kind),
        decreases abilities.len() - i,
    {
        assert(abilities@.take(i + 1).drop_last() =~= abilities@.take(i as int));
        push_delegate_answerers(out, AbilityId { card_id, index: i }, &abilities[i].delegates, kind);
        i = i + 1;
        assert(out@ =~= start + ability_answerers(card_id, abilities@.take(i as int), kind));
    }
    assert(abilities@.take(i as int) =~= abilities@);
}

fn push_card_answerers(out: &mut Vec<Answerer>, cards: &Vec<CardState>, kind: QueryKind)
    ensures
        final(out)@ == old(out)@ + card_answerers(cards@, kind),
{
    let ghost start = out@;
    let mut i: usize = 0;
    while i < cards.len()
        invariant
            i <= cards.len(),
            out@ == start + card_answerers(cards@.take(i as int), kind),
        decreases cards.len() - i,
    {
        assert(cards@.take(i + 1).drop_last() =~= cards@.take(i as int));
        push_ability_answerers(out, cards[i].id, &cards[i].definition.abilities, kind);
        i = i + 1;
        assert(out@ =~= start + card_answerers(cards@.take(i as int), kind));
    }
    assert(cards@.take(i as int) =~= cards@);
}

/// The answerers of `kind` in `game`, in the order in which they answer.
pub fn query_answerers(game: &GameState, kind: QueryKind) -> (r: Vec<Answerer>)
    ensures
        r@ == answerers(*game, kind),
{
    let mut out: Vec<Answerer> = Vec::new();
    push_card_answerers(&mut out, &game.overlord_cards, kind);
    push_card_answerers(&mut out, &game.champion_cards, kind);
    assert(out@ =~= answerers(*game, kind));
    out
}

/// What `transformation` makes of the yes-or-no answer `flag` in `game`: a
/// forced answer, allowing, preventing, or preventing while the Champion has
/// no curse. A transformation of numbers leaves a yes-or-no answer alone.
pub open spec fn flag_transformed(game: GameState, transformation: Transformation, flag: Flag) -> Flag {
    match transformation {
        Transformation::OverrideTrue => Flag::Override(true),
        Transformation::Allow => flag.allowed(),
        Transformation::Disallow => flag.disallowed(),
        Transformation::DisallowAbility => flag.disallowed(),
        Transformation::RequireChampionCurses => if game.champion.curses == 0 {
            flag.disallowed()
        } else {
            flag
        },
        Transformation::AddBoost => flag,
    }
}

/// The answer `flag` once the answerers `ls` have transformed it in turn,
/// each whose card is in the game and whose requirement holds for a question
/// about `subject`.
pub open spec fn flag_answer(
    game: GameState,
    ls: Seq<Answerer>,
    subject: EventSubject,
    flag: Flag,
) -> Flag
    decreases ls.len(),
{
    if ls.len() == 0 {
        flag
    } else {
        let before = flag_answer(game, ls.drop_last(), subject, flag);
        let l = ls.last();
        if game.valid_id(l.scope.spec_card_id()) && spec_requirement_met(
            game,
            l.scope,
            l.delegate.requirement,
            subject,
        ) {
            flag_transformed(game, l.delegate.transformation, before)
        } else {
            before
        }
    }
}

/// What `transformation` makes of the yes-or-no answer `flag` in `game`.
pub fn transform_flag(game: &GameState, transformation: Transformation, flag: Flag) -> (r: Flag)
    ensures
        r == flag_transformed(*game, transformation, flag),
{
    match transformation {
        Transformation::OverrideTrue => flag.with_override(true),
        Transformation::Allow => flag.allow(),
        Transformation::Disallow => flag.disallow(),
        Transformation::DisallowAbility => flag.disallow(),
        Transformation::RequireChampionCurses => if game.champion.curses == 0 {
            flag.disallow()
        } else {
            flag
        },
        Transformation::AddBoost => flag,
    }
}

/// The answer to a yes-or-no question of `kind` about `subject`, starting
/// from `flag`: each answerer of the game transforms it in turn when its
/// requirement holds.
pub fn query_flag(game: &GameState, kind: QueryKind, subject: EventSubject, flag: Flag) -> (r: Flag)
    ensures
        r == flag_answer(*game, answerers(*game, kind), subject, flag),
{
    let ls = query_answerers(game, kind);
    let mut answer = flag;
    let mut i: usize = 0;
    while i < ls.len()
        invariant
            i <= ls.len(),
            ls@ == answerers(*game, kind),
            answer == flag_answer(*game, ls@.take(i as int), subject, flag),
        decreases ls.len() - i,
    {
        assert(ls@.take(i + 1).drop_last() =~= ls@.take(i as int));
        let l = ls[i];
        let card_id = l.scope.card_id();
        let valid = card_id.index < game.card_count(card_id.side);
        if valid && requirement_met(game, l.scope, l.delegate.requirement, subject) {
            answer = transform_flag(game, l.delegate.transformation, answer);
        }
        i = i + 1;
    }
    assert(ls@.take(i as int) =~= ls@);
    answer
}

/// Whether the ability `ability_id` can be activated, as the abilities of
/// the game's cards answer it: allowed unless an answerer prevents it.
pub fn can_activate(game: &GameState, ability_id: AbilityId) -> (r: bool)
    ensures
        r == flag_answer(
            *game,
            answerers(*game, QueryKind::CanActivate),
            EventSubject::Ability(ability_id),
            Flag::Default(true),
        ).value(),
{
    let flag = query_flag(
        game,
        QueryKind::CanActivate,
        EventSubject::Ability(ability_id),
        Flag::Default(true),
    );
    match flag {
        Flag::Default(v) => v,
        Flag::Override(v) => v,
    }
}

/// The attack bonus that one use of the attack boost of `card` gives.
pub open spec fn attack_bonus(card: CardState) -> int {
    match card.definition.config.stats.attack_boost {
        Some(b) => b.bonus as int,
        None => 0,
    }
}

/// What `transformation` makes of the number `value` answered to a question
/// of `kind` about `subject` in `game`. Only the attack of a card is
/// changed by a transformation of numbers: adding the card's attack bonus
/// once for each use of its boost. The other transformations answer
/// yes-or-no questions and leave a number alone.
pub open spec fn number_transformed(
    game: GameState,
    kind: QueryKind,
    transformation: Transformation,
    subject: EventSubject,
    value: int,
) -> int {
    match (kind, transformation, subject) {
        (QueryKind::AttackValue, Transformation::AddBoost, EventSubject::Card(c)) => if game.valid_id(
            c,
        ) {
            value + game.card_state(c).boost_count * attack_bonus(game.card_state(c))
        } else {
            value
        },
        _ => value,
    }
}

/// The number `value` once the answerers `ls` have transformed it in turn,
/// each whose card is in the game and whose requirement holds for a question
/// of `kind` about `subject`.
pub open spec fn number_answer(
    game: GameState,
    kind: QueryKind,
    ls: Seq<Answerer>,
    subject: EventSubject,
    value: int,
) -> int
    decreases ls.len(),
{
    if ls.len() == 0 {
        value
    } else {
        let before = number_answer(game, kind, ls.drop_last(), subject, value);
        let l = ls.last();
        if game.valid_id(l.scope.spec_card_id()) && spec_requirement_met(
            game,
            l.scope,
            l.delegate.requirement,
            subject,
        ) {
            number_transformed(game, kind, l.delegate.transformation, subject, before)
        } else {
            before
        }
    }
}

/// Transformations only add to a number: the answer is never below the
/// starting value.
proof fn lemma_number_answer_grows(
    game: GameState,
    kind: QueryKind,
    ls: Seq<Answerer>,
    subject: EventSubject,
    value: int,
)
    ensures
        number_answer(game, kind, ls, subject, value) >= value,
    decreases ls.len(),
{
    if ls.len() > 0 {
        lemma_number_answer_grows(game, kind, ls.drop_last(), subject, value);
    }
}

/// Only the attack of a card is changed by the abilities of the cards: the
/// answer to any other numeric question, such as a mana cost, a shield or
/// the number of cards accessed, is the value it starts from.
pub proof fn lemma_only_attack_is_transformed(
    game: GameState,
    kind: QueryKind,
    ls: Seq<Answerer>,
    subject: EventSubject,
    value: int,
)
    requires
        kind != QueryKind::AttackValue,
    ensures
        number_answer(game, kind, ls, subject, value) == value,
    decreases ls.len(),
{
    if ls.len() > 0 {
        lemma_number_answer_grows(game, kind, ls.drop_last(), subject, value);
        lemma_only_attack_is_transformed(game, kind, ls.drop_last(), subject, value);
    }
}

/// What `transformation` makes of the number `value`, or `None` when the
/// number leaves the range of `u32`.
fn transform_number(
    game: &GameState,
    kind: QueryKind,
    transformation: Transformation,
    subject: EventSubject,
    value: u32,
) -> (r: Option<u32>)
    ensures
        ({
            let n = number_transformed(*game, kind, transformation, subject, value as int);
            r == if n <= u32::MAX {
                Some(n as u32)
            } else {
                None::<u32>
            }
        }),
{
    match (kind, transformation, subject) {
        (QueryKind::AttackValue, Transformation::AddBoost, EventSubject::Card(c)) => {
            if c.index >= game.card_count(c.side) {
                return Some(value);
            }
            let card = game.card(c);
            let bonus: u32 = match card.definition.config.stats.attack_boost {
                Some(b) => b.bonus,
                None => 0,
            };
            let count = card.boost_count as u64;
            let b = bonus as u64;
            assert(count * b <= u32::MAX * u32::MAX) by (nonlinear_arith)
                requires
                    count <= u32::MAX,
                    b <= u32::MAX,
            ;
            let added = count * b;
            if added > (u32::MAX - value) as u64 {
                None
            } else {
                Some(value + added as u32)
            }
        },
        _ => Some(value),
    }
}

/// The answer to a numeric question of `kind` about `subject`, starting
/// from `value`: each answerer of the game transforms it in turn when its
/// requirement holds. `None` when the answer leaves the range of `u32`.
pub fn query_number(game: &GameState, kind: QueryKind, subject: EventSubject, value: u32) -> (r:
    Option<u32>)
    ensures
        ({
            let n = number_answer(*game, kind, answerers(*game, kind), subject, value as int);
            r == if n <= u32::MAX {
                Some(n as u32)
            } else {
                None::<u32>
            }
        }),
{
    let ls = query_answerers(game, kind);
    let mut answer = value;
    let mut i: usize = 0;
    while i < ls.len()
        invariant
            i <= ls.len(),
            ls@ == answerers(*game, kind),
            answer == number_answer(*game, kind, ls@.take(i as int), subject, value as int),
        decreases ls.len() - i,
    {
        assert(ls@.take(i + 1).drop_last() =~= ls@.take(i as int));
        let l = ls[i];
        let card_id = l.scope.card_id();
        let valid = card_id.index < game.card_count(card_id.side);
        if valid && requirement_met(game, l.scope, l.delegate.requirement, subject) {
            match transform_number(game, kind, l.delegate.transformation, subject, answer) {
                Some(n) => {
                    answer = n;
                },
                None => {
                    proof {
                        let rest = ls@.skip(i + 1);
                        assert(ls@ =~= ls@.take(i + 1) + rest);
                        lemma_answer_of_larger_start_exceeds(
                            *game,
                            kind,
                            ls@,
                            i + 1,
                            subject,
                            value as int,
                        );
                    }
                    return None;
                },
            }
        }
        i = i + 1;
    }
    assert(ls@.take(i as int) =~= ls@);
    Some(answer)
}

/// The answer over all of `ls` is at least the answer over its first `k`.
proof fn lemma_answer_of_larger_start_exceeds(
    game: GameState,
    kind: QueryKind,
    ls: Seq<Answerer>,
    k: int,
    subject: EventSubject,
    value: int,
)
    requires
        0 <= k <= ls.len(),
    ensures
        number_answer(game, kind, ls, subject, value) >= number_answer(
            game,
            kind,
            ls.take(k),
            subject,
            value,
        ),
    decreases ls.len(),
{
    if k == ls.len() {
        assert(ls.take(k) =~= ls);
    } else {
        assert(ls.drop_last().take(k) =~= ls.take(k));
        lemma_answer_of_larger_start_exceeds(game, kind, ls.drop_last(), k, subject, value);
    }
}

/// The attack of `card_id`: its base attack as every ability of the game
/// answers it, such as a weapon's boost adding its bonus once for each use.
/// `None` when the card has no attack or it leaves the range of `u32`.
pub fn attack_value(game: &GameState, card_id: CardId) -> (r: Option<u32>)
    requires
        game.wf(),
        game.valid_id(card_id),
    ensures
        match game.card_state(card_id).definition.config.stats.base_attack {
            Some(base) => {
                let n = number_answer(
                    *game,
                    QueryKind::AttackValue,
                    answerers(*game, QueryKind::AttackValue),
                    EventSubject::Card(card_id),
                    base as int,
                );
                r == if n <= u32::MAX {
                    Some(n as u32)
                } else {
                    None::<u32>
                }
            },
            None => r is None,
        },
{
    match game.card(card_id).definition.config.stats.base_attack {
        Some(base) => query_number(game, QueryKind::AttackValue, EventSubject::Card(card_id), base),
        None => None,
    }
}

} // verus!
