//! Running card abilities when something happens in a game: which delegates
//! listen for an event, and the dispatch of an event to them, one after the
//! other, each acting on the game that the ones before left.

use vstd::prelude::*;

use crate::card_definition::{Ability, Delegate, EventDelegate, EventSubject, RaidOutcome, Scope};
use crate::error::GameError;
use crate::game_state::{CardState, GameEvent, GameInfo, GameState};
use crate::mutations::{requirement_met, spec_requirement_met};
use crate::draws::{carry_out_effect, effect_done, effect_fails};
use crate::effects::{apply_mutation, mutation_applied, mutation_fits, raid_kept_or_ended};
use crate::primitives::{AbilityId, CardId, RaidId, Side};

verus! {

/// The kinds of events to which card abilities respond.
#[derive(Debug, Clone, Copy, PartialEq, Eq, Structural)]
pub enum EventKind {
    ActivateBoost,
    EncounterEnd,
    CastCard,
    StoredManaTaken,
    ActivateAbility,
    MinionCombatAbility,
    MinionDefeated,
    PlayCard,
    RaidAccessStart,
    WillPopulateAccessPrompt,
    RaidEnd,
    RaidSuccess,
    WillPopulateSummonPrompt,
    SummonMinion,
    ApproachMinion,
    CardAccess,
    RazeCard,
    CustomAccessEnd,
    AbilityWillEndRaid,
    WillDrawCards,
    WillReceiveCurses,
    GainManaAction,
    ProgressCardAction,
    DrawCardAction,
    Dawn,
    Dusk,
    ScoreScheme,
}

/// The event delegate of `delegate`, when it listens for events of `kind`.
pub open spec fn listening(delegate: Delegate, kind: EventKind) -> Option<EventDelegate> {
    match (delegate, kind) {
        (Delegate::ActivateBoost(d), EventKind::ActivateBoost) => Some(d),
        (Delegate::EncounterEnd(d), EventKind::EncounterEnd) => Some(d),
        (Delegate::CastCard(d), EventKind::CastCard) => Some(d),
        (Delegate::StoredManaTaken(d), EventKind::StoredManaTaken) => Some(d),
        (Delegate::ActivateAbility(d), EventKind::ActivateAbility) => Some(d),
        (Delegate::MinionCombatAbility(d), EventKind::MinionCombatAbility) => Some(d),
        (Delegate::MinionDefeated(d), EventKind::MinionDefeated) => Some(d),
        (Delegate::PlayCard(d), EventKind::PlayCard) => Some(d),
        (Delegate::RaidAccessStart(d), EventKind::RaidAccessStart) => Some(d),
        (Delegate::WillPopulateAccessPrompt(d), EventKind::WillPopulateAccessPrompt) => Some(d),
        (Delegate::RaidEnd(d), EventKind::RaidEnd) => Some(d),
        (Delegate::RaidSuccess(d), EventKind::RaidSuccess) => Some(d),
        (Delegate::WillPopulateSummonPrompt(d), EventKind::WillPopulateSummonPrompt) => Some(d),
        (Delegate::SummonMinion(d), EventKind::SummonMinion) => Some(d),
        (Delegate::ApproachMinion(d), EventKind::ApproachMinion) => Some(d),
        (Delegate::CardAccess(d), EventKind::CardAccess) => Some(d),
        (Delegate::RazeCard(d), EventKind::RazeCard) => Some(d),
        (Delegate::CustomAccessEnd(d), EventKind::CustomAccessEnd) => Some(d),
        (Delegate::AbilityWillEndRaid(d), EventKind::AbilityWillEndRaid) => Some(d),
        (Delegate::WillDrawCards(d), EventKind::WillDrawCards) => Some(d),
        (Delegate::WillReceiveCurses(d), EventKind::WillReceiveCurses) => Some(d),
        (Delegate::GainManaAction(d), EventKind::GainManaAction) => Some(d),
        (Delegate::ProgressCardAction(d), EventKind::ProgressCardAction) => Some(d),
        (Delegate::DrawCardAction(d), EventKind::DrawCardAction) => Some(d),
        (Delegate::Dawn(d), EventKind::Dawn) => Some(d),
        (Delegate::Dusk(d), EventKind::Dusk) => Some(d),
        (Delegate::ScoreScheme(d), EventKind::ScoreScheme) => Some(d),
        _ => None,
    }
}

/// The event delegate of `delegate`, when it listens for events of `kind`.
pub fn listens_for(delegate: &Delegate, kind: EventKind) -> (r: Option<EventDelegate>)
    ensures
        r == listening(*delegate, kind),
{
    let (d, k) = match *delegate {
        Delegate::ActivateBoost(d) => (d, EventKind::ActivateBoost),
        Delegate::EncounterEnd(d) => (d, EventKind::EncounterEnd),
        Delegate::CastCard(d) => (d, EventKind::CastCard),
        Delegate::StoredManaTaken(d) => (d, EventKind::StoredManaTaken),
        Delegate::ActivateAbility(d) => (d, EventKind::ActivateAbility),
        Delegate::MinionCombatAbility(d) => (d, EventKind::MinionCombatAbility),
        Delegate::MinionDefeated(d) => (d, EventKind::MinionDefeated),
        Delegate::PlayCard(d) => (d, EventKind::PlayCard),
        Delegate::RaidAccessStart(d) => (d, EventKind::RaidAccessStart),
        Delegate::WillPopulateAccessPrompt(d) => (d, EventKind::WillPopulateAccessPrompt),
        Delegate::RaidEnd(d) => (d, EventKind::RaidEnd),
        Delegate::RaidSuccess(d) => (d, EventKind::RaidSuccess),
        Delegate::WillPopulateSummonPrompt(d) => (d, EventKind::WillPopulateSummonPrompt),
        Delegate::SummonMinion(d) => (d, EventKind::SummonMinion),
        Delegate::ApproachMinion(d) => (d, EventKind::ApproachMinion),
        Delegate::CardAccess(d) => (d, EventKind::CardAccess),
        Delegate::RazeCard(d) => (d, EventKind::RazeCard),
        Delegate::CustomAccessEnd(d) => (d, EventKind::CustomAccessEnd),
        Delegate::AbilityWillEndRaid(d) => (d, EventKind::AbilityWillEndRaid),
        Delegate::WillDrawCards(d) => (d, EventKind::WillDrawCards),
        Delegate::WillReceiveCurses(d) => (d, EventKind::WillReceiveCurses),
        Delegate::GainManaAction(d) => (d, EventKind::GainManaAction),
        Delegate::ProgressCardAction(d) => (d, EventKind::ProgressCardAction),
        Delegate::DrawCardAction(d) => (d, EventKind::DrawCardAction),
        Delegate::Dawn(d) => (d, EventKind::Dawn),
        Delegate::Dusk(d) => (d, EventKind::Dusk),
        Delegate::ScoreScheme(d) => (d, EventKind::ScoreScheme),
        _ => {
            return None;
        },
    };
    if k == kind {
        Some(d)
    } else {
        None
    }
}

/// An event delegate of an ability, with the ability it belongs to.
#[derive(Debug, Clone, Copy, PartialEq, Eq, Structural)]
pub struct Listener {
    pub scope: Scope,
    pub delegate: EventDelegate,
}

/// The listeners for `kind` among `delegates`, the delegates of the ability
/// `ability_id`, in order.
pub open spec fn delegate_listeners(
    ability_id: AbilityId,
    delegates: Seq<Delegate>,
    kind: EventKind,
) -> Seq<Listener>
    decreases delegates.len(),
{
    if delegates.len() == 0 {
        Seq::empty()
    } else {
        let before = delegate_listeners(ability_id, delegates.drop_last(), kind);
        match listening(delegates.last(), kind) {
            Some(d) => before.push(Listener { scope: Scope { ability_id }, delegate: d }),
            None => before,
        }
    }
}

/// The listeners for `kind` among the delegates of `abilities`, the
/// abilities of the card `card_id`, ability by ability.
pub open spec fn ability_listeners(
    card_id: CardId,
    abilities: Seq<Ability>,
    kind: EventKind,
) -> Seq<Listener>
    decreases abilities.len(),
{
    if abilities.len() == 0 {
        Seq::empty()
    } else {
        let n = (abilities.len() - 1) as int;
        ability_listeners(card_id, abilities.drop_last(), kind) + delegate_listeners(
            AbilityId { card_id, index: n as usize },
            abilities.last().delegates@,
            kind,
        )
    }
}

/// The listeners for `kind` among the abilities of `cards`, card by card.
pub open spec fn card_listeners(cards: Seq<CardState>, kind: EventKind) -> Seq<Listener>
    decreases cards.len(),
{
    if cards.len() == 0 {
        Seq::empty()
    } else {
        card_listeners(cards.drop_last(), kind) + ability_listeners(
            cards.last().id,
            cards.last().definition.abilities@,
            kind,
        )
    }
}

/// The listeners for `kind` in `game`: those of the Overlord's cards, then
/// those of the Champion's cards.
pub open spec fn listeners(game: GameState, kind: EventKind) -> Seq<Listener> {
    card_listeners(game.overlord_cards@, kind) + card_listeners(game.champion_cards@, kind)
}

/// Appends the listeners for `kind` among the delegates of the ability
/// `ability_id`.
fn push_delegate_listeners(
    out: &mut Vec<Listener>,
    ability_id: AbilityId,
    delegates: &Vec<Delegate>,
    kind: EventKind,
)
    ensures
        final(out)@ == old(out)@ + delegate_listeners(ability_id, delegates@, kind),
{
    let ghost start = out@;
    let mut i: usize = 0;
    while i < delegates.len()
        invariant
            i <= delegates.len(),
            out@ == start + delegate_listeners(ability_id, delegates@.take(i as int), kind),
        decreases delegates.len() - i,
    {
        assert(delegates@.take(i + 1).drop_last() =~= delegates@.take(i as int));
        match listens_for(&delegates[i], kind) {
            Some(d) => {
                out.push(Listener { scope: Scope { ability_id }, delegate: d });
            },
            None => {},
        }
        i = i + 1;
        assert(out@ =~= start + delegate_listeners(ability_id, delegates@.take(i as int), kind));
    }
    assert(delegates@.take(i as int) =~= delegates@);
}

/// Appends the listeners for `kind` among the abilities of the card
/// `card_id`.
fn push_ability_listeners(
    out: &mut Vec<Listener>,
    card_id: CardId,
    abilities: &Vec<Ability>,
    kind: EventKind,
)
    ensures
        final(out)@ == old(out)@ + ability_listeners(card_id, abilities@, kind),
{
    let ghost start = out@;
    let mut i: usize = 0;
    while i < abilities.len()
        invariant
            i <= abilities.len(),
            out@ == start + ability_listeners(card_id, abilities@.take(i as int), kind),
        decreases abilities.len() - i,
    {
        assert(abilities@.take(i + 1).drop_last() =~= abilities@.take(i as int));
        push_delegate_listeners(out, AbilityId { card_id, index: i }, &abilities[i].delegates, kind);
        i = i + 1;
        assert(out@ =~= start + ability_listeners(card_id, abilities@.take(i as int), kind));
    }
    assert(abilities@.take(i as int) =~= abilities@);
}

/// Appends the listeners for `kind` among the abilities of `cards`.
fn push_card_listeners(out: &mut Vec<Listener>, cards: &Vec<CardState>, kind: EventKind)
    ensures
        final(out)@ == old(out)@ + card_listeners(cards@, kind),
{
    let ghost start = out@;
    let mut i: usize = 0;
    while i < cards.len()
        invariant
            i <= cards.len(),
            out@ == start + card_listeners(cards@.take(i as int), kind),
        decreases cards.len() - i,
    {
        assert(cards@.take(i + 1).drop_last() =~= cards@.take(i as int));
        push_ability_listeners(out, cards[i].id, &cards[i].definition.abilities, kind);
        i = i + 1;
        assert(out@ =~= start + card_listeners(cards@.take(i as int), kind));
    }
    assert(cards@.take(i as int) =~= cards@);
}

/// The listeners for `kind` in `game`, in the order in which they act.
pub fn event_listeners(game: &GameState, kind: EventKind) -> (r: Vec<Listener>)
    ensures
        r@ == listeners(*game, kind),
{
    let mut out: Vec<Listener> = Vec::new();
    push_card_listeners(&mut out, &game.overlord_cards, kind);
    push_card_listeners(&mut out, &game.champion_cards, kind);
    assert(out@ =~= listeners(*game, kind));
    out
}

/// Every listener of `delegates` belongs to the ability `ability_id`.
proof fn lemma_delegate_listeners_scope(ability_id: AbilityId, delegates: Seq<Delegate>, kind: EventKind)
    ensures
        forall|i: int|
            0 <= i < delegate_listeners(ability_id, delegates, kind).len() ==> (
            #[trigger] delegate_listeners(ability_id, delegates, kind)[i]).scope.ability_id
                == ability_id,
    decreases delegates.len(),
{
    if delegates.len() > 0 {
        lemma_delegate_listeners_scope(ability_id, delegates.drop_last(), kind);
    }
}

/// Every listener of `abilities` belongs to an ability of `card_id`.
proof fn lemma_ability_listeners_card(card_id: CardId, abilities: Seq<Ability>, kind: EventKind)
    ensures
        forall|i: int|
            0 <= i < ability_listeners(card_id, abilities, kind).len() ==> (
            #[trigger] ability_listeners(card_id, abilities, kind)[i]).scope.ability_id.card_id
                == card_id,
    decreases abilities.len(),
{
    if abilities.len() > 0 {
        let n = (abilities.len() - 1) as int;
        lemma_ability_listeners_card(card_id, abilities.drop_last(), kind);
        lemma_delegate_listeners_scope(
            AbilityId { card_id, index: n as usize },
            abilities.last().delegates@,
            kind,
        );
    }
}

/// The listeners of `cards`, the cards of `side` each at the place its id
/// names, belong to those cards.
proof fn lemma_card_listeners_in_range(cards: Seq<CardState>, side: Side, kind: EventKind)
    requires
        forall|j: int| 0 <= j < cards.len() ==> (#[trigger] cards[j]).id == (CardId {
            side,
            index: j as usize,
        }),
    ensures
        forall|i: int|
            0 <= i < card_listeners(cards, kind).len() ==> (#[trigger] card_listeners(cards, kind)[i]).scope.spec_card_id().side == side
                && card_listeners(cards, kind)[i].scope.spec_card_id().index < cards.len(),
    decreases cards.len(),
{
    if cards.len() > 0 {
        let rest = cards.drop_last();
        assert forall|j: int| 0 <= j < rest.len() implies (#[trigger] rest[j]).id == (CardId {
            side,
            index: j as usize,
        }) by {
            assert(rest[j] == cards[j]);
        }
        lemma_card_listeners_in_range(rest, side, kind);
        assert(cards.last() == cards[cards.len() - 1]);
        lemma_ability_listeners_card(cards.last().id, cards.last().definition.abilities@, kind);
    }
}

/// In a well-formed game every listener belongs to a card of the game.
pub proof fn lemma_listeners_in_game(game: GameState, kind: EventKind)
    requires
        game.wf(),
    ensures
        forall|i: int|
            0 <= i < listeners(game, kind).len() ==> game.valid_id(
                (#[trigger] listeners(game, kind)[i]).scope.spec_card_id(),
            ),
{
    lemma_card_listeners_in_range(game.overlord_cards@, Side::Overlord, kind);
    lemma_card_listeners_in_range(game.champion_cards@, Side::Champion, kind);
    let a = card_listeners(game.overlord_cards@, kind);
    let b = card_listeners(game.champion_cards@, kind);
    assert forall|i: int| 0 <= i < listeners(game, kind).len() implies game.valid_id(
        (#[trigger] listeners(game, kind)[i]).scope.spec_card_id(),
    ) by {
        if i < a.len() {
            assert(listeners(game, kind)[i] == a[i]);
        } else {
            assert(listeners(game, kind)[i] == b[i - a.len()]);
        }
    }
}

/// The requirement of `listener` holds in `game` for an event about
/// `subject`.
pub open spec fn listener_fires(game: GameState, listener: Listener, subject: EventSubject) -> bool {
    spec_requirement_met(game, listener.scope, listener.delegate.requirement, subject)
}

/// `after` is `before` once `listener` acted on an event about `subject`:
/// its mutation was carried out if its requirement held, and nothing
/// changed otherwise.
pub open spec fn listener_acted(
    before: GameState,
    after: GameState,
    listener: Listener,
    subject: EventSubject,
) -> bool {
    if listener_fires(before, listener, subject) {
        effect_done(before, after, listener.scope, listener.delegate.mutation)
    } else {
        after == before
    }
}

/// `listener` fails on an event about `subject` in `game`: its requirement
/// holds and its mutation cannot be carried out.
pub open spec fn listener_fails(game: GameState, listener: Listener, subject: EventSubject) -> bool {
    &&& listener_fires(game, listener, subject)
    &&& effect_fails(game, listener.scope, listener.delegate.mutation)
}

/// `states` are the games that the listeners `ls` leave, one after the
/// other, from `states[0]`, for an event about `subject`.
pub open spec fn is_dispatch_run(
    states: Seq<GameState>,
    ls: Seq<Listener>,
    subject: EventSubject,
) -> bool {
    &&& states.len() == ls.len() + 1
    &&& forall|i: int|
        #![trigger states[i]]
        0 <= i < ls.len() ==> listener_acted(states[i], states[i + 1], ls[i], subject)
}

/// `after` is `before` once the event of `kind` about `subject` was
/// dispatched: every listener for it in `before` acted in turn.
pub open spec fn event_dispatched(
    before: GameState,
    after: GameState,
    kind: EventKind,
    subject: EventSubject,
) -> bool {
    exists|states: Seq<GameState>|
        #[trigger] is_dispatch_run(states, listeners(before, kind), subject) && states[0] == before
            && states.last() == after
}

/// Dispatching the event of `kind` about `subject` in `game` fails: after the
/// listeners before it acted, one listener fails.
pub open spec fn dispatch_fails(game: GameState, kind: EventKind, subject: EventSubject) -> bool {
    let ls = listeners(game, kind);
    exists|states: Seq<GameState>|
        #[trigger] is_dispatch_run(states, ls.take(states.len() - 1), subject) && states.len()
            <= ls.len() && states[0] == game && listener_fails(
            states.last(),
            ls[states.len() - 1],
            subject,
        )
}

/// Dispatches the event of `kind` about `subject`: each listener for it, in
/// the order of [event_listeners], carries out its mutation when its
/// requirement holds in the game that the listeners before it left. Stops at
/// the first mutation that fails.
pub fn fire_event(game: &mut GameState, kind: EventKind, subject: EventSubject) -> (r: Result<
    (),
    GameError,
>)
    requires
        old(game).wf(),
    ensures
        final(game).wf(),
        r is Ok ==> event_dispatched(*old(game), *final(game), kind, subject),
        r is Err ==> dispatch_fails(*old(game), kind, subject),
        r is Ok ==> final(game).play_card == old(game).play_card,
        r is Ok ==> raid_kept_or_ended(*old(game), *final(game)),
        r is Ok ==> final(game).overlord_cards@.len() == old(game).overlord_cards@.len(),
        r is Ok ==> final(game).champion_cards@.len() == old(game).champion_cards@.len(),
{
    let ls = event_listeners(game, kind);
    proof {
        lemma_listeners_in_game(*game, kind);
    }
    let ghost mut states: Seq<GameState> = seq![*game];
    let mut i: usize = 0;
    while i < ls.len()
        invariant
            i <= ls.len(),
            ls@ == listeners(*old(game), kind),
            game.wf(),
            game.overlord_cards@.len() == old(game).overlord_cards@.len(),
            game.champion_cards@.len() == old(game).champion_cards@.len(),
            game.play_card == old(game).play_card,
            raid_kept_or_ended(*old(game), *game),
            forall|j: int|
                0 <= j < ls.len() ==> old(game).valid_id((#[trigger] ls@[j]).scope.spec_card_id()),
            is_dispatch_run(states, ls@.take(i as int), subject),
            states[0] == *old(game),
            states.last() == *game,
        decreases ls.len() - i,
    {
        let listener = ls[i];
        assert(old(game).valid_id(ls@[i as int].scope.spec_card_id()));
        let ghost before = *game;
        if requirement_met(game, listener.scope, listener.delegate.requirement, subject) {
            match carry_out_effect(game, listener.scope, listener.delegate.mutation) {
                Ok(()) => {},
                Err(e) => {
                    proof {
                        assert(ls@.take(i as int) == ls@.take(states.len() - 1));
                        assert(listener_fails(states.last(), ls@[states.len() - 1], subject));
                        assert(dispatch_fails(*old(game), kind, subject));
                    }
                    return Err(e);
                },
            }
        }
        proof {
            assert(listener_acted(before, *game, ls@[i as int], subject));
            let s2 = states.push(*game);
            let t2 = ls@.take(i + 1);
            assert forall|j: int| #![trigger s2[j]] 0 <= j < t2.len() implies listener_acted(
                s2[j],
                s2[j + 1],
                t2[j],
                subject,
            ) by {
                if j < i {
                    assert(s2[j] == states[j]);
                    assert(s2[j + 1] == states[j + 1]);
                    assert(t2[j] == ls@.take(i as int)[j]);
                    assert(listener_acted(states[j], states[j + 1], ls@.take(i as int)[j], subject));
                } else {
                    assert(s2[j] == before);
                }
            }
            states = s2;
        }
        i = i + 1;
    }
    proof {
        assert(ls@.take(i as int) =~= ls@);
    }
    Ok(())
}

/// While a draw is announced: `after` is `before` once `listener` acted on
/// an event about `subject`:
/// its mutation was carried out if its requirement held, and nothing
/// changed otherwise.
pub open spec fn listener_acted_nested(
    before: GameState,
    after: GameState,
    listener: Listener,
    subject: EventSubject,
) -> bool {
    if listener_fires(before, listener, subject) {
        mutation_applied(before, after, listener.scope, listener.delegate.mutation)
    } else {
        after == before
    }
}

/// While a draw is announced: `listener` fails on an event about `subject`
/// in `game`: its requirement
/// holds and its mutation cannot be carried out.
pub open spec fn listener_fails_nested(game: GameState, listener: Listener, subject: EventSubject) -> bool {
    &&& listener_fires(game, listener, subject)
    &&& !mutation_fits(game, listener.scope, listener.delegate.mutation)
}

/// While a draw is announced: `states` are the games that the listeners
/// `ls` leave, one after the
/// other, from `states[0]`, for an event about `subject`.
pub open spec fn is_nested_run(
    states: Seq<GameState>,
    ls: Seq<Listener>,
    subject: EventSubject,
) -> bool {
    &&& states.len() == ls.len() + 1
    &&& forall|i: int|
        #![trigger states[i]]
        0 <= i < ls.len() ==> listener_acted_nested(states[i], states[i + 1], ls[i], subject)
}

/// While a draw is announced: `after` is `before` once the event of `kind`
/// about `subject` was dispatched: every listener for it in `before` acted in turn.
pub open spec fn nested_event_dispatched(
    before: GameState,
    after: GameState,
    kind: EventKind,
    subject: EventSubject,
) -> bool {
    exists|states: Seq<GameState>|
        #[trigger] is_nested_run(states, listeners(before, kind), subject) && states[0] == before
            && states.last() == after
}

/// While a draw is announced: dispatching the event of `kind` about
/// `subject` in `game` fails: after the
/// listeners before it acted, one listener fails.
pub open spec fn nested_dispatch_fails(game: GameState, kind: EventKind, subject: EventSubject) -> bool {
    let ls = listeners(game, kind);
    exists|states: Seq<GameState>|
        #[trigger] is_nested_run(states, ls.take(states.len() - 1), subject) && states.len()
            <= ls.len() && states[0] == game && listener_fails_nested(
            states.last(),
            ls[states.len() - 1],
            subject,
        )
}

/// Dispatches the event of `kind` about `subject` while a draw is being
/// announced: as [fire_event], but a listener which would draw cards fails,
/// as the draw announced is not finished.
pub fn fire_nested_event(game: &mut GameState, kind: EventKind, subject: EventSubject) -> (r: Result<
    (),
    GameError,
>)
    requires
        old(game).wf(),
    ensures
        final(game).wf(),
        r is Ok ==> nested_event_dispatched(*old(game), *final(game), kind, subject),
        r is Err ==> nested_dispatch_fails(*old(game), kind, subject),
        r is Ok ==> final(game).play_card == old(game).play_card,
        r is Ok ==> raid_kept_or_ended(*old(game), *final(game)),
        r is Ok ==> final(game).overlord_cards@.len() == old(game).overlord_cards@.len(),
        r is Ok ==> final(game).champion_cards@.len() == old(game).champion_cards@.len(),
{
    let ls = event_listeners(game, kind);
    proof {
        lemma_listeners_in_game(*game, kind);
    }
    let ghost mut states: Seq<GameState> = seq![*game];
    let mut i: usize = 0;
    while i < ls.len()
        invariant
            i <= ls.len(),
            ls@ == listeners(*old(game), kind),
            game.wf(),
            game.overlord_cards@.len() == old(game).overlord_cards@.len(),
            game.champion_cards@.len() == old(game).champion_cards@.len(),
            game.play_card == old(game).play_card,
            raid_kept_or_ended(*old(game), *game),
            forall|j: int|
                0 <= j < ls.len() ==> old(game).valid_id((#[trigger] ls@[j]).scope.spec_card_id()),
            is_nested_run(states, ls@.take(i as int), subject),
            states[0] == *old(game),
            states.last() == *game,
        decreases ls.len() - i,
    {
        let listener = ls[i];
        assert(old(game).valid_id(ls@[i as int].scope.spec_card_id()));
        let ghost before = *game;
        if requirement_met(game, listener.scope, listener.delegate.requirement, subject) {
            match apply_mutation(game, listener.scope, listener.delegate.mutation) {
                Ok(()) => {},
                Err(e) => {
                    proof {
                        assert(ls@.take(i as int) == ls@.take(states.len() - 1));
                        assert(listener_fails_nested(states.last(), ls@[states.len() - 1], subject));
                        assert(nested_dispatch_fails(*old(game), kind, subject));
                    }
                    return Err(e);
                },
            }
        }
        proof {
            assert(listener_acted_nested(before, *game, ls@[i as int], subject));
            let s2 = states.push(*game);
            let t2 = ls@.take(i + 1);
            assert forall|j: int| #![trigger s2[j]] 0 <= j < t2.len() implies listener_acted_nested(
                s2[j],
                s2[j + 1],
                t2[j],
                subject,
            ) by {
                if j < i {
                    assert(s2[j] == states[j]);
                    assert(s2[j + 1] == states[j + 1]);
                    assert(t2[j] == ls@.take(i as int)[j]);
                    assert(listener_acted_nested(states[j], states[j + 1], ls@.take(i as int)[j], subject));
                } else {
                    assert(s2[j] == before);
                }
            }
            states = s2;
        }
        i = i + 1;
    }
    proof {
        assert(ls@.take(i as int) =~= ls@);
    }
    Ok(())
}

/// A delegate of `delegates` that listens for `kind` is among their
/// listeners.
proof fn lemma_delegate_listed(
    ability_id: AbilityId,
    delegates: Seq<Delegate>,
    kind: EventKind,
    d: int,
)
    requires
        0 <= d < delegates.len(),
        listening(delegates[d], kind) is Some,
    ensures
        delegate_listeners(ability_id, delegates, kind).contains(
            Listener { scope: Scope { ability_id }, delegate: listening(delegates[d], kind)->0 },
        ),
    decreases delegates.len(),
{
    let x = Listener { scope: Scope { ability_id }, delegate: listening(delegates[d], kind)->0 };
    let rest = delegates.drop_last();
    let before = delegate_listeners(ability_id, rest, kind);
    let all = delegate_listeners(ability_id, delegates, kind);
    if d == delegates.len() - 1 {
        assert(all[all.len() - 1] == x);
    } else {
        assert(rest[d] == delegates[d]);
        lemma_delegate_listed(ability_id, rest, kind, d);
        let k = choose|k: int| 0 <= k < before.len() && before[k] == x;
        assert(all[k] == x);
    }
}

/// A delegate of the ability at `a` of `abilities` that listens for `kind`
/// is among their listeners.
proof fn lemma_ability_delegate_listed(
    card_id: CardId,
    abilities: Seq<Ability>,
    kind: EventKind,
    a: int,
    d: int,
)
    requires
        0 <= a < abilities.len(),
        0 <= d < abilities[a].delegates@.len(),
        listening(abilities[a].delegates@[d], kind) is Some,
    ensures
        ability_listeners(card_id, abilities, kind).contains(
            Listener {
                scope: Scope { ability_id: AbilityId { card_id, index: a as usize } },
                delegate: listening(abilities[a].delegates@[d], kind)->0,
            },
        ),
    decreases abilities.len(),
{
    let x = Listener {
        scope: Scope { ability_id: AbilityId { card_id, index: a as usize } },
        delegate: listening(abilities[a].delegates@[d], kind)->0,
    };
    let rest = abilities.drop_last();
    let n = (abilities.len() - 1) as int;
    let first = ability_listeners(card_id, rest, kind);
    let last = delegate_listeners(
        AbilityId { card_id, index: n as usize },
        abilities.last().delegates@,
        kind,
    );
    let all = ability_listeners(card_id, abilities, kind);
    assert(all == first + last);
    if a == n {
        lemma_delegate_listed(
            AbilityId { card_id, index: n as usize },
            abilities.last().delegates@,
            kind,
            d,
        );
        let k = choose|k: int| 0 <= k < last.len() && last[k] == x;
        assert(all[first.len() + k] == x);
    } else {
        assert(rest[a] == abilities[a]);
        lemma_ability_delegate_listed(card_id, rest, kind, a, d);
        let k = choose|k: int| 0 <= k < first.len() && first[k] == x;
        assert(all[k] == x);
    }
}

/// A delegate of the card at `c` of `cards` that listens for `kind` is among
/// their listeners.
proof fn lemma_card_delegate_listed(cards: Seq<CardState>, kind: EventKind, c: int, a: int, d: int)
    requires
        0 <= c < cards.len(),
        0 <= a < cards[c].definition.abilities@.len(),
        0 <= d < cards[c].definition.abilities@[a].delegates@.len(),
        listening(cards[c].definition.abilities@[a].delegates@[d], kind) is Some,
    ensures
        card_listeners(cards, kind).contains(
            Listener {
                scope: Scope { ability_id: AbilityId { card_id: cards[c].id, index: a as usize } },
                delegate: listening(cards[c].definition.abilities@[a].delegates@[d], kind)->0,
            },
        ),
    decreases cards.len(),
{
    let x = Listener {
        scope: Scope { ability_id: AbilityId { card_id: cards[c].id, index: a as usize } },
        delegate: listening(cards[c].definition.abilities@[a].delegates@[d], kind)->0,
    };
    let rest = cards.drop_last();
    let first = card_listeners(rest, kind);
    let last = ability_listeners(cards.last().id, cards.last().definition.abilities@, kind);
    let all = card_listeners(cards, kind);
    assert(all == first + last);
    if c == cards.len() - 1 {
        lemma_ability_delegate_listed(
            cards.last().id,
            cards.last().definition.abilities@,
            kind,
            a,
            d,
        );
        let k = choose|k: int| 0 <= k < last.len() && last[k] == x;
        assert(all[first.len() + k] == x);
    } else {
        assert(rest[c] == cards[c]);
        lemma_card_delegate_listed(rest, kind, c, a, d);
        let k = choose|k: int| 0 <= k < first.len() && first[k] == x;
        assert(all[k] == x);
    }
}

/// Every delegate of every ability of every card of a game that listens for
/// events of `kind` is a listener for them, with the ability it belongs to:
/// each such delegate acts when an event of `kind` is dispatched.
pub proof fn lemma_card_delegate_listens(
    game: GameState,
    kind: EventKind,
    card_id: CardId,
    ability_index: usize,
    delegate_index: int,
)
    requires
        game.wf(),
        game.valid_id(card_id),
        ability_index < game.card_state(card_id).definition.abilities@.len(),
        0 <= delegate_index
            < game.card_state(card_id).definition.abilities@[ability_index as int].delegates@.len(),
        listening(
            game.card_state(card_id).definition.abilities@[ability_index as int].delegates@[delegate_index],
            kind,
        ) is Some,
    ensures
        listeners(game, kind).contains(
            Listener {
                scope: Scope { ability_id: AbilityId { card_id, index: ability_index } },
                delegate: listening(
                    game.card_state(card_id).definition.abilities@[ability_index as int].delegates@[delegate_index],
                    kind,
                )->0,
            },
        ),
{
    let a = card_listeners(game.overlord_cards@, kind);
    let b = card_listeners(game.champion_cards@, kind);
    let all = listeners(game, kind);
    let x = Listener {
        scope: Scope { ability_id: AbilityId { card_id, index: ability_index } },
        delegate: listening(
            game.card_state(card_id).definition.abilities@[ability_index as int].delegates@[delegate_index],
            kind,
        )->0,
    };
    match card_id.side {
        Side::Overlord => {
            assert(game.overlord_cards@[card_id.index as int].id == card_id);
            lemma_card_delegate_listed(
                game.overlord_cards@,
                kind,
                card_id.index as int,
                ability_index as int,
                delegate_index,
            );
            let k = choose|k: int| 0 <= k < a.len() && a[k] == x;
            assert(all[k] == x);
        },
        Side::Champion => {
            assert(game.champion_cards@[card_id.index as int].id == card_id);
            lemma_card_delegate_listed(
                game.champion_cards@,
                kind,
                card_id.index as int,
                ability_index as int,
                delegate_index,
            );
            let k = choose|k: int| 0 <= k < b.len() && b[k] == x;
            assert(all[a.len() + k] == x);
        },
    }
}

/// An event for which no ability listens changes nothing when dispatched.
pub proof fn lemma_unheard_event_changes_nothing(
    before: GameState,
    after: GameState,
    kind: EventKind,
    subject: EventSubject,
)
    requires
        listeners(before, kind).len() == 0,
        event_dispatched(before, after, kind, subject),
    ensures
        after == before,
{
    let states = choose|states: Seq<GameState>|
        #[trigger] is_dispatch_run(states, listeners(before, kind), subject) && states[0] == before
            && states.last() == after;
    assert(states.len() == 1);
}

/// An event for which one ability listens does, when dispatched, what that
/// listener does: its mutation when its requirement holds, nothing
/// otherwise.
pub proof fn lemma_single_listener_acts(
    before: GameState,
    after: GameState,
    kind: EventKind,
    subject: EventSubject,
)
    requires
        listeners(before, kind).len() == 1,
        event_dispatched(before, after, kind, subject),
    ensures
        listener_acted(before, after, listeners(before, kind)[0], subject),
{
    let states = choose|states: Seq<GameState>|
        #[trigger] is_dispatch_run(states, listeners(before, kind), subject) && states[0] == before
            && states.last() == after;
    assert(states.len() == 2);
    assert(listener_acted(states[0], states[1], listeners(before, kind)[0], subject));
}

/// An event for which two abilities listen does, when dispatched, what the
/// first listener does and then what the second does on the game the first
/// left.
pub proof fn lemma_two_listeners_act(
    before: GameState,
    after: GameState,
    kind: EventKind,
    subject: EventSubject,
)
    requires
        listeners(before, kind).len() == 2,
        event_dispatched(before, after, kind, subject),
    ensures
        exists|mid: GameState|
            #[trigger] listener_acted(before, mid, listeners(before, kind)[0], subject)
                && listener_acted(mid, after, listeners(before, kind)[1], subject),
{
    let states = choose|states: Seq<GameState>|
        #[trigger] is_dispatch_run(states, listeners(before, kind), subject) && states[0] == before
            && states.last() == after;
    assert(states.len() == 3);
    assert(listener_acted(states[0], states[1], listeners(before, kind)[0], subject));
    assert(listener_acted(states[1], states[2], listeners(before, kind)[1], subject));
}

/// `recorded` is `game` with `event` recorded in its events.
pub open spec fn event_recorded(game: GameState, recorded: GameState, event: GameEvent) -> bool {
    &&& recorded.events@ == game.events@.push(event)
    &&& recorded == (GameState { events: recorded.events, ..game })
}

/// `after` is `before` once `event` was recorded and then dispatched, as an
/// event of `kind` about `subject`.
pub open spec fn recorded_and_dispatched(
    before: GameState,
    after: GameState,
    event: GameEvent,
    kind: EventKind,
    subject: EventSubject,
) -> bool {
    exists|recorded: GameState|
        #[trigger] event_dispatched(recorded, after, kind, subject) && event_recorded(
            before,
            recorded,
            event,
        )
}

/// Once `event` is recorded in `game`, dispatching it, as an event of
/// `kind` about `subject`, fails.
pub open spec fn recorded_dispatch_fails(
    game: GameState,
    event: GameEvent,
    kind: EventKind,
    subject: EventSubject,
) -> bool {
    exists|recorded: GameState|
        #[trigger] dispatch_fails(recorded, kind, subject) && event_recorded(game, recorded, event)
}

/// Records `event` in the game's events and dispatches it, as an event of
/// `kind` about `subject`, to the abilities which respond to it.
pub fn record_and_fire(
    game: &mut GameState,
    event: GameEvent,
    kind: EventKind,
    subject: EventSubject,
) -> (r: Result<(), GameError>)
    requires
        old(game).wf(),
    ensures
        final(game).wf(),
        r is Ok ==> recorded_and_dispatched(*old(game), *final(game), event, kind, subject),
        r is Err ==> recorded_dispatch_fails(*old(game), event, kind, subject),
        r is Ok ==> final(game).play_card == old(game).play_card,
        r is Ok ==> final(game).overlord_cards@.len() == old(game).overlord_cards@.len(),
        r is Ok ==> final(game).champion_cards@.len() == old(game).champion_cards@.len(),
        r is Ok ==> raid_kept_or_ended(*old(game), *final(game)),
{
    game.invoke_event(event);
    let ghost recorded = *game;
    assert(event_recorded(*old(game), recorded, event));
    fire_event(game, kind, subject)
}

/// While a draw is announced, an event for which one ability listens does,
/// when dispatched, what that listener does.
pub proof fn lemma_single_nested_listener_acts(
    before: GameState,
    after: GameState,
    kind: EventKind,
    subject: EventSubject,
)
    requires
        listeners(before, kind).len() == 1,
        nested_event_dispatched(before, after, kind, subject),
    ensures
        listener_acted_nested(before, after, listeners(before, kind)[0], subject),
{
    let states = choose|states: Seq<GameState>|
        #[trigger] is_nested_run(states, listeners(before, kind), subject) && states[0] == before
            && states.last() == after;
    assert(states.len() == 2);
    assert(listener_acted_nested(states[0], states[1], listeners(before, kind)[0], subject));
}

/// `after` is `game` once the raid `raid_id` was closed with `outcome`: its
/// end is recorded and the game has no raid.
pub open spec fn raid_closed(game: GameState, after: GameState, raid_id: RaidId, outcome: RaidOutcome) -> bool {
    &&& after.info == (GameInfo { raid: None, ..game.info })
    &&& after.events@ == game.events@.push(GameEvent::RaidEnd(raid_id, outcome))
    &&& after == (GameState { info: after.info, events: after.events, ..game })
}

/// `won` is `before` once the success of the raid `raid_id` was dispatched,
/// when `outcome` is a success; `before` itself otherwise.
pub open spec fn raid_won(before: GameState, won: GameState, raid_id: RaidId, outcome: RaidOutcome) -> bool {
    if outcome == RaidOutcome::Success {
        event_dispatched(before, won, EventKind::RaidSuccess, EventSubject::Raid(raid_id))
    } else {
        won == before
    }
}

/// `after` is `before` once its raid ended with `outcome`: the success, if
/// it was one, then the end of the raid were dispatched to the abilities
/// which respond to them, and the raid was closed.
pub open spec fn raid_end_dispatched(before: GameState, after: GameState, outcome: RaidOutcome) -> bool {
    let id = before.info.raid->0.raid_id;
    exists|won: GameState, ended: GameState|
        #![trigger raid_won(before, won, id, outcome), event_dispatched(won, ended, EventKind::RaidEnd, EventSubject::Raid(id))]
        raid_won(before, won, id, outcome) && event_dispatched(
            won,
            ended,
            EventKind::RaidEnd,
            EventSubject::Raid(id),
        ) && raid_closed(ended, after, id, outcome)
}

/// Ending the raid of `game` with `outcome` fails: dispatching its success
/// or, after that, its end fails.
pub open spec fn raid_end_fails(game: GameState, outcome: RaidOutcome) -> bool {
    let id = game.info.raid->0.raid_id;
    ||| outcome == RaidOutcome::Success && dispatch_fails(
        game,
        EventKind::RaidSuccess,
        EventSubject::Raid(id),
    )
    ||| exists|won: GameState|
        #[trigger] raid_won(game, won, id, outcome) && dispatch_fails(
            won,
            EventKind::RaidEnd,
            EventSubject::Raid(id),
        )
}

/// Ends the raid with `outcome`: its success, if it is one, and then its
/// end are dispatched to the abilities which respond to them, and the raid
/// is closed. Fails, changing nothing, when there is no raid.
pub fn end_raid_announced(game: &mut GameState, outcome: RaidOutcome) -> (r: Result<(), GameError>)
    requires
        old(game).wf(),
    ensures
        final(game).wf(),
        old(game).info.raid is None ==> r == Err::<(), GameError>(GameError::NoActiveRaid)
            && *final(game) == *old(game),
        r is Ok ==> old(game).info.raid is Some && raid_end_dispatched(
            *old(game),
            *final(game),
            outcome,
        ),
        r is Ok ==> final(game).play_card == old(game).play_card,
        r is Ok ==> final(game).info.raid is None,
        r is Ok ==> final(game).overlord_cards@.len() == old(game).overlord_cards@.len(),
        r is Ok ==> final(game).champion_cards@.len() == old(game).champion_cards@.len(),
        r is Err && old(game).info.raid is Some ==> raid_end_fails(*old(game), outcome),
{
    let raid_id = match &game.info.raid {
        Some(raid) => raid.raid_id,
        None => {
            return Err(GameError::NoActiveRaid);
        },
    };
    if outcome == RaidOutcome::Success {
        match fire_event(game, EventKind::RaidSuccess, EventSubject::Raid(raid_id)) {
            Ok(()) => {},
            Err(e) => {
                return Err(e);
            },
        }
    }
    let ghost won = *game;
    assert(raid_won(*old(game), won, raid_id, outcome));
    match fire_event(game, EventKind::RaidEnd, EventSubject::Raid(raid_id)) {
        Ok(()) => {},
        Err(e) => {
            return Err(e);
        },
    }
    let ghost ended = *game;
    game.close_raid(raid_id, outcome);
    assert(raid_closed(ended, *game, raid_id, outcome));
    Ok(())
}

/// While an event is dispatched: `won` is `before` once the success of the raid `raid_id` was dispatched,
/// when `outcome` is a success; `before` itself otherwise.
pub open spec fn raid_won_nested(before: GameState, won: GameState, raid_id: RaidId, outcome: RaidOutcome) -> bool {
    if outcome == RaidOutcome::Success {
        nested_event_dispatched(before, won, EventKind::RaidSuccess, EventSubject::Raid(raid_id))
    } else {
        won == before
    }
}

/// While an event is dispatched: `after` is `before` once its raid ended
/// with `outcome`: the success, if
/// it was one, then the end of the raid were dispatched to the abilities
/// which respond to them, and the raid was closed.
pub open spec fn raid_end_dispatched_nested(before: GameState, after: GameState, outcome: RaidOutcome) -> bool {
    let id = before.info.raid->0.raid_id;
    exists|won: GameState, ended: GameState|
        #![trigger raid_won_nested(before, won, id, outcome), nested_event_dispatched(won, ended, EventKind::RaidEnd, EventSubject::Raid(id))]
        raid_won_nested(before, won, id, outcome) && nested_event_dispatched(
            won,
            ended,
            EventKind::RaidEnd,
            EventSubject::Raid(id),
        ) && raid_closed(ended, after, id, outcome)
}

/// While an event is dispatched: ending the raid of `game` with `outcome`
/// fails: dispatching its success
/// or, after that, its end fails.
pub open spec fn raid_end_fails_nested(game: GameState, outcome: RaidOutcome) -> bool {
    let id = game.info.raid->0.raid_id;
    ||| outcome == RaidOutcome::Success && nested_dispatch_fails(
        game,
        EventKind::RaidSuccess,
        EventSubject::Raid(id),
    )
    ||| exists|won: GameState|
        #[trigger] raid_won_nested(game, won, id, outcome) && nested_dispatch_fails(
            won,
            EventKind::RaidEnd,
            EventSubject::Raid(id),
        )
}

/// Ends the raid with `outcome` while an event is dispatched, as the effect
/// of an ability: its success, if it is one, and then its end are
/// dispatched as nested events to the abilities which respond to them, and the raid
/// is closed. Fails, changing nothing, when there is no raid.
pub fn end_raid_announced_nested(game: &mut GameState, outcome: RaidOutcome) -> (r: Result<(), GameError>)
    requires
        old(game).wf(),
    ensures
        final(game).wf(),
        old(game).info.raid is None ==> r == Err::<(), GameError>(GameError::NoActiveRaid)
            && *final(game) == *old(game),
        r is Ok ==> old(game).info.raid is Some && raid_end_dispatched_nested(
            *old(game),
            *final(game),
            outcome,
        ),
        r is Ok ==> final(game).play_card == old(game).play_card,
        r is Ok ==> final(game).info.raid is None,
        r is Ok ==> final(game).overlord_cards@.len() == old(game).overlord_cards@.len(),
        r is Ok ==> final(game).champion_cards@.len() == old(game).champion_cards@.len(),
        r is Err && old(game).info.raid is Some ==> raid_end_fails_nested(*old(game), outcome),
{
    let raid_id = match &game.info.raid {
        Some(raid) => raid.raid_id,
        None => {
            return Err(GameError::NoActiveRaid);
        },
    };
    if outcome == RaidOutcome::Success {
        match fire_nested_event(game, EventKind::RaidSuccess, EventSubject::Raid(raid_id)) {
            Ok(()) => {},
            Err(e) => {
                return Err(e);
            },
        }
    }
    let ghost won = *game;
    assert(raid_won_nested(*old(game), won, raid_id, outcome));
    match fire_nested_event(game, EventKind::RaidEnd, EventSubject::Raid(raid_id)) {
        Ok(()) => {},
        Err(e) => {
            return Err(e);
        },
    }
    let ghost ended = *game;
    game.close_raid(raid_id, outcome);
    assert(raid_closed(ended, *game, raid_id, outcome));
    Ok(())
}

} // verus!
