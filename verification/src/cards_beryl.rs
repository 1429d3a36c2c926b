//! Cards of the Beryl set, and the rules behind their abilities.

use vstd::prelude::*;

use crate::card_definition::{
    Ability, AbilityText, AbilityType, BasicAction, CardConfig, CardDefinition, CardStats, Cost,
    CustomCost, Delegate, EventDelegate, EventSubject, Flag, Keyword, NumericOperator, Mutation,
    QueryDelegate, Requirement, Scope, TargetRequirement, TextToken, Transformation,
};
use crate::card_helpers::abilities::{is_literal, tokens};
use crate::dispatch::{
    event_dispatched, lemma_single_listener_acts, lemma_two_listeners_act, listener_acted,
    listeners, EventKind, Listener,
};
use crate::draws::{draw_run, draw_run_fails, draw_with_limits};
use crate::flags::{answerers, flag_answer, Answerer, QueryKind};
use crate::error::GameError;
use crate::game_actions::{
    BrowserPromptAction, BrowserPromptTarget, BrowserPromptValidation, ButtonPrompt,
    CardBrowserPrompt, CardPromptAction, GamePrompt, PromptAction, PromptContext,
};
pub use crate::game_state::{DrawCardsState, HistoryCounters};
use crate::game_state::{CardPosition, GameInfo, GameState, PlayerState};
use crate::game_updates::{GameUpdate, SpecialEffect, TimedEffect};
use crate::mutations::{
    damage_dealt, damage_fits, deal_damage, draw_cards, draw_fits, spec_requirement_met,
};
use crate::primitives::{
    AbilityId, CardId, CardName, CardSubtype, CardType, GameObjectId, ManaValue, Rarity, School, Side,
};
use crate::queries::{card_list, selected_cards, CardFilter};

verus! {

broadcast use vstd::string::group_string_axioms;

/// Facts about the copy of a card being defined.
#[derive(Debug, Clone, Copy, PartialEq, Eq, Structural)]
pub struct CardMetadata {
    pub is_upgraded: bool,
}

impl CardMetadata {
    /// `normal`, or `upgraded` for an upgraded card.
    pub fn upgrade(&self, normal: u32, upgraded: u32) -> (r: u32)
        ensures
            r == if self.is_upgraded {
                upgraded
            } else {
                normal
            },
    {
        if self.is_upgraded {
            upgraded
        } else {
            normal
        }
    }
}

/// A card costing `mana` and one action point to play.
fn mana_cost(mana: ManaValue) -> (r: Cost)
    ensures
        r == (Cost { mana: Some(mana), actions: 1, custom_cost: None }),
{
    Cost { mana: Some(mana), actions: 1, custom_cost: None }
}

/// Stats with only a raze cost.
fn raze_config(raze_cost: ManaValue) -> (r: CardConfig)
    ensures
        r == (CardConfig {
            stats: CardStats {
                base_attack: None,
                attack_boost: None,
                health: None,
                shield: None,
                raze_cost: Some(raze_cost),
                scheme_points: None,
            },
            faction: None,
        }),
{
    CardConfig {
        stats: CardStats {
            base_attack: None,
            attack_boost: None,
            health: None,
            shield: None,
            raze_cost: Some(raze_cost),
            scheme_points: None,
        },
        faction: None,
    }
}

/// `after` is `before` with the client told, when it tracks updates, that
/// the ability of `scope` fired, shown with `circles` magic circles on its
/// card.
pub open spec fn ability_alert_shown(before: GameState, after: GameState, scope: Scope, circles: u32) -> bool {
    &&& before.updates.state == crate::game_updates::UpdateState::Push ==> {
        &&& after.updates.steps@.len() == before.updates.steps@.len() + 1
        &&& after.updates.steps@.drop_last() == before.updates.steps@
        &&& (after.updates.steps@.last().update matches GameUpdate::AbilityTriggered(id, effects)
            && id == scope.ability_id && effects@ == seq![
            SpecialEffect::TimedEffect {
                target: GameObjectId::CardId(scope.ability_id.card_id),
                effect: TimedEffect::MagicCircles1(circles),
            },
        ])
    }
    &&& before.updates.state == crate::game_updates::UpdateState::Ignore ==> after.updates
        == before.updates
    &&& after.updates.state == before.updates.state
}

/// Records for the client that the ability of `scope` fired.
fn show_ability_alert(game: &mut GameState, scope: Scope, circles: u32)
    requires
        old(game).wf(),
    ensures
        final(game).wf(),
        ability_alert_shown(*old(game), *final(game), scope, circles),
        *final(game) == (GameState { updates: final(game).updates, ..*old(game) }),
{
    let mut effects: Vec<SpecialEffect> = Vec::new();
    effects.push(
        SpecialEffect::TimedEffect {
            target: GameObjectId::CardId(scope.card_id()),
            effect: TimedEffect::MagicCircles1(circles),
        },
    );
    game.record_update(GameUpdate::AbilityTriggered(scope.ability_id, effects));
}

/// The number of cards that the Champion may still draw this turn, having
/// drawn `drawn` with at most `limit` allowed, applied to a draw of
/// `quantity` cards.
pub open spec fn limited_quantity(limit: u32, drawn: u32, quantity: u32) -> u32 {
    let left: u32 = if drawn < limit {
        (limit - drawn) as u32
    } else {
        0
    };
    if left < quantity {
        left
    } else {
        quantity
    }
}

/// Under Magistrate's Thronehall the Champion draws no more than `limit`
/// cards in a turn: a draw is never made larger, and what they drew before
/// it and what it now draws together stay within the limit.
pub proof fn lemma_draw_limit_holds(limit: u32, drawn: u32, quantity: u32)
    ensures
        limited_quantity(limit, drawn, quantity) <= quantity,
        drawn <= limit ==> drawn + limited_quantity(limit, drawn, quantity) <= limit,
        drawn >= limit ==> limited_quantity(limit, drawn, quantity) == 0,
{
}

/// `after` is `before` once the Champion's draw under way, the last of the
/// game's draws, was cut so that they draw at most `limit` cards this turn;
/// the client is shown the ability of `scope` only when the draw shrank.
pub open spec fn draws_limited(before: GameState, after: GameState, scope: Scope, limit: u32) -> bool {
    let draws = before.info.draws@;
    let last = draws.last();
    let quantity = if last.side == Side::Champion {
        limited_quantity(limit, before.champion.counters.cards_drawn, last.quantity)
    } else {
        last.quantity
    };
    &&& after.info.draws@ == draws.update(
        draws.len() - 1,
        DrawCardsState { quantity, ..last },
    )
    &&& after == (GameState {
        info: GameInfo { draws: after.info.draws, ..before.info },
        updates: after.updates,
        ..before
    })
    &&& quantity == last.quantity ==> after.updates == before.updates
    &&& quantity < last.quantity ==> ability_alert_shown(before, after, scope, 6)
}

/// Cuts the Champion's draw under way short, so that they draw at most
/// `limit` cards this turn, and shows the ability of `scope` when it did.
/// Fails, changing nothing, when no draw is under way.
pub fn limit_draw_under_way(game: &mut GameState, scope: Scope, limit: u32) -> (r: Result<
    (),
    GameError,
>)
    requires
        old(game).wf(),
    ensures
        final(game).wf(),
        old(game).info.draws@.len() == 0 <==> r is Err,
        r is Err ==> r == Err::<(), GameError>(GameError::NoActiveDraw) && *final(game) == *old(
            game,
        ),
        r is Ok ==> draws_limited(*old(game), *final(game), scope, limit),
{
    let n = game.info.draws.len();
    if n == 0 {
        return Err(GameError::NoActiveDraw);
    }
    let last = game.info.draws[n - 1];
    if last.side == Side::Champion {
        let left = limit.saturating_sub(game.champion.counters.cards_drawn);
        let quantity = if left < last.quantity {
            left
        } else {
            last.quantity
        };
        game.info.draws.set(n - 1, DrawCardsState { quantity, ..last });
        if quantity < last.quantity {
            show_ability_alert(game, scope, 6);
        }
    } else {
        proof {
            assert(old(game).info.draws@.update(n - 1, last) =~= old(game).info.draws@);
        }
    }
    Ok(())
}

/// `after` is `before` with the offer of the ability of `scope` added to the
/// Overlord's prompts: to shuffle up to `count` cards of their crypt into
/// their vault.
pub open spec fn vault_prompt_pushed(before: GameState, after: GameState, scope: Scope, count: usize) -> bool {
    &&& after.overlord.prompt_queue@ == before.overlord.prompt_queue@.push(
        GamePrompt::ShuffleIntoVault(scope.ability_id, count),
    )
    &&& after.only_player_changed(before, Side::Overlord)
    &&& after.overlord == (PlayerState { prompt_queue: after.overlord.prompt_queue, ..before.overlord })
}

/// Offers the Overlord, for the ability of `scope`, to shuffle up to `count`
/// cards from their crypt into their vault.
pub fn push_shuffle_into_vault_prompt(game: &mut GameState, scope: Scope, count: usize)
    requires
        old(game).wf(),
    ensures
        final(game).wf(),
        vault_prompt_pushed(*old(game), *final(game), scope, count),
{
    game.push_prompt(Side::Overlord, GamePrompt::ShuffleIntoVault(scope.ability_id, count));
}

/// `shown` is `prompt` as the player sees it in `game`: an offer to shuffle
/// cards into the vault becomes the card browser over the crypt as it is
/// now; any other prompt is shown as it is.
pub open spec fn prompt_shown_as(game: GameState, prompt: GamePrompt, shown: GamePrompt) -> bool {
    match prompt {
        GamePrompt::ShuffleIntoVault(_, count) => shown matches GamePrompt::CardBrowserPrompt(p) && {
            &&& p.context == Some(PromptContext::ShuffleIntoVault)
            &&& p.unchosen_subjects@ == selected_cards(
                game,
                Side::Overlord,
                CardFilter::InPosition(CardPosition::DiscardPile(Side::Overlord)),
            )
            &&& p.chosen_subjects@.len() == 0
            &&& p.target == BrowserPromptTarget::DeckShuffled
            &&& p.validation == BrowserPromptValidation::LessThanOrEqualTo(count)
            &&& p.action == BrowserPromptAction::ShuffleIntoDeck
        },
        _ => shown == prompt,
    }
}

/// `prompt` as the player sees it in `game`: the offer of an ability to
/// shuffle cards into the vault is built from the crypt as it is when
/// shown.
pub fn show_prompt(game: &GameState, prompt: GamePrompt) -> (r: GamePrompt)
    requires
        game.wf(),
    ensures
        prompt_shown_as(*game, prompt, r),
{
    match prompt {
        GamePrompt::ShuffleIntoVault(_, count) => {
            let subjects = card_list(
                game,
                Side::Overlord,
                CardFilter::InPosition(CardPosition::DiscardPile(Side::Overlord)),
            );
            GamePrompt::CardBrowserPrompt(
                CardBrowserPrompt {
                    context: Some(PromptContext::ShuffleIntoVault),
                    unchosen_subjects: subjects,
                    chosen_subjects: Vec::new(),
                    target: BrowserPromptTarget::DeckShuffled,
                    validation: BrowserPromptValidation::LessThanOrEqualTo(count),
                    action: BrowserPromptAction::ShuffleIntoDeck,
                },
            )
        },
        other => other,
    }
}

/// `after` is `before` once the Overlord's use of `action` was counted
/// against Haste Resonator: on its third use this turn they gained an action
/// point, and the client was shown the ability; otherwise nothing changed.
pub open spec fn third_use_rewarded(before: GameState, after: GameState, action: BasicAction) -> bool {
    if before.overlord.counters.spec_count(action) == 3 {
        after == (GameState {
            overlord: PlayerState {
                actions: (before.overlord.actions + 1) as u32,
                ..before.overlord
            },
            updates: after.updates,
            ..before
        })
    } else {
        after == before
    }
}

/// Haste Resonator: when the Overlord takes `action` for the third time in
/// a turn, as their counters count it, they gain an action point. Returns
/// whether they did; fails, changing nothing but the client updates, when
/// their action points would exceed their range.
pub fn gain_action_on_third_use(game: &mut GameState, scope: Scope, action: BasicAction) -> (r:
    Result<bool, GameError>)
    requires
        old(game).wf(),
    ensures
        final(game).wf(),
        r is Err <==> old(game).overlord.counters.spec_count(action) == 3
            && old(game).overlord.actions + 1 > u32::MAX,
        r is Err ==> *final(game) == (GameState { updates: final(game).updates, ..*old(game) }),
        r matches Ok(gained) ==> gained == (old(game).overlord.counters.spec_count(action) == 3)
            && third_use_rewarded(*old(game), *final(game), action),
{
    if game.overlord.counters.count(action) == 3 {
        show_ability_alert(game, scope, 8);
        match game.gain_action_points(Side::Overlord, 1) {
            Ok(()) => Ok(true),
            Err(e) => Err(e),
        }
    } else {
        Ok(false)
    }
}

/// `after` is `before` with a prompt added for the Champion to sacrifice the
/// card of `scope` and prevent `count` curses, or to go on.
pub open spec fn prevent_curses_prompt_pushed(
    before: GameState,
    after: GameState,
    scope: Scope,
    count: u32,
) -> bool {
    let card_id = scope.ability_id.card_id;
    &&& after.champion.prompt_queue@.len() == before.champion.prompt_queue@.len() + 1
    &&& after.champion.prompt_queue@.drop_last() == before.champion.prompt_queue@
    &&& (after.champion.prompt_queue@.last() matches GamePrompt::ButtonPrompt(p) && {
        &&& p.context == Some(PromptContext::SacrificeToPreventCurses(card_id, count))
        &&& p.responses@ == seq![
            PromptAction::CardAction(CardPromptAction::SacrificeAndPreventCurses(card_id, count)),
            PromptAction::CardAction(CardPromptAction::Continue),
        ]
    })
    &&& after.only_player_changed(before, Side::Champion)
    &&& after.champion == (PlayerState { prompt_queue: after.champion.prompt_queue, ..before.champion })
}

/// Offers the Champion to sacrifice the card of `scope` to prevent `count`
/// curses.
pub fn push_prevent_curses_prompt(game: &mut GameState, scope: Scope, count: u32)
    requires
        old(game).wf(),
    ensures
        final(game).wf(),
        prevent_curses_prompt_pushed(*old(game), *final(game), scope, count),
{
    let card_id = scope.card_id();
    let mut responses: Vec<PromptAction> = Vec::new();
    responses.push(
        PromptAction::CardAction(CardPromptAction::SacrificeAndPreventCurses(card_id, count)),
    );
    responses.push(PromptAction::CardAction(CardPromptAction::Continue));
    assert(responses@ =~= seq![
        PromptAction::CardAction(CardPromptAction::SacrificeAndPreventCurses(card_id, count)),
        PromptAction::CardAction(CardPromptAction::Continue),
    ]);
    let prompt = ButtonPrompt {
        context: Some(PromptContext::SacrificeToPreventCurses(card_id, count)),
        responses,
    };
    game.push_prompt(Side::Champion, GamePrompt::ButtonPrompt(prompt));
    assert(game.champion.prompt_queue@.drop_last() =~= old(game).champion.prompt_queue@);
}

/// `after` is `before` once the Champion lost `count` curses, or all they
/// had, with the effect of the removal shown on their character.
pub open spec fn curses_removed(before: GameState, after: GameState, count: u32) -> bool {
    &&& after.champion == (PlayerState {
        curses: if before.champion.curses < count {
            0
        } else {
            (before.champion.curses - count) as u32
        },
        ..before.champion
    })
    &&& after == (GameState { champion: after.champion, updates: after.updates, ..before })
}

/// The Champion loses `count` curses, shown on their character.
pub fn remove_curses_shown(game: &mut GameState, count: u32)
    requires
        old(game).wf(),
    ensures
        final(game).wf(),
        curses_removed(*old(game), *final(game), count),
{
    let mut effects: Vec<SpecialEffect> = Vec::new();
    effects.push(
        SpecialEffect::TimedEffect {
            target: GameObjectId::Character(Side::Champion),
            effect: TimedEffect::MagicCircles1(7),
        },
    );
    game.record_update(GameUpdate::CustomEffects(effects));
    game.remove_curses(count);
}

/// `definition` has these name, cost, type, subtypes, owner, school and
/// rarity.
pub open spec fn has_header(
    definition: CardDefinition,
    name: CardName,
    cost: Cost,
    card_type: CardType,
    subtypes: Seq<CardSubtype>,
    side: Side,
    school: School,
    rarity: Rarity,
) -> bool {
    &&& definition.name == name
    &&& definition.cost == cost
    &&& definition.card_type == card_type
    &&& definition.subtypes@ == subtypes
    &&& definition.side == side
    &&& definition.school == school
    &&& definition.rarity == rarity
}

/// A card's stats which hold only a raze cost.
pub open spec fn raze_only(raze_cost: ManaValue) -> CardConfig {
    CardConfig {
        stats: CardStats {
            base_attack: None,
            attack_boost: None,
            health: None,
            shield: None,
            raze_cost: Some(raze_cost),
            scheme_points: None,
        },
        faction: None,
    }
}

/// A literal text token.
fn literal(text: &str) -> (r: TextToken)
    ensures
        is_literal(r, text@),
{
    TextToken::Literal(text.to_owned())
}

/// An ability of `ability_type` with `text` and a single `delegate`.
fn ability_with(ability_type: AbilityType, text: Vec<TextToken>, delegate: Delegate) -> (r: Ability)
    ensures
        r.ability_type == ability_type,
        r.text == AbilityText::Text(text),
        r.delegates@ == seq![delegate],
{
    let mut delegates: Vec<Delegate> = Vec::new();
    delegates.push(delegate);
    Ability { ability_type, text: AbilityText::Text(text), delegates }
}

/// Magistrate's Thronehall: the Champion cannot draw more than 2 cards
/// during their turn.
pub fn magistrates_thronehall(meta: CardMetadata) -> (r: CardDefinition)
    ensures
        has_header(
            r,
            CardName::MagistratesThronehall,
            Cost { mana: Some(if meta.is_upgraded { 0 } else { 1 }), actions: 1, custom_cost: None },
            CardType::Project,
            seq![CardSubtype::Nightbound, CardSubtype::Dictate],
            Side::Overlord,
            School::Law,
            Rarity::Rare,
        ),
        r.abilities@.len() == 1,
        r.abilities@[0].ability_type == AbilityType::Standard,
        tokens(r.abilities@[0].text).len() == 3,
        is_literal(tokens(r.abilities@[0].text)[0], "The Riftcaller cannot draw more than"@),
        tokens(r.abilities@[0].text)[1] == TextToken::Number(NumericOperator::NoOperator, 2),
        is_literal(tokens(r.abilities@[0].text)[2], "cards during their turn"@),
        r.abilities@[0].delegates@ == seq![
            Delegate::WillDrawCards(EventDelegate { requirement: Requirement::InPlay, mutation: Mutation::LimitChampionDraws(2) }),
        ],
        r.config == raze_only(5),
{
    let mut subtypes: Vec<CardSubtype> = Vec::new();
    subtypes.push(CardSubtype::Nightbound);
    subtypes.push(CardSubtype::Dictate);
    assert(subtypes@ =~= seq![CardSubtype::Nightbound, CardSubtype::Dictate]);
    let mut text: Vec<TextToken> = Vec::new();
    text.push(literal("The Riftcaller cannot draw more than"));
    text.push(TextToken::Number(NumericOperator::NoOperator, 2));
    text.push(literal("cards during their turn"));
    let mut abilities: Vec<Ability> = Vec::new();
    abilities.push(
        ability_with(
            AbilityType::Standard,
            text,
            Delegate::WillDrawCards(
                EventDelegate::new(Requirement::InPlay, Mutation::LimitChampionDraws(2)),
            ),
        ),
    );
    CardDefinition {
        name: CardName::MagistratesThronehall,
        cost: mana_cost(meta.upgrade(1, 0)),
        card_type: CardType::Project,
        subtypes,
        side: Side::Overlord,
        school: School::Law,
        rarity: Rarity::Rare,
        abilities,
        config: raze_config(5),
    }
}

/// Living Stone: when the Champion uses a raze ability, deal 1 damage.
pub fn living_stone(meta: CardMetadata) -> (r: CardDefinition)
    ensures
        has_header(
            r,
            CardName::LivingStone,
            Cost { mana: Some(if meta.is_upgraded { 3 } else { 5 }), actions: 1, custom_cost: None },
            CardType::Project,
            seq![CardSubtype::Roombound],
            Side::Overlord,
            School::Law,
            Rarity::Common,
        ),
        r.abilities@.len() == 1,
        r.abilities@[0].ability_type == AbilityType::Standard,
        tokens(r.abilities@[0].text).len() == 5,
        is_literal(tokens(r.abilities@[0].text)[0], "When the Riftcaller uses a"@),
        tokens(r.abilities@[0].text)[1] == TextToken::Keyword(Keyword::RazeAbility),
        is_literal(tokens(r.abilities@[0].text)[2], ", deal"@),
        tokens(r.abilities@[0].text)[3] == TextToken::Number(NumericOperator::NoOperator, 1),
        is_literal(tokens(r.abilities@[0].text)[4], "damage"@),
        r.abilities@[0].delegates@ == seq![
            Delegate::RazeCard(EventDelegate { requirement: Requirement::FaceUpInPlayOrThisCard, mutation: Mutation::DealDamage(1) }),
        ],
        r.config == raze_only(5),
{
    let mut subtypes: Vec<CardSubtype> = Vec::new();
    subtypes.push(CardSubtype::Roombound);
    let mut text: Vec<TextToken> = Vec::new();
    text.push(literal("When the Riftcaller uses a"));
    text.push(TextToken::Keyword(Keyword::RazeAbility));
    text.push(literal(", deal"));
    text.push(TextToken::Number(NumericOperator::NoOperator, 1));
    text.push(literal("damage"));
    let mut abilities: Vec<Ability> = Vec::new();
    abilities.push(
        ability_with(
            AbilityType::Standard,
            text,
            Delegate::RazeCard(
                EventDelegate::new(Requirement::FaceUpInPlayOrThisCard, Mutation::DealDamage(1)),
            ),
        ),
    );
    CardDefinition {
        name: CardName::LivingStone,
        cost: mana_cost(meta.upgrade(5, 3)),
        card_type: CardType::Project,
        subtypes,
        side: Side::Overlord,
        school: School::Law,
        rarity: Rarity::Common,
        abilities,
        config: raze_config(5),
    }
}

/// Sealed Necropolis: for an action point, draw 2 cards; banish it to
/// shuffle up to 3 cards from the crypt into the vault.
pub fn sealed_necropolis(meta: CardMetadata) -> (r: CardDefinition)
    ensures
        has_header(
            r,
            CardName::SealedNecropolis,
            Cost { mana: Some(0), actions: 1, custom_cost: None },
            CardType::Project,
            seq![CardSubtype::Roombound, CardSubtype::Nightbound],
            Side::Overlord,
            School::Law,
            Rarity::Common,
        ),
        r.abilities@.len() == 2,
        r.abilities@[0].ability_type == AbilityType::Activated(
            Cost { mana: None, actions: 1, custom_cost: None },
            TargetRequirement::NoTarget,
        ),
        tokens(r.abilities@[0].text).len() == 3,
        is_literal(tokens(r.abilities@[0].text)[0], "Draw"@),
        tokens(r.abilities@[0].text)[1] == TextToken::Number(NumericOperator::NoOperator, 2),
        is_literal(tokens(r.abilities@[0].text)[2], "cards"@),
        r.abilities@[0].delegates@ == seq![
            Delegate::ActivateAbility(EventDelegate { requirement: Requirement::ThisAbility, mutation: Mutation::DrawCards(Side::Overlord, 2) }),
        ],
        r.abilities@[1].ability_type == AbilityType::Activated(
            Cost { mana: None, actions: 0, custom_cost: Some(CustomCost::Banish) },
            TargetRequirement::NoTarget,
        ),
        tokens(r.abilities@[1].text).len() == 3,
        is_literal(tokens(r.abilities@[1].text)[0], "Shuffle up to"@),
        tokens(r.abilities@[1].text)[1] == TextToken::Number(NumericOperator::NoOperator, 3),
        is_literal(tokens(r.abilities@[1].text)[2], "cards from the crypt into the vault"@),
        r.abilities@[1].delegates@ == seq![
            Delegate::ActivateAbility(EventDelegate { requirement: Requirement::ThisAbility, mutation: Mutation::ShowShuffleIntoVaultPrompt(3) }),
        ],
        r.config == raze_only(if meta.is_upgraded { 5 } else { 3 }),
{
    let mut subtypes: Vec<CardSubtype> = Vec::new();
    subtypes.push(CardSubtype::Roombound);
    subtypes.push(CardSubtype::Nightbound);
    assert(subtypes@ =~= seq![CardSubtype::Roombound, CardSubtype::Nightbound]);
    let mut draw_text: Vec<TextToken> = Vec::new();
    draw_text.push(literal("Draw"));
    draw_text.push(TextToken::Number(NumericOperator::NoOperator, 2));
    draw_text.push(literal("cards"));
    let mut shuffle_text: Vec<TextToken> = Vec::new();
    shuffle_text.push(literal("Shuffle up to"));
    shuffle_text.push(TextToken::Number(NumericOperator::NoOperator, 3));
    shuffle_text.push(literal("cards from the crypt into the vault"));
    let mut abilities: Vec<Ability> = Vec::new();
    abilities.push(
        ability_with(
            AbilityType::Activated(
                Cost { mana: None, actions: 1, custom_cost: None },
                TargetRequirement::NoTarget,
            ),
            draw_text,
            Delegate::ActivateAbility(
                EventDelegate::new(Requirement::ThisAbility, Mutation::DrawCards(Side::Overlord, 2)),
            ),
        ),
    );
    abilities.push(
        ability_with(
            AbilityType::Activated(
                Cost { mana: None, actions: 0, custom_cost: Some(CustomCost::Banish) },
                TargetRequirement::NoTarget,
            ),
            shuffle_text,
            Delegate::ActivateAbility(
                EventDelegate::new(Requirement::ThisAbility, Mutation::ShowShuffleIntoVaultPrompt(3)),
            ),
        ),
    );
    CardDefinition {
        name: CardName::SealedNecropolis,
        cost: mana_cost(0),
        card_type: CardType::Project,
        subtypes,
        side: Side::Overlord,
        school: School::Law,
        rarity: Rarity::Common,
        abilities,
        config: raze_config(meta.upgrade(3, 5)),
    }
}

/// Haste Resonator: when the Overlord takes the gain mana, progress card,
/// play card or draw card basic action for the third time in a turn, they
/// gain an action point.
pub fn haste_resonator(meta: CardMetadata) -> (r: CardDefinition)
    ensures
        has_header(
            r,
            CardName::HasteResonator,
            Cost { mana: Some(if meta.is_upgraded { 0 } else { 2 }), actions: 1, custom_cost: None },
            CardType::Project,
            seq![CardSubtype::Nightbound],
            Side::Overlord,
            School::Beyond,
            Rarity::Rare,
        ),
        r.abilities@.len() == 1,
        r.abilities@[0].ability_type == AbilityType::Standard,
        tokens(r.abilities@[0].text).len() == 4,
        is_literal(
            tokens(r.abilities@[0].text)[0],
            "When you take the gain mana, progress card, play card, or draw card basic action"@,
        ),
        tokens(r.abilities@[0].text)[1] == TextToken::Number(NumericOperator::NoOperator, 3),
        is_literal(tokens(r.abilities@[0].text)[2], "times in a turn,"@),
        tokens(r.abilities@[0].text)[3] == TextToken::GainActions(1),
        r.abilities@[0].delegates@ == seq![
            Delegate::GainManaAction(EventDelegate { requirement: Requirement::InPlay, mutation: Mutation::GainActionOnThirdUse(BasicAction::GainMana) }),
            Delegate::ProgressCardAction(EventDelegate { requirement: Requirement::InPlay, mutation: Mutation::GainActionOnThirdUse(BasicAction::ProgressCard) }),
            Delegate::PlayCard(EventDelegate { requirement: Requirement::InPlay, mutation: Mutation::GainActionOnThirdUse(BasicAction::PlayCard) }),
            Delegate::DrawCardAction(EventDelegate { requirement: Requirement::InPlay, mutation: Mutation::GainActionOnThirdUse(BasicAction::DrawCard) }),
        ],
        r.config == raze_only(5),
{
    let mut subtypes: Vec<CardSubtype> = Vec::new();
    subtypes.push(CardSubtype::Nightbound);
    let mut text: Vec<TextToken> = Vec::new();
    text.push(
        literal("When you take the gain mana, progress card, play card, or draw card basic action"),
    );
    text.push(TextToken::Number(NumericOperator::NoOperator, 3));
    text.push(literal("times in a turn,"));
    text.push(TextToken::GainActions(1));
    let mut delegates: Vec<Delegate> = Vec::new();
    delegates.push(
        Delegate::GainManaAction(
            EventDelegate::new(
                Requirement::InPlay,
                Mutation::GainActionOnThirdUse(BasicAction::GainMana),
            ),
        ),
    );
    delegates.push(
        Delegate::ProgressCardAction(
            EventDelegate::new(
                Requirement::InPlay,
                Mutation::GainActionOnThirdUse(BasicAction::ProgressCard),
            ),
        ),
    );
    delegates.push(
        Delegate::PlayCard(
            EventDelegate::new(
                Requirement::InPlay,
                Mutation::GainActionOnThirdUse(BasicAction::PlayCard),
            ),
        ),
    );
    delegates.push(
        Delegate::DrawCardAction(
            EventDelegate::new(
                Requirement::InPlay,
                Mutation::GainActionOnThirdUse(BasicAction::DrawCard),
            ),
        ),
    );
    let mut abilities: Vec<Ability> = Vec::new();
    abilities.push(
        Ability { ability_type: AbilityType::Standard, text: AbilityText::Text(text), delegates },
    );
    CardDefinition {
        name: CardName::HasteResonator,
        cost: mana_cost(meta.upgrade(2, 0)),
        card_type: CardType::Project,
        subtypes,
        side: Side::Overlord,
        school: School::Beyond,
        rarity: Rarity::Rare,
        abilities,
        config: raze_config(5),
    }
}

/// Stalwart Protector: sacrifice it to prevent receiving a curse, or to
/// remove one.
pub fn stalwart_protector(meta: CardMetadata) -> (r: CardDefinition)
    ensures
        has_header(
            r,
            CardName::StalwartProtector,
            Cost { mana: Some(if meta.is_upgraded { 0 } else { 1 }), actions: 1, custom_cost: None },
            CardType::Ally,
            seq![CardSubtype::Warrior],
            Side::Champion,
            School::Law,
            Rarity::Common,
        ),
        r.abilities@.len() == 2,
        r.abilities@[0].ability_type == AbilityType::Standard,
        tokens(r.abilities@[0].text).len() == 3,
        tokens(r.abilities@[0].text)[0] == TextToken::Keyword(Keyword::SacrificeCost),
        is_literal(tokens(r.abilities@[0].text)[1], "Prevent receiving a"@),
        tokens(r.abilities@[0].text)[2] == TextToken::Keyword(Keyword::Curse),
        r.abilities@[0].delegates@ == seq![
            Delegate::WillReceiveCurses(EventDelegate { requirement: Requirement::InPlay, mutation: Mutation::ShowSacrificeToPreventCursesPrompt(1) }),
        ],
        r.abilities@[1].ability_type == AbilityType::Activated(
            Cost { mana: None, actions: 0, custom_cost: Some(CustomCost::Sacrifice) },
            TargetRequirement::NoTarget,
        ),
        tokens(r.abilities@[1].text).len() == 1,
        is_literal(tokens(r.abilities@[1].text)[0], "Remove a curse"@),
        r.abilities@[1].delegates@ == seq![
            Delegate::CanActivate(QueryDelegate { requirement: Requirement::ThisAbility, transformation: Transformation::RequireChampionCurses }),
            Delegate::ActivateAbility(EventDelegate { requirement: Requirement::ThisAbility, mutation: Mutation::RemoveCurses(1) }),
        ],
        r.config == (CardConfig {
            stats: CardStats {
                base_attack: None,
                attack_boost: None,
                health: None,
                shield: None,
                raze_cost: None,
                scheme_points: None,
            },
            faction: None,
        }),
{
    let mut subtypes: Vec<CardSubtype> = Vec::new();
    subtypes.push(CardSubtype::Warrior);
    let mut prevent_text: Vec<TextToken> = Vec::new();
    prevent_text.push(TextToken::Keyword(Keyword::SacrificeCost));
    prevent_text.push(literal("Prevent receiving a"));
    prevent_text.push(TextToken::Keyword(Keyword::Curse));
    let mut remove_text: Vec<TextToken> = Vec::new();
    remove_text.push(literal("Remove a curse"));
    let mut remove_delegates: Vec<Delegate> = Vec::new();
    remove_delegates.push(
        Delegate::CanActivate(
            QueryDelegate::new(Requirement::ThisAbility, Transformation::RequireChampionCurses),
        ),
    );
    remove_delegates.push(
        Delegate::ActivateAbility(
            EventDelegate::new(Requirement::ThisAbility, Mutation::RemoveCurses(1)),
        ),
    );
    let mut abilities: Vec<Ability> = Vec::new();
    abilities.push(
        ability_with(
            AbilityType::Standard,
            prevent_text,
            Delegate::WillReceiveCurses(
                EventDelegate::new(
                    Requirement::InPlay,
                    Mutation::ShowSacrificeToPreventCursesPrompt(1),
                ),
            ),
        ),
    );
    abilities.push(
        Ability {
            ability_type: AbilityType::Activated(
                Cost { mana: None, actions: 0, custom_cost: Some(CustomCost::Sacrifice) },
                TargetRequirement::NoTarget,
            ),
            text: AbilityText::Text(remove_text),
            delegates: remove_delegates,
        },
    );
    CardDefinition {
        name: CardName::StalwartProtector,
        cost: mana_cost(meta.upgrade(1, 0)),
        card_type: CardType::Ally,
        subtypes,
        side: Side::Champion,
        school: School::Law,
        rarity: Rarity::Common,
        abilities,
        config: CardConfig { stats: CardStats::empty(), faction: None },
    }
}

/// Living Stone deals 1 damage when the Champion razes a card: while it is
/// the only ability which responds to razing, dispatching the razing of
/// `razed` deals exactly 1 damage when Living Stone is face up in play or is
/// the card razed, and changes nothing otherwise.
pub proof fn lemma_living_stone_raze(
    before: GameState,
    after: GameState,
    razed: CardId,
    scope: Scope,
)
    requires
        listeners(before, EventKind::RazeCard) == seq![
            Listener {
                scope,
                delegate: EventDelegate {
                    requirement: Requirement::FaceUpInPlayOrThisCard,
                    mutation: Mutation::DealDamage(1),
                },
            },
        ],
        event_dispatched(before, after, EventKind::RazeCard, EventSubject::Card(razed)),
    ensures
        ({
            let stone = before.card_state(scope.spec_card_id());
            (stone.face_up && stone.position.is_in_play()) || razed == scope.spec_card_id()
        }) ==> damage_dealt(before, after, 1),
        !({
            let stone = before.card_state(scope.spec_card_id());
            (stone.face_up && stone.position.is_in_play()) || razed == scope.spec_card_id()
        }) ==> after == before,
{
    lemma_single_listener_acts(before, after, EventKind::RazeCard, EventSubject::Card(razed));
}

/// Haste Resonator gives the Overlord an action point for the third use of
/// a basic action in a turn: while it is in play and the only ability which
/// responds to `action` being taken, dispatching it gives the Overlord one
/// action point when their counters count `action` 3 times this turn, and
/// changes nothing but the client updates otherwise.
pub proof fn lemma_haste_resonator_third_use(
    before: GameState,
    after: GameState,
    kind: EventKind,
    action: BasicAction,
    subject: EventSubject,
    scope: Scope,
)
    requires
        before.card_state(scope.spec_card_id()).position.is_in_play(),
        listeners(before, kind) == seq![
            Listener {
                scope,
                delegate: EventDelegate {
                    requirement: Requirement::InPlay,
                    mutation: Mutation::GainActionOnThirdUse(action),
                },
            },
        ],
        event_dispatched(before, after, kind, subject),
    ensures
        before.overlord.counters.spec_count(action) == 3 ==> after == (GameState {
            overlord: PlayerState { actions: (before.overlord.actions + 1) as u32, ..before.overlord },
            updates: after.updates,
            ..before
        }),
        before.overlord.counters.spec_count(action) != 3 ==> after == before,
{
    lemma_single_listener_acts(before, after, kind, subject);
}

/// Stalwart Protector's second ability removes one curse: while the
/// protector is the only card which responds to abilities being activated,
/// dispatching the activation of `ability` removes exactly one of the
/// Champion's curses, if they have any, when `ability` is that ability of
/// the protector, and changes nothing otherwise.
pub proof fn lemma_stalwart_protector_removes_curse(
    before: GameState,
    after: GameState,
    ability: AbilityId,
    scope: Scope,
)
    requires
        listeners(before, EventKind::ActivateAbility) == seq![
            Listener {
                scope,
                delegate: EventDelegate {
                    requirement: Requirement::ThisAbility,
                    mutation: Mutation::RemoveCurses(1),
                },
            },
        ],
        event_dispatched(before, after, EventKind::ActivateAbility, EventSubject::Ability(ability)),
    ensures
        ability == scope.ability_id ==> curses_removed(before, after, 1),
        ability != scope.ability_id ==> after == before,
{
    lemma_single_listener_acts(
        before,
        after,
        EventKind::ActivateAbility,
        EventSubject::Ability(ability),
    );
}

/// Sealed Necropolis's abilities: while it is the only card which responds
/// to abilities being activated, activating its first ability has the
/// Overlord draw 2 cards, as the rules run a draw, and activating its second offers them to shuffle
/// up to 3 cards of their crypt into their vault.
pub proof fn lemma_sealed_necropolis_abilities(
    before: GameState,
    after: GameState,
    card_id: CardId,
    index: usize,
)
    requires
        listeners(before, EventKind::ActivateAbility) == seq![
            Listener {
                scope: Scope { ability_id: AbilityId { card_id, index: 0 } },
                delegate: EventDelegate {
                    requirement: Requirement::ThisAbility,
                    mutation: Mutation::DrawCards(Side::Overlord, 2),
                },
            },
            Listener {
                scope: Scope { ability_id: AbilityId { card_id, index: 1 } },
                delegate: EventDelegate {
                    requirement: Requirement::ThisAbility,
                    mutation: Mutation::ShowShuffleIntoVaultPrompt(3),
                },
            },
        ],
        event_dispatched(
            before,
            after,
            EventKind::ActivateAbility,
            EventSubject::Ability(AbilityId { card_id, index }),
        ),
    ensures
        index == 0 ==> exists|drawn: Seq<CardId>|
            #[trigger] draw_run(before, after, Side::Overlord, 2, drawn),
        index == 1 ==> vault_prompt_pushed(
            before,
            after,
            Scope { ability_id: AbilityId { card_id, index: 1 } },
            3,
        ),
        index > 1 ==> after == before,
{
    let subject = EventSubject::Ability(AbilityId { card_id, index });
    lemma_two_listeners_act(before, after, EventKind::ActivateAbility, subject);
    let ls = listeners(before, EventKind::ActivateAbility);
    let mid = choose|mid: GameState|
        #[trigger] listener_acted(before, mid, ls[0], subject) && listener_acted(
            mid,
            after,
            ls[1],
            subject,
        );
    assert(listener_acted(before, mid, ls[0], subject));
    assert(listener_acted(mid, after, ls[1], subject));
}

/// Stalwart Protector's second ability can be activated only while the
/// Champion has a curse: while its activation condition is the only ability
/// which answers whether abilities can be activated, an ability can be
/// activated exactly when it is not that one or the Champion has a curse.
pub proof fn lemma_stalwart_protector_activation(game: GameState, ability: AbilityId, scope: Scope)
    requires
        game.valid_id(scope.spec_card_id()),
        answerers(game, QueryKind::CanActivate) == seq![
            Answerer {
                scope,
                delegate: QueryDelegate {
                    requirement: Requirement::ThisAbility,
                    transformation: Transformation::RequireChampionCurses,
                },
            },
        ],
    ensures
        flag_answer(
            game,
            answerers(game, QueryKind::CanActivate),
            EventSubject::Ability(ability),
            Flag::Default(true),
        ).value() == (ability == scope.ability_id ==> game.champion.curses > 0),
{
    let ls = answerers(game, QueryKind::CanActivate);
    assert(ls.drop_last() =~= Seq::<Answerer>::empty());
    assert(flag_answer(game, ls.drop_last(), EventSubject::Ability(ability), Flag::Default(true))
        == Flag::Default(true));
}

} // verus!
