use spelldawn_rules::effects::apply_mutation;
use spelldawn_rules::card_definition::{
    AbilityText, AbilityType, BasicAction, CardConfig, CardDefinition, CardStats, Cost,
    CustomCost, Delegate, EventDelegate, Mutation, Requirement, Scope, TextToken,
};
use spelldawn_rules::card_definition::EventSubject;
use spelldawn_rules::cards_beryl::{
    gain_action_on_third_use, haste_resonator, living_stone, magistrates_thronehall,
    sealed_necropolis, show_prompt, stalwart_protector,
    CardMetadata, DrawCardsState, HistoryCounters,
};
use spelldawn_rules::dispatch::{fire_event, EventKind};
use spelldawn_rules::draws::draw_with_limits;
use spelldawn_rules::error::GameError;
use spelldawn_rules::flags::can_activate;
use spelldawn_rules::game_actions::{
    BrowserPromptTarget, BrowserPromptValidation, CardPromptAction, GamePrompt, PromptAction,
    PromptContext,
};
use spelldawn_rules::game_state::{CardPosition, GamePhase, GameState, RoomLocation, TurnData};
use spelldawn_rules::game_updates::{GameUpdate, UpdateState, UpdateTracker};
use spelldawn_rules::primitives::{
    AbilityId, CardId, CardName, CardType, GameId, PlayerId, Rarity, RoomId, School, Side,
};

fn new_game() -> GameState {
    GameState::new(
        GameId(1),
        PlayerId::Database(1),
        PlayerId::Database(2),
        GamePhase::Play,
        TurnData { side: Side::Overlord, turn_number: 1 },
    )
}

fn plain(card_type: CardType, side: Side) -> CardDefinition {
    CardDefinition {
        name: CardName::Frog,
        cost: Cost { mana: None, actions: 1, custom_cost: None },
        card_type,
        subtypes: vec![],
        side,
        school: School::Law,
        rarity: Rarity::Common,
        abilities: vec![],
        config: CardConfig { stats: CardStats::empty(), faction: None },
    }
}

fn scope_of(card_id: CardId) -> Scope {
    Scope { ability_id: AbilityId { card_id, index: 0 } }
}

fn counters(n: u32) -> HistoryCounters {
    HistoryCounters {
        cards_drawn: 0,
        gain_mana_actions: n,
        progress_card_actions: 0,
        play_card_actions: 0,
        draw_card_actions: 0,
    }
}

#[test]
fn upgraded_costs() {
    let normal = magistrates_thronehall(CardMetadata { is_upgraded: false });
    let upgraded = magistrates_thronehall(CardMetadata { is_upgraded: true });
    assert_eq!(normal.cost.mana, Some(1));
    assert_eq!(upgraded.cost.mana, Some(0));
    assert_eq!(living_stone(CardMetadata { is_upgraded: true }).cost.mana, Some(3));
    assert_eq!(sealed_necropolis(CardMetadata { is_upgraded: true }).config.stats.raze_cost, Some(5));
    assert_eq!(sealed_necropolis(CardMetadata { is_upgraded: false }).config.stats.raze_cost, Some(3));
}

#[test]
fn definitions() {
    let m = magistrates_thronehall(CardMetadata { is_upgraded: false });
    assert_eq!(m.name, CardName::MagistratesThronehall);
    assert_eq!(m.card_type, CardType::Project);
    assert_eq!(
        m.abilities[0].delegates,
        vec![Delegate::WillDrawCards(EventDelegate {
            requirement: Requirement::InPlay,
            mutation: Mutation::LimitChampionDraws(2),
        })]
    );
    match &m.abilities[0].text {
        AbilityText::Text(tokens) => match &tokens[0] {
            TextToken::Literal(s) => assert_eq!(s, "The Riftcaller cannot draw more than"),
            _ => panic!("expected a literal"),
        },
        _ => panic!("expected text"),
    }
    let n = sealed_necropolis(CardMetadata { is_upgraded: false });
    assert_eq!(n.abilities.len(), 2);
    assert_eq!(
        n.abilities[1].ability_type,
        AbilityType::Activated(
            Cost { mana: None, actions: 0, custom_cost: Some(CustomCost::Banish) },
            spelldawn_rules::card_definition::TargetRequirement::NoTarget,
        )
    );
    let h = haste_resonator(CardMetadata { is_upgraded: false });
    assert_eq!(h.abilities[0].delegates.len(), 4);
    assert_eq!(h.school, School::Beyond);
    let s = stalwart_protector(CardMetadata { is_upgraded: false });
    assert_eq!(s.side, Side::Champion);
    assert_eq!(s.card_type, CardType::Ally);
    assert_eq!(s.abilities[1].delegates.len(), 2);
}

#[test]
fn haste_resonator_gains_action_on_third() {
    let mut game = new_game();
    let card = game.add_card(Side::Overlord, plain(CardType::Project, Side::Overlord), CardPosition::Room(RoomId::RoomA, RoomLocation::Occupant)).unwrap();
    assert_eq!({ game.overlord.counters = counters(2); gain_action_on_third_use(&mut game, scope_of(card), BasicAction::GainMana) }, Ok(false));
    assert_eq!(game.overlord.actions, 0);
    assert_eq!({ game.overlord.counters = counters(3); gain_action_on_third_use(&mut game, scope_of(card), BasicAction::GainMana) }, Ok(true));
    assert_eq!(game.overlord.actions, 1);
    assert_eq!({ game.overlord.counters = counters(3); gain_action_on_third_use(&mut game, scope_of(card), BasicAction::DrawCard) }, Ok(false));
    assert_eq!({ game.overlord.counters = counters(4); gain_action_on_third_use(&mut game, scope_of(card), BasicAction::GainMana) }, Ok(false));
    assert_eq!(game.overlord.actions, 1);
}

#[test]
fn mutations_carry_out_card_effects() {
    let mut game = new_game();
    let card = game.add_card(Side::Champion, plain(CardType::Ally, Side::Champion), CardPosition::ArenaItem).unwrap();
    let scope = scope_of(card);
    game.champion.curses = 2;
    apply_mutation(&mut game, scope, Mutation::RemoveCurses(1)).unwrap();
    assert_eq!(game.champion.curses, 1);
    apply_mutation(&mut game, scope, Mutation::StoreMana(4)).unwrap();
    assert_eq!(game.card(card).stored_mana, 4);
    apply_mutation(&mut game, scope, Mutation::TakeStoredMana(4, spelldawn_rules::card_definition::OnZeroStored::Sacrifice)).unwrap();
    assert_eq!(game.champion.mana, 4);
    assert_eq!(game.card(card).position, CardPosition::DiscardPile(Side::Champion));
    assert_eq!(apply_mutation(&mut game, scope, Mutation::EndRaid(spelldawn_rules::card_definition::RaidOutcome::Failure)), Err(GameError::NoActiveRaid));
    assert_eq!(apply_mutation(&mut game, scope, Mutation::LimitChampionDraws(2)), Err(GameError::NoActiveDraw));
    apply_mutation(&mut game, scope, Mutation::ShowSacrificeToPreventCursesPrompt(1)).unwrap();
    assert_eq!(game.champion.prompt_queue.len(), 1);
    game.overlord.counters.play_card_actions = 3;
    apply_mutation(&mut game, scope, Mutation::GainActionOnThirdUse(BasicAction::PlayCard)).unwrap();
    assert_eq!(game.overlord.actions, 1);
}

fn thronehall_scope(game: &mut GameState) -> Scope {
    let id = game.add_card(Side::Overlord, magistrates_thronehall(CardMetadata { is_upgraded: false }), CardPosition::Room(RoomId::RoomA, RoomLocation::Occupant)).unwrap();
    scope_of(id)
}

#[test]
fn thronehall_limits_draw_under_way() {
    let mut game = new_game();
    let scope = thronehall_scope(&mut game);
    let limit = Mutation::LimitChampionDraws(2);
    game.info.draws = vec![DrawCardsState { side: Side::Champion, quantity: 3 }];
    game.champion.counters.cards_drawn = 1;
    apply_mutation(&mut game, scope, limit).unwrap();
    assert_eq!(game.info.draws[0].quantity, 1);
    game.info.draws = vec![DrawCardsState { side: Side::Champion, quantity: 1 }];
    game.champion.counters.cards_drawn = 0;
    apply_mutation(&mut game, scope, limit).unwrap();
    assert_eq!(game.info.draws[0].quantity, 1);
    game.info.draws = vec![DrawCardsState { side: Side::Champion, quantity: 2 }];
    game.champion.counters.cards_drawn = 5;
    apply_mutation(&mut game, scope, limit).unwrap();
    assert_eq!(game.info.draws[0].quantity, 0);
    game.info.draws = vec![DrawCardsState { side: Side::Overlord, quantity: 4 }];
    apply_mutation(&mut game, scope, limit).unwrap();
    assert_eq!(game.info.draws[0].quantity, 4);
    game.info.draws = vec![];
    assert_eq!(apply_mutation(&mut game, scope, limit), Err(GameError::NoActiveDraw));
}

#[test]
fn thronehall_records_alert_when_cutting() {
    let mut game = new_game();
    game.updates = UpdateTracker::new(UpdateState::Push);
    let scope = thronehall_scope(&mut game);
    game.info.draws = vec![DrawCardsState { side: Side::Champion, quantity: 2 }];
    apply_mutation(&mut game, scope, Mutation::LimitChampionDraws(2)).unwrap();
    assert_eq!(game.updates.steps.len(), 0);
    game.info.draws = vec![DrawCardsState { side: Side::Champion, quantity: 3 }];
    apply_mutation(&mut game, scope, Mutation::LimitChampionDraws(2)).unwrap();
    assert_eq!(game.info.draws[0].quantity, 2);
    assert_eq!(game.updates.steps.len(), 1);
    match &game.updates.steps[0].update {
        GameUpdate::AbilityTriggered(ability, _) => assert_eq!(*ability, scope.ability_id),
        _ => panic!("expected an alert"),
    }
}

#[test]
fn living_stone_deals_damage_when_face_up() {
    let mut game = new_game();
    let stone = game.add_card(Side::Overlord, living_stone(CardMetadata { is_upgraded: false }), CardPosition::Room(RoomId::RoomA, RoomLocation::Occupant)).unwrap();
    let other = game.add_card(Side::Overlord, plain(CardType::Project, Side::Overlord), CardPosition::Room(RoomId::RoomB, RoomLocation::Occupant)).unwrap();
    let hand = game.add_card(Side::Champion, plain(CardType::Spell, Side::Champion), CardPosition::Hand(Side::Champion)).unwrap();
    fire_event(&mut game, EventKind::RazeCard, EventSubject::Card(other)).unwrap();
    assert_eq!(game.card(hand).position, CardPosition::Hand(Side::Champion));
    game.turn_face_up(stone);
    fire_event(&mut game, EventKind::RazeCard, EventSubject::Card(other)).unwrap();
    assert_eq!(game.card(hand).position, CardPosition::DiscardPile(Side::Champion));
}

#[test]
fn living_stone_fires_when_itself_razed() {
    let mut game = new_game();
    let stone = game.add_card(Side::Overlord, living_stone(CardMetadata { is_upgraded: false }), CardPosition::Hand(Side::Overlord)).unwrap();
    let hand = game.add_card(Side::Champion, plain(CardType::Spell, Side::Champion), CardPosition::Hand(Side::Champion)).unwrap();
    fire_event(&mut game, EventKind::RazeCard, EventSubject::Card(stone)).unwrap();
    assert_eq!(game.card(hand).position, CardPosition::DiscardPile(Side::Champion));
}

#[test]
fn necropolis_draws_and_prompts() {
    let mut game = new_game();
    let necropolis = game.add_card(Side::Overlord, sealed_necropolis(CardMetadata { is_upgraded: false }), CardPosition::Room(RoomId::RoomA, RoomLocation::Occupant)).unwrap();
    let a = game.add_card(Side::Overlord, plain(CardType::Scheme, Side::Overlord), CardPosition::Deck(Side::Overlord)).unwrap();
    let b = game.add_card(Side::Overlord, plain(CardType::Scheme, Side::Overlord), CardPosition::Deck(Side::Overlord)).unwrap();
    let c = game.add_card(Side::Overlord, plain(CardType::Scheme, Side::Overlord), CardPosition::DiscardPile(Side::Overlord)).unwrap();
    fire_event(&mut game, EventKind::ActivateAbility, EventSubject::Ability(AbilityId { card_id: necropolis, index: 0 })).unwrap();
    assert_eq!(game.card(a).position, CardPosition::Hand(Side::Overlord));
    assert_eq!(game.card(b).position, CardPosition::Hand(Side::Overlord));
    assert_eq!(game.overlord.counters.cards_drawn, 2);
    fire_event(&mut game, EventKind::ActivateAbility, EventSubject::Ability(AbilityId { card_id: necropolis, index: 1 })).unwrap();
    let offer = game.overlord.prompt_queue.last().unwrap().clone();
    match &offer {
        GamePrompt::ShuffleIntoVault(ability, 3) => assert_eq!(ability.card_id, necropolis),
        _ => panic!("expected the shuffle offer"),
    }
    let d = game.add_card(Side::Overlord, plain(CardType::Scheme, Side::Overlord), CardPosition::DiscardPile(Side::Overlord)).unwrap();
    match show_prompt(&game, offer) {
        GamePrompt::CardBrowserPrompt(p) => {
            assert_eq!(p.unchosen_subjects, vec![c, d]);
            assert!(p.chosen_subjects.is_empty());
            assert_eq!(p.context, Some(PromptContext::ShuffleIntoVault));
            assert_eq!(p.target, BrowserPromptTarget::DeckShuffled);
            assert_eq!(p.validation, BrowserPromptValidation::LessThanOrEqualTo(3));
        }
        _ => panic!("expected a card browser"),
    }
}

#[test]
fn stalwart_protector_rules() {
    let mut game = new_game();
    let card = game.add_card(Side::Champion, stalwart_protector(CardMetadata { is_upgraded: false }), CardPosition::ArenaItem).unwrap();
    let remove_curse = AbilityId { card_id: card, index: 1 };
    assert!(!can_activate(&game, remove_curse));
    assert!(can_activate(&game, AbilityId { card_id: card, index: 0 }));
    game.champion.curses = 1;
    assert!(can_activate(&game, remove_curse));
    fire_event(&mut game, EventKind::ActivateAbility, EventSubject::Ability(remove_curse)).unwrap();
    assert_eq!(game.champion.curses, 0);
    assert!(!can_activate(&game, remove_curse));
    fire_event(&mut game, EventKind::WillReceiveCurses, EventSubject::Player(Side::Champion)).unwrap();
    match game.champion.prompt_queue.last().unwrap() {
        GamePrompt::ButtonPrompt(p) => {
            assert_eq!(p.context, Some(PromptContext::SacrificeToPreventCurses(card, 1)));
            assert_eq!(
                p.responses,
                vec![
                    PromptAction::CardAction(CardPromptAction::SacrificeAndPreventCurses(card, 1)),
                    PromptAction::CardAction(CardPromptAction::Continue),
                ]
            );
        }
        _ => panic!("expected a button prompt"),
    }
}

#[test]
fn draw_effect_is_announced_and_counted() {
    let mut game = new_game();
    game.add_card(Side::Overlord, magistrates_thronehall(CardMetadata { is_upgraded: false }), CardPosition::Room(RoomId::RoomA, RoomLocation::Occupant)).unwrap();
    let giver = game.add_card(Side::Champion, plain(CardType::Ally, Side::Champion), CardPosition::ArenaItem).unwrap();
    for _ in 0..4 {
        game.add_card(Side::Champion, plain(CardType::Spell, Side::Champion), CardPosition::Deck(Side::Champion)).unwrap();
    }
    apply_mutation(&mut game, scope_of(giver), Mutation::DrawCards(Side::Champion, 3)).unwrap_err();
    spelldawn_rules::draws::carry_out_effect(&mut game, scope_of(giver), Mutation::DrawCards(Side::Champion, 3)).unwrap();
    assert_eq!(game.champion.counters.cards_drawn, 2);
    let drawn = draw_with_limits(&mut game, Side::Champion, 2).unwrap();
    assert!(drawn.is_empty());
}
