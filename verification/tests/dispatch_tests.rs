use spelldawn_rules::card_definition::{
    Ability, AbilityText, AbilityType, CardConfig, CardDefinition, CardStats, Cost, Delegate,
    EventDelegate, EventSubject, Mutation, OnZeroStored, Requirement,
};
use spelldawn_rules::card_helpers::abilities::store_mana_on_play;
use spelldawn_rules::cards_beryl::{
    haste_resonator, living_stone, magistrates_thronehall, sealed_necropolis, stalwart_protector,
    CardMetadata,
};
use spelldawn_rules::dispatch::{event_listeners, fire_event, EventKind};
use spelldawn_rules::draws::draw_with_limits;
use spelldawn_rules::game_state::{CardPosition, GamePhase, GameState, RoomLocation, TurnData};
use spelldawn_rules::primitives::{
    AbilityId, CardName, CardType, GameId, PlayerId, Rarity, RoomId, School, Side,
};

const META: CardMetadata = CardMetadata { is_upgraded: false };

fn new_game() -> GameState {
    GameState::new(
        GameId(1),
        PlayerId::Database(1),
        PlayerId::Database(2),
        GamePhase::Play,
        TurnData { side: Side::Overlord, turn_number: 1 },
    )
}

fn plain(card_type: CardType, side: Side) -> CardDefinition {
    CardDefinition {
        name: CardName::Frog,
        cost: Cost { mana: None, actions: 1, custom_cost: None },
        card_type,
        subtypes: vec![],
        side,
        school: School::Law,
        rarity: Rarity::Common,
        abilities: vec![],
        config: CardConfig { stats: CardStats::empty(), faction: None },
    }
}

fn room(r: RoomId) -> CardPosition {
    CardPosition::Room(r, RoomLocation::Occupant)
}

#[test]
fn listeners_follow_card_order() {
    let mut game = new_game();
    let stone = game.add_card(Side::Overlord, living_stone(META), room(RoomId::RoomA)).unwrap();
    let thronehall =
        game.add_card(Side::Overlord, magistrates_thronehall(META), room(RoomId::RoomB)).unwrap();
    let resonator =
        game.add_card(Side::Overlord, haste_resonator(META), room(RoomId::RoomC)).unwrap();
    let razes = event_listeners(&game, EventKind::RazeCard);
    assert_eq!(razes.len(), 1);
    assert_eq!(razes[0].scope.ability_id, AbilityId { card_id: stone, index: 0 });
    let draws = event_listeners(&game, EventKind::WillDrawCards);
    assert_eq!(draws.len(), 1);
    assert_eq!(draws[0].scope.ability_id.card_id, thronehall);
    let plays = event_listeners(&game, EventKind::PlayCard);
    assert_eq!(plays.len(), 1);
    assert_eq!(plays[0].scope.ability_id.card_id, resonator);
    assert!(event_listeners(&game, EventKind::Dawn).is_empty());
}

#[test]
fn living_stone_deals_damage_when_a_card_is_razed() {
    let mut game = new_game();
    let stone = game.add_card(Side::Overlord, living_stone(META), room(RoomId::RoomA)).unwrap();
    let other = game.add_card(Side::Overlord, plain(CardType::Project, Side::Overlord), room(RoomId::RoomB)).unwrap();
    let first = game.add_card(Side::Champion, plain(CardType::Spell, Side::Champion), CardPosition::Hand(Side::Champion)).unwrap();
    let second = game.add_card(Side::Champion, plain(CardType::Spell, Side::Champion), CardPosition::Hand(Side::Champion)).unwrap();
    fire_event(&mut game, EventKind::RazeCard, EventSubject::Card(other)).unwrap();
    assert_eq!(game.card(first).position, CardPosition::Hand(Side::Champion));
    assert_eq!(game.card(second).position, CardPosition::Hand(Side::Champion));
    fire_event(&mut game, EventKind::RazeCard, EventSubject::Card(stone)).unwrap();
    let discarded = [first, second]
        .iter()
        .filter(|c| game.card(**c).position == CardPosition::DiscardPile(Side::Champion))
        .count();
    assert_eq!(discarded, 1);
    game.turn_face_up(stone);
    fire_event(&mut game, EventKind::RazeCard, EventSubject::Card(other)).unwrap();
    assert_eq!(game.card(first).position, CardPosition::DiscardPile(Side::Champion));
    assert_eq!(game.card(second).position, CardPosition::DiscardPile(Side::Champion));
}

#[test]
fn thronehall_limits_champion_draws() {
    let mut game = new_game();
    game.add_card(Side::Overlord, magistrates_thronehall(META), room(RoomId::RoomA)).unwrap();
    for _ in 0..4 {
        game.add_card(Side::Champion, plain(CardType::Spell, Side::Champion), CardPosition::Deck(Side::Champion)).unwrap();
        game.add_card(Side::Overlord, plain(CardType::Scheme, Side::Overlord), CardPosition::Deck(Side::Overlord)).unwrap();
    }
    let drawn = draw_with_limits(&mut game, Side::Champion, 3).unwrap();
    assert_eq!(drawn.len(), 2);
    assert_eq!(game.champion.counters.cards_drawn, 2);
    assert!(game.info.draws.is_empty());
    let drawn = draw_with_limits(&mut game, Side::Champion, 1).unwrap();
    assert_eq!(drawn.len(), 0);
    assert_eq!(game.champion.counters.cards_drawn, 2);
    let drawn = draw_with_limits(&mut game, Side::Overlord, 3).unwrap();
    assert_eq!(drawn.len(), 3);
    assert_eq!(game.overlord.counters.cards_drawn, 3);
}

#[test]
fn draws_without_limits_take_the_whole_count() {
    let mut game = new_game();
    for _ in 0..4 {
        game.add_card(Side::Champion, plain(CardType::Spell, Side::Champion), CardPosition::Deck(Side::Champion)).unwrap();
    }
    let drawn = draw_with_limits(&mut game, Side::Champion, 3).unwrap();
    assert_eq!(drawn.len(), 3);
    assert_eq!(game.champion.counters.cards_drawn, 3);
    let drawn = draw_with_limits(&mut game, Side::Champion, 3).unwrap();
    assert_eq!(drawn.len(), 1);
    assert_eq!(game.champion.counters.cards_drawn, 4);
}

#[test]
fn haste_resonator_rewards_third_basic_action() {
    let mut game = new_game();
    game.add_card(Side::Overlord, haste_resonator(META), room(RoomId::RoomA)).unwrap();
    game.overlord.counters.gain_mana_actions = 2;
    fire_event(&mut game, EventKind::GainManaAction, EventSubject::Player(Side::Overlord)).unwrap();
    assert_eq!(game.overlord.actions, 0);
    game.overlord.counters.gain_mana_actions = 3;
    fire_event(&mut game, EventKind::GainManaAction, EventSubject::Player(Side::Overlord)).unwrap();
    assert_eq!(game.overlord.actions, 1);
    game.overlord.counters.draw_card_actions = 3;
    fire_event(&mut game, EventKind::DrawCardAction, EventSubject::Player(Side::Overlord)).unwrap();
    assert_eq!(game.overlord.actions, 2);
    assert_eq!(game.champion.actions, 0);
}

#[test]
fn haste_resonator_acts_only_in_play() {
    let mut game = new_game();
    game.add_card(Side::Overlord, haste_resonator(META), CardPosition::Hand(Side::Overlord)).unwrap();
    game.overlord.counters.gain_mana_actions = 3;
    fire_event(&mut game, EventKind::GainManaAction, EventSubject::Player(Side::Overlord)).unwrap();
    assert_eq!(game.overlord.actions, 0);
}

#[test]
fn stalwart_protector_ability_removes_a_curse() {
    let mut game = new_game();
    let card = game.add_card(Side::Champion, stalwart_protector(META), CardPosition::ArenaItem).unwrap();
    game.champion.curses = 2;
    let ability = AbilityId { card_id: card, index: 1 };
    fire_event(&mut game, EventKind::ActivateAbility, EventSubject::Ability(AbilityId { card_id: card, index: 0 })).unwrap();
    assert_eq!(game.champion.curses, 2);
    fire_event(&mut game, EventKind::ActivateAbility, EventSubject::Ability(ability)).unwrap();
    assert_eq!(game.champion.curses, 1);
    fire_event(&mut game, EventKind::WillReceiveCurses, EventSubject::Player(Side::Champion)).unwrap();
    assert_eq!(game.champion.prompt_queue.len(), 1);
}

#[test]
fn sealed_necropolis_ability_draws_two() {
    let mut game = new_game();
    let card = game.add_card(Side::Overlord, sealed_necropolis(META), room(RoomId::RoomA)).unwrap();
    for _ in 0..3 {
        game.add_card(Side::Overlord, plain(CardType::Scheme, Side::Overlord), CardPosition::Deck(Side::Overlord)).unwrap();
    }
    fire_event(&mut game, EventKind::ActivateAbility, EventSubject::Ability(AbilityId { card_id: card, index: 0 })).unwrap();
    let in_hand = game
        .overlord_cards
        .iter()
        .filter(|c| c.position == CardPosition::Hand(Side::Overlord))
        .count();
    assert_eq!(in_hand, 2);
}

#[test]
fn stored_mana_is_placed_on_cast_and_card_leaves_when_empty() {
    let mut game = new_game();
    let mut definition = plain(CardType::Artifact, Side::Champion);
    definition.abilities.push(store_mana_on_play::<3>());
    let card = game.add_card(Side::Champion, definition, CardPosition::ArenaItem).unwrap();
    let other = game.add_card(Side::Champion, plain(CardType::Artifact, Side::Champion), CardPosition::ArenaItem).unwrap();
    fire_event(&mut game, EventKind::CastCard, EventSubject::Card(other)).unwrap();
    assert_eq!(game.card(card).stored_mana, 0);
    fire_event(&mut game, EventKind::CastCard, EventSubject::Card(card)).unwrap();
    assert_eq!(game.card(card).stored_mana, 3);
    fire_event(&mut game, EventKind::StoredManaTaken, EventSubject::Card(card)).unwrap();
    assert_eq!(game.card(card).position, CardPosition::ArenaItem);
    game.set_stored_mana(card, 0);
    fire_event(&mut game, EventKind::StoredManaTaken, EventSubject::Card(card)).unwrap();
    assert_eq!(game.card(card).position, CardPosition::DiscardPile(Side::Champion));
}

#[test]
fn card_leaves_play_once_its_stored_mana_is_taken() {
    let mut game = new_game();
    let mut definition = plain(CardType::Artifact, Side::Champion);
    definition.abilities.push(store_mana_on_play::<3>());
    definition.abilities.push(Ability {
        ability_type: AbilityType::Standard,
        text: AbilityText::Text(vec![]),
        delegates: vec![Delegate::ActivateAbility(EventDelegate {
            requirement: Requirement::ThisAbility,
            mutation: Mutation::TakeStoredMana(2, OnZeroStored::Ignore),
        })],
    });
    let card = game.add_card(Side::Champion, definition, CardPosition::ArenaItem).unwrap();
    game.set_stored_mana(card, 3);
    let take = EventSubject::Ability(AbilityId { card_id: card, index: 1 });
    fire_event(&mut game, EventKind::ActivateAbility, take).unwrap();
    assert_eq!(game.champion.mana, 2);
    assert_eq!(game.card(card).stored_mana, 1);
    assert_eq!(game.card(card).position, CardPosition::ArenaItem);
    fire_event(&mut game, EventKind::ActivateAbility, take).unwrap();
    assert_eq!(game.champion.mana, 3);
    assert_eq!(game.card(card).stored_mana, 0);
    assert_eq!(game.card(card).position, CardPosition::DiscardPile(Side::Champion));
}

#[test]
fn weapon_boost_adds_to_attack() {
    let mut game = new_game();
    let axe = game.add_card(Side::Champion, spelldawn_rules::weapons::greataxe(), CardPosition::ArenaItem).unwrap();
    assert_eq!(spelldawn_rules::flags::attack_value(&game, axe), Some(3));
    game.set_boost_count(axe, 2);
    assert_eq!(spelldawn_rules::flags::attack_value(&game, axe), Some(5));
    let other = game.add_card(Side::Champion, plain(CardType::Spell, Side::Champion), CardPosition::Hand(Side::Champion)).unwrap();
    assert_eq!(spelldawn_rules::flags::attack_value(&game, other), None);
}

#[test]
fn raid_ended_by_an_ability_is_dispatched() {
    let mut game = new_game();
    let mut minion = plain(CardType::Minion, Side::Overlord);
    minion.abilities.push(spelldawn_rules::card_helpers::abilities::end_raid());
    let minion = game.add_card(Side::Overlord, minion, room(RoomId::RoomA)).unwrap();
    let mut watcher = plain(CardType::Project, Side::Overlord);
    watcher.abilities.push(Ability {
        ability_type: AbilityType::Standard,
        text: AbilityText::Text(vec![]),
        delegates: vec![Delegate::RaidEnd(EventDelegate {
            requirement: Requirement::InPlay,
            mutation: Mutation::StoreMana(4),
        })],
    });
    let watcher = game.add_card(Side::Overlord, watcher, room(RoomId::RoomB)).unwrap();
    game.info.raid = Some(spelldawn_rules::game_state::RaidData {
        raid_id: spelldawn_rules::primitives::RaidId(7),
        target: RoomId::RoomA,
        internal_phase: spelldawn_rules::game_state::InternalRaidPhase::Encounter,
        encounter: None,
        accessed: vec![],
        jump_request: None,
    });
    fire_event(&mut game, EventKind::MinionCombatAbility, EventSubject::Card(minion)).unwrap();
    assert!(game.info.raid.is_none());
    assert_eq!(game.card(watcher).stored_mana, 4);
}
