use spelldawn_rules::card_definition::{CardConfig, CardDefinition, CardStats, Cost};
use spelldawn_rules::error::GameError;
use spelldawn_rules::game_actions::CardTarget;
use spelldawn_rules::game_state::{CardPosition, GamePhase, GameState, RoomLocation, TurnData};
use spelldawn_rules::mutations::{deal_damage, draw_cards};
use spelldawn_rules::primitives::{
    AIPlayer, CardId, CardName, CardType, GameId, PlayerId, Rarity, RoomId, School, Side,
};
use spelldawn_rules::queries::{
    card_count, card_list, occupants, played_position, raze_cost, CardFilter,
};
use spelldawn_rules::selection::{random_cards_in_position, top_of_deck};

fn definition(card_type: CardType, side: Side) -> CardDefinition {
    CardDefinition {
        name: CardName::TestChampionSpell,
        cost: Cost { mana: Some(1), actions: 1, custom_cost: None },
        card_type,
        subtypes: vec![],
        side,
        school: School::Law,
        rarity: Rarity::Common,
        abilities: vec![],
        config: CardConfig { stats: CardStats::empty(), faction: None },
    }
}

fn new_game() -> GameState {
    GameState::new(
        GameId(7),
        PlayerId::AI(AIPlayer::DebugOverlord),
        PlayerId::Database(1),
        GamePhase::Play,
        TurnData { side: Side::Champion, turn_number: 1 },
    )
}

#[test]
fn new_game_is_empty() {
    let game = new_game();
    assert_eq!(game.id, GameId(7));
    assert_eq!(game.overlord.id, PlayerId::AI(AIPlayer::DebugOverlord));
    assert_eq!(game.champion.id, PlayerId::Database(1));
    assert_eq!(game.card_count(Side::Overlord), 0);
    assert_eq!(game.card_count(Side::Champion), 0);
    assert_eq!(game.info.next_raid_id, 1);
    assert!(game.info.raid.is_none());
    assert!(game.play_card.is_none());
}

#[test]
fn add_card_gives_consecutive_ids() {
    let mut game = new_game();
    let a = game.add_card(Side::Champion, definition(CardType::Spell, Side::Champion), CardPosition::Hand(Side::Champion)).unwrap();
    let b = game.add_card(Side::Champion, definition(CardType::Spell, Side::Champion), CardPosition::Deck(Side::Champion)).unwrap();
    let c = game.add_card(Side::Overlord, definition(CardType::Scheme, Side::Overlord), CardPosition::Deck(Side::Overlord)).unwrap();
    assert_eq!(a, CardId::new(Side::Champion, 0));
    assert_eq!(b, CardId::new(Side::Champion, 1));
    assert_eq!(c, CardId::new(Side::Overlord, 0));
    assert!(!game.card(a).face_up);
    assert_eq!(game.card(b).position, CardPosition::Deck(Side::Champion));
    assert_eq!(game.info.next_sorting_key, 3);
}

#[test]
fn move_card_uses_next_sorting_key() {
    let mut game = new_game();
    let a = game.add_card(Side::Champion, definition(CardType::Spell, Side::Champion), CardPosition::Hand(Side::Champion)).unwrap();
    game.move_card(a, CardPosition::DiscardPile(Side::Champion)).unwrap();
    assert_eq!(game.card(a).position, CardPosition::DiscardPile(Side::Champion));
    assert_eq!(game.card(a).sorting_key, 1);
    assert_eq!(game.info.next_sorting_key, 2);
}

#[test]
fn move_card_fails_without_sorting_key() {
    let mut game = new_game();
    let a = game.add_card(Side::Champion, definition(CardType::Spell, Side::Champion), CardPosition::Hand(Side::Champion)).unwrap();
    game.info.next_sorting_key = u64::MAX;
    assert_eq!(game.move_card(a, CardPosition::Deck(Side::Champion)), Err(GameError::ValueOutOfRange));
    assert_eq!(game.card(a).position, CardPosition::Hand(Side::Champion));
}

#[test]
fn mana_and_action_points() {
    let mut game = new_game();
    assert_eq!(game.spend_mana(Side::Champion, 1), Err(GameError::InsufficientMana(1)));
    game.gain_mana(Side::Champion, 5).unwrap();
    game.spend_mana(Side::Champion, 2).unwrap();
    assert_eq!(game.player(Side::Champion).mana, 3);
    assert_eq!(game.gain_mana(Side::Champion, u32::MAX), Err(GameError::ValueOutOfRange));
    assert_eq!(game.player(Side::Champion).mana, 3);
    game.gain_action_points(Side::Overlord, 3).unwrap();
    assert_eq!(game.spend_action_points(Side::Overlord, 4), Err(GameError::InsufficientActionPoints(4)));
    game.lose_action_points_if_able(Side::Overlord, 5);
    assert_eq!(game.player(Side::Overlord).actions, 0);
    game.score_points(Side::Champion, 2).unwrap();
    assert_eq!(game.player(Side::Champion).score, 2);
    assert_eq!(game.player(Side::Overlord).score, 0);
}

#[test]
fn remove_curses_stops_at_zero() {
    let mut game = new_game();
    game.champion.curses = 2;
    game.remove_curses(1);
    assert_eq!(game.champion.curses, 1);
    game.remove_curses(5);
    assert_eq!(game.champion.curses, 0);
}

#[test]
fn player_side_finds_seat() {
    let game = new_game();
    assert_eq!(game.player_side(PlayerId::Database(1)), Ok(Side::Champion));
    assert_eq!(game.player_side(PlayerId::AI(AIPlayer::DebugOverlord)), Ok(Side::Overlord));
    assert_eq!(game.player_side(PlayerId::Database(2)), Err(GameError::PlayerNotInGame(PlayerId::Database(2))));
}

#[test]
fn queries_select_cards() {
    let mut game = new_game();
    let a = game.add_card(Side::Overlord, definition(CardType::Project, Side::Overlord), CardPosition::Room(RoomId::RoomA, RoomLocation::Occupant)).unwrap();
    let _b = game.add_card(Side::Overlord, definition(CardType::Minion, Side::Overlord), CardPosition::Room(RoomId::RoomA, RoomLocation::Defender)).unwrap();
    let _c = game.add_card(Side::Overlord, definition(CardType::Scheme, Side::Overlord), CardPosition::Hand(Side::Overlord)).unwrap();
    assert_eq!(occupants(&game, RoomId::RoomA), vec![a]);
    assert_eq!(card_count(&game, Side::Overlord, CardFilter::InPosition(CardPosition::Hand(Side::Overlord))), 1);
    assert_eq!(card_list(&game, Side::Overlord, CardFilter::TypeInPosition(CardType::Minion, CardPosition::Room(RoomId::RoomA, RoomLocation::Defender))).len(), 1);
    assert_eq!(raze_cost(&game, a), 0);
    assert_eq!(played_position(&game, Side::Overlord, a, CardTarget::Room(RoomId::RoomB)), Some(CardPosition::Room(RoomId::RoomB, RoomLocation::Occupant)));
    assert_eq!(played_position(&game, Side::Overlord, a, CardTarget::NoTarget), None);
}

#[test]
fn top_of_deck_takes_latest_cards() {
    let mut game = new_game();
    let a = game.add_card(Side::Champion, definition(CardType::Spell, Side::Champion), CardPosition::Deck(Side::Champion)).unwrap();
    let b = game.add_card(Side::Champion, definition(CardType::Spell, Side::Champion), CardPosition::Deck(Side::Champion)).unwrap();
    let c = game.add_card(Side::Champion, definition(CardType::Spell, Side::Champion), CardPosition::Deck(Side::Champion)).unwrap();
    let top = top_of_deck(&game, Side::Champion, 2);
    assert_eq!(top.len(), 2);
    assert!(top.contains(&b) && top.contains(&c));
    assert!(!top.contains(&a));
    assert_eq!(top_of_deck(&game, Side::Champion, 10).len(), 3);
}

#[test]
fn draw_cards_moves_top_cards_to_hand() {
    let mut game = new_game();
    let a = game.add_card(Side::Overlord, definition(CardType::Scheme, Side::Overlord), CardPosition::Deck(Side::Overlord)).unwrap();
    let b = game.add_card(Side::Overlord, definition(CardType::Scheme, Side::Overlord), CardPosition::Deck(Side::Overlord)).unwrap();
    let drawn = draw_cards(&mut game, Side::Overlord, 1).unwrap();
    assert_eq!(drawn, vec![b]);
    assert_eq!(game.card(b).position, CardPosition::Hand(Side::Overlord));
    assert_eq!(game.card(a).position, CardPosition::Deck(Side::Overlord));
    let rest = draw_cards(&mut game, Side::Overlord, 5).unwrap();
    assert_eq!(rest, vec![a]);
    assert!(draw_cards(&mut game, Side::Overlord, 2).unwrap().is_empty());
}

#[test]
fn draw_cards_fails_without_sorting_keys() {
    let mut game = new_game();
    game.add_card(Side::Overlord, definition(CardType::Scheme, Side::Overlord), CardPosition::Deck(Side::Overlord)).unwrap();
    game.info.next_sorting_key = u64::MAX;
    assert_eq!(draw_cards(&mut game, Side::Overlord, 1), Err(GameError::ValueOutOfRange));
}

#[test]
fn random_cards_come_from_the_position() {
    let mut game = new_game();
    for _ in 0..4 {
        game.add_card(Side::Champion, definition(CardType::Spell, Side::Champion), CardPosition::Hand(Side::Champion)).unwrap();
    }
    game.add_card(Side::Champion, definition(CardType::Spell, Side::Champion), CardPosition::Deck(Side::Champion)).unwrap();
    let chosen = random_cards_in_position(&mut game, Side::Champion, CardPosition::Hand(Side::Champion), 2);
    assert_eq!(chosen.len(), 2);
    assert_ne!(chosen[0], chosen[1]);
    for id in chosen {
        assert_eq!(game.card(id).position, CardPosition::Hand(Side::Champion));
    }
}

#[test]
fn damage_discards_from_hand() {
    let mut game = new_game();
    for _ in 0..3 {
        game.add_card(Side::Champion, definition(CardType::Spell, Side::Champion), CardPosition::Hand(Side::Champion)).unwrap();
    }
    deal_damage(&mut game, 2).unwrap();
    assert_eq!(card_count(&game, Side::Champion, CardFilter::InPosition(CardPosition::Hand(Side::Champion))), 1);
    assert_eq!(card_count(&game, Side::Champion, CardFilter::InPosition(CardPosition::DiscardPile(Side::Champion))), 2);
    assert_eq!(game.info.phase, GamePhase::Play);
}

#[test]
fn damage_beyond_hand_ends_game() {
    let mut game = new_game();
    game.add_card(Side::Champion, definition(CardType::Spell, Side::Champion), CardPosition::Hand(Side::Champion)).unwrap();
    deal_damage(&mut game, 2).unwrap();
    assert_eq!(game.info.phase, GamePhase::GameOver(Side::Overlord));
    assert_eq!(card_count(&game, Side::Champion, CardFilter::InPosition(CardPosition::Hand(Side::Champion))), 0);
}

#[test]
fn check_wf_spots_misplaced_ids() {
    let mut game = new_game();
    let a = game.add_card(Side::Champion, definition(CardType::Spell, Side::Champion), CardPosition::Hand(Side::Champion)).unwrap();
    assert!(game.check_wf());
    game.champion_cards[a.index].id = CardId { side: Side::Champion, index: 5 };
    assert!(!game.check_wf());
    game.champion_cards[a.index].id = a;
    assert!(game.check_wf());
    game.overlord.prompt_queue.push(spelldawn_rules::game_actions::GamePrompt::PlayCardBrowser(
        spelldawn_rules::game_actions::PlayCardBrowser {
            initiated_by: spelldawn_rules::primitives::AbilityId { card_id: a, index: 0 },
            cards: vec![CardId { side: Side::Overlord, index: 3 }],
            unplayed_action: spelldawn_rules::game_actions::UnplayedAction::Keep,
        },
    ));
    assert!(!game.check_wf());
}
