use spelldawn_rules::adventure::{AdventureState, Coins};
use spelldawn_rules::debug_server::{
    add_coins, apply_debug_game_update, create_debug_game, debug_new_game_action,
    flip_viewpoint, handle_debug_action, join_game, reload_scene, reload_world_scene,
    saved_game_id, saved_player_id, DebugAction, DebugError, DebugServer, DebugStep, NamedDeck,
    NewGameDebugOptions, NewGameDeck,
};
use spelldawn_rules::card_definition::{CardConfig, CardDefinition, CardStats, Cost};
use spelldawn_rules::debug_server::{add_to_hand, card_definition_for};
use spelldawn_rules::error::GameError;
use spelldawn_rules::game_state::{CardPosition, GamePhase, GameState, TurnData};
use spelldawn_rules::primitives::{
    AIPlayer, CardName, CardType, GameId, PlayerId, Rarity, School, Side,
};

fn new_game() -> GameState {
    GameState::new(
        GameId(9),
        PlayerId::Database(1),
        PlayerId::Database(2),
        GamePhase::Play,
        TurnData { side: Side::Overlord, turn_number: 1 },
    )
}

#[test]
fn new_game_action_for_overlord() {
    let a = debug_new_game_action(Side::Overlord, GameId(5));
    assert_eq!(a.opponent, PlayerId::AI(AIPlayer::DebugChampion));
    assert_eq!(a.deck, NewGameDeck::NamedDeck(NamedDeck::CanonicalOverlord));
    assert_eq!(
        a.debug_options,
        Some(NewGameDebugOptions { deterministic: false, override_game_id: Some(GameId(5)) })
    );
    assert!(!a.tutorial);
    let b = debug_new_game_action(Side::Champion, GameId(5));
    assert_eq!(b.opponent, PlayerId::AI(AIPlayer::DebugOverlord));
    assert_eq!(b.deck, NewGameDeck::NamedDeck(NamedDeck::CanonicalChampion));
}

#[test]
fn create_debug_game_remembers_id() {
    let mut server = DebugServer::new();
    assert_eq!(server.current_game_id(), None);
    let a = create_debug_game(&mut server, Side::Champion);
    let id = server.current_game_id().unwrap();
    assert_eq!(a, debug_new_game_action(Side::Champion, id));
}

#[test]
fn saved_slots() {
    assert_eq!(saved_game_id(3), GameId(103));
    assert_eq!(saved_player_id(42), PlayerId::Database(42));
}

#[test]
fn reload_scenes() {
    let game = new_game();
    let r = reload_scene(PlayerId::Database(2), &game).unwrap();
    assert_eq!(r.game_id, GameId(9));
    assert_eq!(r.opponent_id, PlayerId::Database(1));
    assert_eq!(r.command.scene_name, "Game");
    assert!(!r.command.skip_if_current);
    assert_eq!(
        reload_scene(PlayerId::Database(3), &game).err(),
        Some(GameError::PlayerNotInGame(PlayerId::Database(3)))
    );
    assert_eq!(reload_world_scene().scene_name, "World");
}

#[test]
fn join_and_flip() {
    let mut game = new_game();
    let r = join_game(&mut game, Side::Champion, PlayerId::Database(8)).unwrap();
    assert_eq!(game.champion.id, PlayerId::Database(8));
    assert_eq!(r.opponent_id, PlayerId::Database(1));
    let f = flip_viewpoint(&mut game, PlayerId::Database(8)).unwrap();
    assert_eq!(game.overlord.id, PlayerId::Database(8));
    assert_eq!(game.champion.id, PlayerId::Database(1));
    assert_eq!(f.opponent_id, PlayerId::Database(1));
    flip_viewpoint(&mut game, PlayerId::Database(8)).unwrap();
    assert_eq!(game.overlord.id, PlayerId::Database(1));
    assert_eq!(game.champion.id, PlayerId::Database(8));
}

#[test]
fn game_updates() {
    let mut game = new_game();
    apply_debug_game_update(&mut game, Side::Champion, &DebugAction::AddMana(10)).unwrap();
    apply_debug_game_update(&mut game, Side::Champion, &DebugAction::AddActionPoints(2)).unwrap();
    apply_debug_game_update(&mut game, Side::Overlord, &DebugAction::AddScore(3)).unwrap();
    apply_debug_game_update(
        &mut game,
        Side::Overlord,
        &DebugAction::SetNamedPlayer(Side::Champion, AIPlayer::NoAction),
    )
    .unwrap();
    assert_eq!(game.champion.mana, 10);
    assert_eq!(game.champion.actions, 2);
    assert_eq!(game.overlord.score, 3);
    assert_eq!(game.champion.id, PlayerId::AI(AIPlayer::NoAction));
    assert_eq!(
        apply_debug_game_update(&mut game, Side::Champion, &DebugAction::AddMana(u32::MAX)),
        Err(GameError::ValueOutOfRange)
    );
    assert_eq!(game.champion.mana, 10);
}

#[test]
fn coins_are_added() {
    let mut state = AdventureState {
        choice_screen: None,
        tiles: vec![],
        coins: Coins(5),
        revealed_regions: vec![],
        collection: vec![],
    };
    add_coins(&mut state, Coins(20));
    assert_eq!(state.coins, Coins(25));
}

#[test]
fn debug_steps() {
    let mut server = DebugServer::new();
    assert_eq!(
        handle_debug_action(&mut server, &DebugAction::LoadGameState(1), None),
        Err(DebugError::ExpectedGameId)
    );
    assert_eq!(
        handle_debug_action(&mut server, &DebugAction::LoadGameState(1), Some(GameId(4))),
        Ok(DebugStep::LoadGame { game_slot: GameId(101), game_id: GameId(4) })
    );
    assert_eq!(
        handle_debug_action(&mut server, &DebugAction::SaveGameState(1), Some(GameId(4))),
        Ok(DebugStep::SaveGame { game_slot: GameId(101) })
    );
    assert_eq!(
        handle_debug_action(&mut server, &DebugAction::AddToHand(CardName::Frog), None),
        Ok(DebugStep::AddToHand(CardName::Frog))
    );
    assert_eq!(
        handle_debug_action(&mut server, &DebugAction::SavePlayerState(7), None),
        Ok(DebugStep::SavePlayer { player_slot: PlayerId::Database(7) })
    );
    let step = handle_debug_action(&mut server, &DebugAction::NewGame(Side::Overlord), None).unwrap();
    let id = server.current_game_id().unwrap();
    assert_eq!(step, DebugStep::InvokeNewGame(debug_new_game_action(Side::Overlord, id)));
    assert_eq!(
        handle_debug_action(&mut server, &DebugAction::JoinGame(Side::Champion), None),
        Ok(DebugStep::JoinGame { game_id: id, side: Side::Champion })
    );
}

#[test]
fn add_to_hand_turns_top_of_deck_into_the_card() {
    let plain = CardDefinition {
        name: CardName::Frog,
        cost: Cost { mana: None, actions: 1, custom_cost: None },
        card_type: CardType::Spell,
        subtypes: vec![],
        side: Side::Champion,
        school: School::Law,
        rarity: Rarity::Common,
        abilities: vec![],
        config: CardConfig { stats: CardStats::empty(), faction: None },
    };
    let mut game = new_game();
    let protector = card_definition_for(CardName::StalwartProtector).unwrap();
    add_to_hand(&mut game, Side::Champion, protector.clone()).unwrap();
    assert!(game.champion_cards.is_empty());
    let bottom = game.add_card(Side::Champion, plain.clone(), CardPosition::Deck(Side::Champion)).unwrap();
    let top = game.add_card(Side::Champion, plain, CardPosition::Deck(Side::Champion)).unwrap();
    add_to_hand(&mut game, Side::Champion, protector).unwrap();
    assert_eq!(game.card(top).position, CardPosition::Hand(Side::Champion));
    assert_eq!(game.card(top).definition.name, CardName::StalwartProtector);
    assert_eq!(game.card(bottom).position, CardPosition::Deck(Side::Champion));
    assert_eq!(game.card(bottom).definition.name, CardName::Frog);
    assert!(card_definition_for(CardName::Frog).is_none());
    assert_eq!(card_definition_for(CardName::LivingStone).unwrap().name, CardName::LivingStone);
}
