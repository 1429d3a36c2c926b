use spelldawn_rules::access::{
    access_action_for_card, can_raze_project, can_score_card, handle_raze_card,
    handle_score_card, AccessPhase,
};
use spelldawn_rules::card_definition::{
    Ability, AbilityText, AbilityType, CardConfig, CardDefinition, CardStats, Cost, Mutation,
    RaidOutcome, Requirement,
};
use spelldawn_rules::card_helpers::delegates::{
    on_card_access, on_raid_access_start, on_raid_end, on_raid_successful,
};
use spelldawn_rules::error::GameError;
use spelldawn_rules::game_actions::{
    AccessPhaseAction, GamePrompt, PromptAction, RazeCardActionType,
};
use spelldawn_rules::game_state::{
    CardPosition, GameEvent, GamePhase, GameState, HistoryEvent, InternalRaidPhase, RaidData,
    RoomLocation, TurnData,
};
use spelldawn_rules::primitives::{
    CardId, CardName, CardType, GameId, PlayerId, RaidId, Rarity, RoomId, SchemePoints, School,
    Side,
};
use spelldawn_rules::raids::{
    current_actions, current_prompt, handle_action, handle_initiate_action,
};

fn card(card_type: CardType, stats: CardStats) -> CardDefinition {
    CardDefinition {
        name: CardName::Machinate,
        cost: Cost { mana: None, actions: 1, custom_cost: None },
        card_type,
        subtypes: vec![],
        side: Side::Overlord,
        school: School::Law,
        rarity: Rarity::Common,
        abilities: vec![],
        config: CardConfig { stats, faction: None },
    }
}

fn new_game() -> GameState {
    GameState::new(
        GameId(1),
        PlayerId::Database(1),
        PlayerId::Database(2),
        GamePhase::Play,
        TurnData { side: Side::Champion, turn_number: 1 },
    )
}

fn scheme() -> CardDefinition {
    card(
        CardType::Scheme,
        CardStats { scheme_points: Some(SchemePoints { level_requirement: 2, points: 15 }), ..CardStats::empty() },
    )
}

fn project(raze: u32) -> CardDefinition {
    card(CardType::Project, CardStats { raze_cost: Some(raze), ..CardStats::empty() })
}

fn access_raid(accessed: Vec<CardId>) -> RaidData {
    RaidData {
        raid_id: RaidId(1),
        target: RoomId::RoomA,
        internal_phase: InternalRaidPhase::Access,
        encounter: None,
        accessed,
        jump_request: None,
    }
}

#[test]
fn initiate_raid_spends_action() {
    let mut game = new_game();
    assert_eq!(
        handle_initiate_action(&mut game, Side::Champion, RoomId::Vault),
        Err(GameError::CannotInitiateRaid)
    );
    game.champion.actions = 2;
    assert_eq!(
        handle_initiate_action(&mut game, Side::Overlord, RoomId::Vault),
        Err(GameError::CannotInitiateRaid)
    );
    handle_initiate_action(&mut game, Side::Champion, RoomId::Vault).unwrap();
    assert_eq!(game.champion.actions, 1);
    let raid = game.info.raid.as_ref().unwrap();
    assert_eq!(raid.raid_id, RaidId(1));
    assert_eq!(raid.target, RoomId::Vault);
    assert_eq!(game.info.next_raid_id, 2);
    assert_eq!(game.history.last().unwrap().event, HistoryEvent::RaidBegan(RoomId::Vault));
    assert_eq!(
        handle_initiate_action(&mut game, Side::Champion, RoomId::Vault),
        Err(GameError::CannotInitiateRaid)
    );
}

#[test]
fn access_offers_score_and_end_raid() {
    let mut game = new_game();
    let s = game.add_card(Side::Overlord, scheme(), CardPosition::Room(RoomId::RoomA, RoomLocation::Occupant)).unwrap();
    game.info.raid = Some(access_raid(vec![s]));
    assert!(can_score_card(&game, s));
    assert_eq!(access_action_for_card(&game, s), Some(AccessPhaseAction::ScoreCard(s)));
    let offered = current_actions(&game, Side::Champion).unwrap().unwrap();
    assert_eq!(
        offered,
        vec![
            PromptAction::AccessPhaseAction(AccessPhaseAction::ScoreCard(s)),
            PromptAction::AccessPhaseAction(AccessPhaseAction::EndRaid),
        ]
    );
    assert_eq!(current_actions(&game, Side::Overlord), Ok(None));
    match current_prompt(&game, Side::Champion).unwrap() {
        Some(GamePrompt::ButtonPrompt(p)) => assert_eq!(p.responses, offered),
        _ => panic!("expected a button prompt"),
    }
    assert_eq!(
        handle_action(&mut game, Side::Overlord, PromptAction::AccessPhaseAction(AccessPhaseAction::EndRaid)),
        Err(GameError::UnexpectedSide)
    );
    handle_action(&mut game, Side::Champion, PromptAction::AccessPhaseAction(AccessPhaseAction::ScoreCard(s))).unwrap();
    assert_eq!(game.champion.score, 15);
    assert_eq!(game.card(s).position, CardPosition::Scored(Side::Champion));
    assert!(game.card(s).face_up);
    assert!(game.events.contains(&GameEvent::ScoreCard(Side::Champion, s)));
    assert_eq!(
        current_actions(&game, Side::Champion).unwrap().unwrap(),
        vec![PromptAction::AccessPhaseAction(AccessPhaseAction::EndRaid)]
    );
    assert_eq!(
        handle_action(&mut game, Side::Champion, PromptAction::AccessPhaseAction(AccessPhaseAction::ScoreCard(s))),
        Err(GameError::UnexpectedAction)
    );
    handle_action(&mut game, Side::Champion, PromptAction::AccessPhaseAction(AccessPhaseAction::EndRaid)).unwrap();
    assert!(game.info.raid.is_none());
    assert_eq!(
        handle_action(&mut game, Side::Champion, PromptAction::AccessPhaseAction(AccessPhaseAction::EndRaid)),
        Err(GameError::NoActiveRaid)
    );
}

#[test]
fn raze_needs_mana() {
    let mut game = new_game();
    let p = game.add_card(Side::Overlord, project(3), CardPosition::Room(RoomId::RoomA, RoomLocation::Occupant)).unwrap();
    game.info.raid = Some(access_raid(vec![p]));
    assert!(!can_raze_project(&game, p));
    assert_eq!(access_action_for_card(&game, p), None);
    game.champion.mana = 5;
    assert!(can_raze_project(&game, p));
    assert_eq!(
        access_action_for_card(&game, p),
        Some(AccessPhaseAction::RazeCard(p, RazeCardActionType::Destroy, 3))
    );
    handle_raze_card(&mut game, p).unwrap();
    assert_eq!(game.champion.mana, 2);
    assert_eq!(game.card(p).position, CardPosition::DiscardPile(Side::Overlord));
    assert!(game.info.raid.as_ref().unwrap().accessed.is_empty());
}

#[test]
fn score_without_points_fails() {
    let mut game = new_game();
    let p = game.add_card(Side::Overlord, project(1), CardPosition::Room(RoomId::RoomA, RoomLocation::Occupant)).unwrap();
    game.info.raid = Some(access_raid(vec![p]));
    assert_eq!(handle_score_card(&mut game, p), Err(GameError::MissingSchemePoints(p)));
}

#[test]
fn unwrap_needs_access_action() {
    assert_eq!(
        AccessPhase::unwrap(PromptAction::EndTurnAction),
        Err(GameError::ExpectedAccessPhaseAction)
    );
    assert_eq!(
        AccessPhase::unwrap(PromptAction::AccessPhaseAction(AccessPhaseAction::EndRaid)),
        Ok(AccessPhaseAction::EndRaid)
    );
}

#[test]
fn jump_to_missing_minion_fails() {
    let mut game = new_game();
    let s = game.add_card(Side::Overlord, scheme(), CardPosition::Room(RoomId::RoomA, RoomLocation::Occupant)).unwrap();
    let mut raid = access_raid(vec![s]);
    raid.jump_request = Some(spelldawn_rules::game_state::RaidJumpRequest::EncounterMinion(s));
    game.info.raid = Some(raid);
    assert_eq!(
        handle_action(&mut game, Side::Champion, PromptAction::AccessPhaseAction(AccessPhaseAction::ScoreCard(s))),
        Err(GameError::MinionNotFound(s))
    );
}

#[test]
fn entering_access_selects_crypt_cards() {
    let mut game = new_game();
    let a = game.add_card(Side::Overlord, scheme(), CardPosition::DiscardPile(Side::Overlord)).unwrap();
    let _b = game.add_card(Side::Overlord, scheme(), CardPosition::Hand(Side::Overlord)).unwrap();
    let c = game.add_card(Side::Overlord, project(1), CardPosition::DiscardPile(Side::Overlord)).unwrap();
    let mut raid = access_raid(vec![]);
    raid.target = RoomId::Crypts;
    game.info.raid = Some(raid);
    assert_eq!(AccessPhase {}.enter(&mut game), Ok(None));
    assert_eq!(game.info.raid.as_ref().unwrap().accessed, vec![a, c]);
    assert!(game.card(a).revealed_to_champion);
    assert!(game.events.contains(&GameEvent::CardAccess(c)));
}

#[test]
fn entering_access_takes_top_of_vault() {
    let mut game = new_game();
    let _a = game.add_card(Side::Overlord, scheme(), CardPosition::Deck(Side::Overlord)).unwrap();
    let b = game.add_card(Side::Overlord, scheme(), CardPosition::Deck(Side::Overlord)).unwrap();
    let mut raid = access_raid(vec![]);
    raid.target = RoomId::Vault;
    game.info.raid = Some(raid);
    AccessPhase {}.enter(&mut game).unwrap();
    assert_eq!(game.info.raid.as_ref().unwrap().accessed, vec![b]);
}

fn with_ability(mut definition: CardDefinition, delegate: spelldawn_rules::card_definition::Delegate) -> CardDefinition {
    definition.abilities.push(Ability {
        ability_type: AbilityType::Standard,
        text: AbilityText::Text(vec![]),
        delegates: vec![delegate],
    });
    definition
}

#[test]
fn access_start_ability_can_end_the_raid() {
    let mut game = new_game();
    let a = game.add_card(Side::Overlord, scheme(), CardPosition::DiscardPile(Side::Overlord)).unwrap();
    game.add_card(
        Side::Overlord,
        with_ability(project(1), on_raid_access_start(Requirement::InPlay, Mutation::EndRaid(RaidOutcome::Failure))),
        CardPosition::Room(RoomId::RoomB, RoomLocation::Occupant),
    )
    .unwrap();
    let mut raid = access_raid(vec![]);
    raid.target = RoomId::Crypts;
    game.info.raid = Some(raid);
    assert_eq!(AccessPhase {}.enter(&mut game), Ok(None));
    assert!(game.info.raid.is_none());
    assert!(!game.card(a).revealed_to_champion);
    assert_eq!(
        game.events,
        vec![
            GameEvent::RaidAccessStart(RaidId(1)),
            GameEvent::RaidEnd(RaidId(1), RaidOutcome::Failure),
        ]
    );
}

#[test]
fn card_access_ability_acts_on_its_card() {
    let mut game = new_game();
    let trap = game
        .add_card(
            Side::Overlord,
            with_ability(scheme(), on_card_access(Requirement::ThisCard, Mutation::DealDamage(1))),
            CardPosition::DiscardPile(Side::Overlord),
        )
        .unwrap();
    let hand = game.add_card(Side::Champion, project(1), CardPosition::Hand(Side::Champion)).unwrap();
    let mut raid = access_raid(vec![]);
    raid.target = RoomId::Crypts;
    game.info.raid = Some(raid);
    assert_eq!(AccessPhase {}.enter(&mut game), Ok(None));
    assert_eq!(game.info.raid.as_ref().unwrap().accessed, vec![trap]);
    assert_eq!(game.card(hand).position, CardPosition::DiscardPile(Side::Champion));
    assert!(game.events.contains(&GameEvent::CardAccess(trap)));
}

#[test]
fn ending_the_raid_runs_success_and_end_abilities() {
    let mut game = new_game();
    let mut watcher = with_ability(project(1), on_raid_successful(Requirement::InPlay, Mutation::StoreMana(2)));
    watcher.abilities.push(Ability {
        ability_type: AbilityType::Standard,
        text: AbilityText::Text(vec![]),
        delegates: vec![on_raid_end(Requirement::InPlay, Mutation::LoseActionPointsIfAble(Side::Champion, 1))],
    });
    let card = game.add_card(Side::Overlord, watcher, CardPosition::Room(RoomId::RoomB, RoomLocation::Occupant)).unwrap();
    game.champion.actions = 2;
    game.info.raid = Some(access_raid(vec![]));
    AccessPhase {}.handle_action(&mut game, AccessPhaseAction::EndRaid).unwrap();
    assert!(game.info.raid.is_none());
    assert_eq!(game.card(card).stored_mana, 2);
    assert_eq!(game.champion.actions, 1);
    assert_eq!(game.events.last(), Some(&GameEvent::RaidEnd(RaidId(1), RaidOutcome::Success)));
    assert_eq!(
        AccessPhase {}.handle_action(&mut game, AccessPhaseAction::EndRaid),
        Err(GameError::NoActiveRaid)
    );
}
