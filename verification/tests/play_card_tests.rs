use spelldawn_rules::card_definition::{CardConfig, CardDefinition, CardStats, Cost};
use spelldawn_rules::cards_beryl::{haste_resonator, CardMetadata};
use spelldawn_rules::error::GameError;
use spelldawn_rules::game_actions::{
    ButtonPrompt, CardButtonPromptAction, CardPromptAction, CardTarget, CardTargetKind,
    GamePrompt, PlayCardBrowser, PromptAction, PromptContext, UnplayedAction,
};
use spelldawn_rules::game_state::{
    CardPosition, GameEvent, GamePhase, GameState, HistoryEvent, PlayCardStep, PlayInitiatedBy,
    RoomLocation, TurnData,
};
use spelldawn_rules::game_updates::{UpdateState, UpdateTracker};
use spelldawn_rules::play_card::{
    card_limit_prompt, has_non_play_prompt, initiate, invoke_play_card_browser, run,
};
use spelldawn_rules::primitives::{
    AbilityId, CardId, CardName, CardSubtype, CardType, GameId, PlayerId, Rarity, RoomId,
    School, Side,
};

fn card(card_type: CardType, side: Side, subtypes: Vec<CardSubtype>, mana: u32) -> CardDefinition {
    CardDefinition {
        name: CardName::SimpleAxe,
        cost: Cost { mana: Some(mana), actions: 1, custom_cost: None },
        card_type,
        subtypes,
        side,
        school: School::Law,
        rarity: Rarity::Common,
        abilities: vec![],
        config: CardConfig { stats: CardStats::empty(), faction: None },
    }
}

fn new_game() -> GameState {
    let mut game = GameState::new(
        GameId(1),
        PlayerId::Database(1),
        PlayerId::Database(2),
        GamePhase::Play,
        TurnData { side: Side::Champion, turn_number: 1 },
    );
    game.champion.actions = 3;
    game.champion.mana = 5;
    game
}

#[test]
fn playing_a_spell() {
    let mut game = new_game();
    let id = game.add_card(Side::Champion, card(CardType::Spell, Side::Champion, vec![], 2), CardPosition::Hand(Side::Champion)).unwrap();
    initiate(&mut game, id, CardTarget::NoTarget).unwrap();
    assert!(game.play_card.is_none());
    assert_eq!(game.card(id).position, CardPosition::DiscardPile(Side::Champion));
    assert!(game.card(id).face_up);
    assert_eq!(game.champion.mana, 3);
    assert_eq!(game.champion.actions, 2);
    assert_eq!(game.events.last(), Some(&GameEvent::PlayCard(id, CardTarget::NoTarget)));
    assert_eq!(
        game.history.last().unwrap().event,
        HistoryEvent::PlayCard(id, CardTarget::NoTarget, PlayInitiatedBy::GameAction)
    );
}

#[test]
fn playing_a_project_into_a_room() {
    let mut game = new_game();
    game.overlord.actions = 1;
    game.overlord.mana = 1;
    let id = game.add_card(Side::Overlord, card(CardType::Project, Side::Overlord, vec![], 1), CardPosition::Hand(Side::Overlord)).unwrap();
    initiate(&mut game, id, CardTarget::Room(RoomId::RoomB)).unwrap();
    assert_eq!(game.card(id).position, CardPosition::Room(RoomId::RoomB, RoomLocation::Occupant));
    assert!(!game.card(id).face_up);
    // A card played face down is paid for when it is revealed.
    assert_eq!(game.overlord.mana, 1);
    assert_eq!(game.overlord.actions, 0);
}

#[test]
fn only_one_play_at_a_time() {
    let mut game = new_game();
    let id = game.add_card(Side::Champion, card(CardType::Spell, Side::Champion, vec![], 1), CardPosition::Hand(Side::Champion)).unwrap();
    game.play_card = Some(spelldawn_rules::game_state::PlayCardData {
        card_id: id,
        initiated_by: PlayInitiatedBy::GameAction,
        target: CardTarget::NoTarget,
        step: PlayCardStep::Begin,
    });
    assert_eq!(initiate(&mut game, id, CardTarget::NoTarget), Err(GameError::PlayAlreadyInProgress));
}

#[test]
fn insufficient_mana_fails() {
    let mut game = new_game();
    game.champion.mana = 1;
    let id = game.add_card(Side::Champion, card(CardType::Spell, Side::Champion, vec![], 4), CardPosition::Hand(Side::Champion)).unwrap();
    assert_eq!(initiate(&mut game, id, CardTarget::NoTarget), Err(GameError::InsufficientMana(4)));
}

#[test]
fn weapon_limit_asks_to_sacrifice() {
    let mut game = new_game();
    let w1 = game.add_card(Side::Champion, card(CardType::Artifact, Side::Champion, vec![CardSubtype::Weapon], 0), CardPosition::ArenaItem).unwrap();
    let w2 = game.add_card(Side::Champion, card(CardType::Artifact, Side::Champion, vec![CardSubtype::Weapon], 0), CardPosition::ArenaItem).unwrap();
    let w3 = game.add_card(Side::Champion, card(CardType::Artifact, Side::Champion, vec![CardSubtype::Weapon], 0), CardPosition::Hand(Side::Champion)).unwrap();
    initiate(&mut game, w3, CardTarget::NoTarget).unwrap();
    assert!(game.play_card.is_some());
    match game.champion.prompt_queue.last().unwrap() {
        GamePrompt::ButtonPrompt(p) => {
            assert_eq!(p.context, Some(PromptContext::CardLimit(CardType::Artifact, Some(CardSubtype::Weapon))));
            assert_eq!(
                p.responses,
                vec![
                    PromptAction::CardAction(CardPromptAction::Sacrifice(w1)),
                    PromptAction::CardAction(CardPromptAction::Sacrifice(w2)),
                    PromptAction::CardAction(CardPromptAction::AbortPlayingCard),
                ]
            );
        }
        _ => panic!("expected a button prompt"),
    }
    assert_eq!(run(&mut game), Ok(()));
    assert!(game.play_card.is_some());
    game.champion.prompt_queue.clear();
    run(&mut game).unwrap();
    assert!(game.play_card.is_none());
    assert_eq!(game.card(w3).position, CardPosition::ArenaItem);
}

#[test]
fn limit_prompt_and_prompt_queue() {
    let ids = vec![CardId::new(Side::Champion, 0)];
    match card_limit_prompt(&ids, PromptContext::CardLimit(CardType::Ally, None)) {
        GamePrompt::ButtonPrompt(p) => assert_eq!(p.responses.len(), 2),
        _ => panic!("expected a button prompt"),
    }
    let browser = GamePrompt::PlayCardBrowser(PlayCardBrowser {
        initiated_by: AbilityId { card_id: CardId::new(Side::Champion, 0), index: 0 },
        cards: vec![],
        unplayed_action: UnplayedAction::Keep,
    });
    assert!(!has_non_play_prompt(&vec![]));
    assert!(!has_non_play_prompt(&vec![browser]));
    let button = GamePrompt::ButtonPrompt(ButtonPrompt { context: None, responses: vec![] });
    assert!(has_non_play_prompt(&vec![button.clone()]));
    let later_browser = GamePrompt::PlayCardBrowser(PlayCardBrowser {
        initiated_by: AbilityId { card_id: CardId::new(Side::Champion, 0), index: 0 },
        cards: vec![],
        unplayed_action: UnplayedAction::Keep,
    });
    assert!(has_non_play_prompt(&vec![later_browser, button]));
}

#[test]
fn play_card_browser_discards_unplayed() {
    let mut game = new_game();
    let a = game.add_card(Side::Champion, card(CardType::Spell, Side::Champion, vec![], 0), CardPosition::Hand(Side::Champion)).unwrap();
    let b = game.add_card(Side::Champion, card(CardType::Spell, Side::Champion, vec![], 0), CardPosition::Hand(Side::Champion)).unwrap();
    let source = AbilityId { card_id: a, index: 0 };
    game.push_prompt(
        Side::Champion,
        GamePrompt::PlayCardBrowser(PlayCardBrowser {
            initiated_by: source,
            cards: vec![a, b],
            unplayed_action: UnplayedAction::Discard,
        }),
    );
    assert_eq!(
        invoke_play_card_browser(&mut game, Side::Champion, Some(CardId::new(Side::Overlord, 0))),
        Err(GameError::UnexpectedPromptCard(CardId::new(Side::Overlord, 0)))
    );
    game.push_prompt(Side::Champion, GamePrompt::ButtonPrompt(ButtonPrompt { context: None, responses: vec![] }));
    invoke_play_card_browser(&mut game, Side::Champion, Some(a)).unwrap();
    assert!(game.champion.prompt_queue.is_empty());
    assert_eq!(game.card(b).position, CardPosition::DiscardPile(Side::Champion));
    assert_eq!(game.card(a).position, CardPosition::Hand(Side::Champion));
}

#[test]
fn actions_and_targets() {
    let prompt = ButtonPrompt::card_actions(vec![CardPromptAction::EndRaid, CardPromptAction::Continue]);
    assert!(prompt.context.is_none());
    assert_eq!(
        prompt.responses,
        vec![
            PromptAction::CardAction(CardPromptAction::EndRaid),
            PromptAction::CardAction(CardPromptAction::Continue),
        ]
    );
    let g = GamePrompt::ButtonPrompt(prompt);
    assert!(g.as_button_prompt().is_ok());
    let b = GamePrompt::PlayCardBrowser(PlayCardBrowser {
        initiated_by: AbilityId { card_id: CardId::new(Side::Champion, 0), index: 0 },
        cards: vec![],
        unplayed_action: UnplayedAction::Keep,
    });
    assert_eq!(b.as_button_prompt().err(), Some(GameError::ExpectedButtonPrompt));
    assert_eq!(CardTarget::Room(RoomId::Crypts).room_id(), Ok(RoomId::Crypts));
    assert_eq!(
        CardTarget::NoTarget.room_id(),
        Err(GameError::ExpectedRoomTarget(CardTarget::NoTarget))
    );
    assert_eq!(CardTarget::NoTarget.kind(), CardTargetKind::NoTarget);
    assert_eq!(CardTarget::Room(RoomId::Vault).kind(), CardTargetKind::Room);
    let action = CardButtonPromptAction::new(CardId::new(Side::Overlord, 2), CardPromptAction::EndRaid);
    assert_eq!(action.card_id, CardId::new(Side::Overlord, 2));
    let tracker = UpdateTracker::new(UpdateState::Push);
    assert_eq!(tracker.state, UpdateState::Push);
    assert!(tracker.steps.is_empty());
}

#[test]
fn face_up_card_without_mana_cost_fails() {
    let mut game = new_game();
    let mut definition = card(CardType::Spell, Side::Champion, vec![], 0);
    definition.cost.mana = None;
    let id = game.add_card(Side::Champion, definition, CardPosition::Hand(Side::Champion)).unwrap();
    assert_eq!(initiate(&mut game, id, CardTarget::NoTarget), Err(GameError::MissingManaCost(id)));
}

#[test]
fn minion_without_room_has_no_position() {
    let mut game = new_game();
    game.overlord.actions = 1;
    let id = game.add_card(Side::Overlord, card(CardType::Minion, Side::Overlord, vec![], 0), CardPosition::Hand(Side::Overlord)).unwrap();
    assert_eq!(initiate(&mut game, id, CardTarget::NoTarget), Err(GameError::NoValidPosition(id)));
}

#[test]
fn finished_play_is_dispatched_to_abilities() {
    let mut game = GameState::new(
        GameId(1),
        PlayerId::Database(1),
        PlayerId::Database(2),
        GamePhase::Play,
        TurnData { side: Side::Overlord, turn_number: 1 },
    );
    game.overlord.actions = 1;
    game.overlord.mana = 5;
    game.add_card(
        Side::Overlord,
        haste_resonator(CardMetadata { is_upgraded: false }),
        CardPosition::Room(RoomId::RoomA, RoomLocation::Occupant),
    )
    .unwrap();
    game.overlord.counters.play_card_actions = 3;
    let id = game.add_card(Side::Overlord, card(CardType::Spell, Side::Overlord, vec![], 1), CardPosition::Hand(Side::Overlord)).unwrap();
    initiate(&mut game, id, CardTarget::NoTarget).unwrap();
    assert!(game.play_card.is_none());
    assert_eq!(game.events.last(), Some(&GameEvent::PlayCard(id, CardTarget::NoTarget)));
    assert_eq!(game.overlord.actions, 1);
    assert_eq!(game.overlord.mana, 4);
}
