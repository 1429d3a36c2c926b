use spelldawn_rules::card_definition::{CardConfig, CardDefinition, CardStats, Cost};
use spelldawn_rules::card_icons::{build, mana_card_icon, CardIconType, CardViewContext};
use spelldawn_rules::game_state::{CardPosition, GamePhase, GameState, TurnData};
use spelldawn_rules::primitives::{
    AttackBoost, CardName, CardType, GameId, PlayerId, Rarity, SchemePoints, School, Side,
};

fn definition(mana: Option<u32>, stats: CardStats) -> CardDefinition {
    CardDefinition {
        name: CardName::Greataxe,
        cost: Cost { mana, actions: 1, custom_cost: None },
        card_type: CardType::Artifact,
        subtypes: vec![],
        side: Side::Champion,
        school: School::Time,
        rarity: Rarity::Common,
        abilities: vec![],
        config: CardConfig { stats, faction: None },
    }
}

#[test]
fn mana_icon_shows_value() {
    let icon = mana_card_icon(4);
    assert_eq!(icon.icon_type, CardIconType::Mana);
    assert_eq!(icon.text, "4");
}

#[test]
fn weapon_icons() {
    let stats = CardStats {
        base_attack: Some(3),
        attack_boost: Some(AttackBoost { cost: 2, bonus: 1 }),
        ..CardStats::empty()
    };
    let d = definition(Some(3), stats);
    let icons = build(&CardViewContext::Default(&d), true);
    let top = icons.top_left_icon.unwrap();
    assert_eq!(top.icon_type, CardIconType::Mana);
    assert_eq!(top.text, "3");
    let bottom = icons.bottom_right_icon.unwrap();
    assert_eq!(bottom.icon_type, CardIconType::Attack);
    assert_eq!(bottom.text, "3");
    assert!(icons.bottom_left_icon.is_none());
    assert!(icons.arena_icon.is_none());
}

#[test]
fn hidden_card_shows_no_stats() {
    let d = definition(Some(3), CardStats { shield: Some(2), ..CardStats::empty() });
    let icons = build(&CardViewContext::Default(&d), false);
    assert!(icons.top_left_icon.is_none());
    assert!(icons.bottom_left_icon.is_none());
    assert!(icons.bottom_right_icon.is_none());
}

#[test]
fn scheme_icons() {
    let d = definition(
        None,
        CardStats {
            scheme_points: Some(SchemePoints { level_requirement: 4, points: 30 }),
            ..CardStats::empty()
        },
    );
    let icons = build(&CardViewContext::Default(&d), true);
    let top = icons.top_left_icon.unwrap();
    assert_eq!(top.icon_type, CardIconType::LevelRequirement);
    assert_eq!(top.text, "4");
    let bottom = icons.bottom_right_icon.unwrap();
    assert_eq!(bottom.icon_type, CardIconType::Points);
    assert_eq!(bottom.text, "30");
}

#[test]
fn health_raze_and_shield_icons() {
    let d = definition(Some(1), CardStats { health: Some(5), shield: Some(2), raze_cost: Some(4), ..CardStats::empty() });
    let icons = build(&CardViewContext::Default(&d), true);
    assert_eq!(icons.bottom_right_icon.as_ref().unwrap().icon_type, CardIconType::Health);
    assert_eq!(icons.bottom_right_icon.unwrap().text, "5");
    assert_eq!(icons.bottom_left_icon.as_ref().unwrap().icon_type, CardIconType::Shield);
    assert_eq!(icons.bottom_left_icon.unwrap().text, "2");
    let r = definition(Some(1), CardStats { raze_cost: Some(4), ..CardStats::empty() });
    let icons = build(&CardViewContext::Default(&r), true);
    assert_eq!(icons.bottom_right_icon.as_ref().unwrap().icon_type, CardIconType::Raze);
    assert_eq!(icons.bottom_right_icon.unwrap().text, "4");
}

#[test]
fn arena_icon_prefers_stored_mana() {
    let mut game = GameState::new(
        GameId(1),
        PlayerId::Database(1),
        PlayerId::Database(2),
        GamePhase::Play,
        TurnData { side: Side::Champion, turn_number: 1 },
    );
    let id = game
        .add_card(Side::Champion, definition(Some(1), CardStats::empty()), CardPosition::ArenaItem)
        .unwrap();
    game.champion_cards[0].progress = 2;
    let icons = build(&CardViewContext::Game(&game, id), false);
    assert_eq!(icons.arena_icon.as_ref().unwrap().icon_type, CardIconType::LevelCounter);
    assert_eq!(icons.arena_icon.unwrap().text, "2");
    game.set_stored_mana(id, 6);
    let icons = build(&CardViewContext::Game(&game, id), true);
    assert_eq!(icons.arena_icon.as_ref().unwrap().icon_type, CardIconType::Mana);
    assert_eq!(icons.arena_icon.unwrap().text, "6");
    assert_eq!(icons.top_left_icon.unwrap().text, "1");
}
