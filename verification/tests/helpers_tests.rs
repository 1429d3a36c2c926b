use spelldawn_rules::buttons::{resolve_button, Button, ButtonText, Icon};
use spelldawn_rules::card_definition::{
    AbilityFlag, AbilityText, AbilityType, CardStats, Cost, Delegate, EventDelegate, Faction,
    Flag, Keyword, Mutation, NumericOperator, QueryDelegate, Requirement, Scope, TextToken,
    Transformation,
};
use spelldawn_rules::card_helpers::abilities::{
    add_boost, combat_deal_damage, construct, encounter_boost, encounter_boost_text,
    level_up_override, store_mana_on_play,
};
use spelldawn_rules::card_helpers::delegates::{disallow, disallow_ability, on_played};
use spelldawn_rules::helpers::{
    add_number, at_dawn, attack, cost, health, keyword, mana_cost_text, number, on_score,
    scheme_points, sprite, text, this_card,
};
use spelldawn_rules::game_state::{GamePhase, GameState, TurnData};
use spelldawn_rules::primitives::{
    AbilityId, AttackBoost, CardId, CardName, CardSubtype, CardType, GameId, PlayerId,
    SchemePoints, Side,
};
use spelldawn_rules::tutorial::{steps, TutorialAction, TutorialStep, OPPONENT_SIDE, PLAYER_SIDE};
use spelldawn_rules::weapons::greataxe;

fn new_game() -> GameState {
    GameState::new(
        GameId(1),
        PlayerId::Database(1),
        PlayerId::Database(2),
        GamePhase::Play,
        TurnData { side: Side::Champion, turn_number: 1 },
    )
}

#[test]
fn text_helpers() {
    match text("Draw") {
        TextToken::Literal(s) => assert_eq!(s, "Draw"),
        _ => panic!("expected a literal"),
    }
    assert_eq!(number(2), TextToken::Number(NumericOperator::NoOperator, 2));
    assert_eq!(add_number(3), TextToken::Number(NumericOperator::Add, 3));
    assert_eq!(mana_cost_text(4), TextToken::Cost(4));
    assert_eq!(keyword(Keyword::Play), TextToken::Keyword(Keyword::Play));
    assert_eq!(cost(3), Cost { mana: Some(3), actions: 1, custom_cost: None });
    assert_eq!(sprite("Rexard/Axe").address, "Rexard/Axe");
}

#[test]
fn stats_helpers() {
    let a = attack(3, AttackBoost { cost: 2, bonus: 1 });
    assert_eq!(a.base_attack, Some(3));
    assert_eq!(a.attack_boost, Some(AttackBoost { cost: 2, bonus: 1 }));
    assert_eq!(a.health, None);
    assert_eq!(health(5), CardStats { health: Some(5), ..CardStats::empty() });
    let p = SchemePoints { level_requirement: 3, points: 10 };
    assert_eq!(scheme_points(p).scheme_points, Some(p));
}

#[test]
fn ability_helpers() {
    let dawn = at_dawn(AbilityText::Text(vec![]), Mutation::ClearBoost);
    assert_eq!(dawn.ability_type, AbilityType::Standard);
    assert_eq!(
        dawn.delegates,
        vec![Delegate::Dawn(EventDelegate { requirement: Requirement::InPlay, mutation: Mutation::ClearBoost })]
    );
    let score = on_score(AbilityText::EncounterBoost, Mutation::DealDamage(1));
    assert_eq!(
        score.delegates,
        vec![Delegate::ScoreScheme(EventDelegate { requirement: Requirement::ThisCard, mutation: Mutation::DealDamage(1) })]
    );
    let game = new_game();
    let scope = Scope { ability_id: AbilityId { card_id: CardId::new(Side::Champion, 0), index: 0 } };
    assert!(this_card(&game, scope, CardId::new(Side::Champion, 0)));
    assert!(!this_card(&game, scope, CardId::new(Side::Overlord, 0)));
}

#[test]
fn greataxe_definition() {
    let axe = greataxe();
    assert_eq!(axe.name, CardName::Greataxe);
    assert_eq!(axe.cost, Cost { mana: Some(3), actions: 1, custom_cost: None });
    assert_eq!(axe.card_type, CardType::Artifact);
    assert_eq!(axe.subtypes, vec![CardSubtype::Weapon]);
    assert_eq!(axe.config.stats.base_attack, Some(3));
    assert_eq!(axe.config.faction, Some(Faction::Infernal));
    assert_eq!(axe.abilities.len(), 1);
    assert_eq!(axe.abilities[0].ability_type, AbilityType::Encounter);
    assert_eq!(axe.abilities[0].delegates, encounter_boost().delegates);
}

#[test]
fn card_helper_abilities() {
    let boost = encounter_boost_text(Some(AttackBoost { cost: 2, bonus: 1 }));
    assert_eq!(boost[0], TextToken::Cost(2));
    assert_eq!(boost[1], TextToken::Number(NumericOperator::Add, 1));
    let c = construct();
    assert_eq!(
        c.delegates,
        vec![Delegate::MinionDefeated(EventDelegate { requirement: Requirement::ThisCard, mutation: Mutation::MoveToDiscardPile })]
    );
    let s = store_mana_on_play::<5>();
    assert_eq!(
        s.delegates[0],
        Delegate::CastCard(EventDelegate { requirement: Requirement::ThisCard, mutation: Mutation::StoreMana(5) })
    );
    let d = combat_deal_damage::<2>();
    assert_eq!(
        d.delegates,
        vec![Delegate::MinionCombatAbility(EventDelegate { requirement: Requirement::ThisCard, mutation: Mutation::DealDamage(2) })]
    );
    assert_eq!(level_up_override(Flag::Default(false)), Flag::Override(true));
    assert_eq!(
        on_played(Requirement::InPlay, Mutation::ClearBoost),
        Delegate::PlayCard(EventDelegate { requirement: Requirement::InPlay, mutation: Mutation::ClearBoost })
    );
    let _ = QueryDelegate { requirement: Requirement::Always, transformation: Transformation::Allow };
}

#[test]
fn flags() {
    let game = new_game();
    let scope = Scope { ability_id: AbilityId { card_id: CardId::new(Side::Champion, 0), index: 1 } };
    assert_eq!(spelldawn_rules::card_helpers::delegates::allow(&game, scope, &(), Flag::Default(false)), Flag::Default(true));
    assert_eq!(disallow(&game, scope, &(), Flag::Default(true)), Flag::Default(false));
    assert_eq!(spelldawn_rules::card_helpers::delegates::allow(&game, scope, &(), Flag::Override(false)), Flag::Override(false));
    assert_eq!(disallow(&game, scope, &(), Flag::Override(true)), Flag::Override(true));
    let f = disallow_ability(&game, scope, &(), AbilityFlag { flag: Flag::Default(true), disallowed_by: None });
    assert_eq!(f, AbilityFlag { flag: Flag::Default(false), disallowed_by: Some(scope.ability_id) });
}

#[test]
fn boost_adds_to_attack() {
    let mut game = new_game();
    let def = greataxe();
    let id = game.add_card(Side::Champion, def, spelldawn_rules::game_state::CardPosition::ArenaItem).unwrap();
    game.set_boost_count(id, 2);
    let scope = Scope { ability_id: AbilityId { card_id: id, index: 0 } };
    assert_eq!(add_boost(&game, scope, &id, 3), 5);
}

#[test]
fn buttons() {
    match resolve_button(Button::NoSummon) {
        ButtonText::Label(s) => assert_eq!(s, "Pass"),
        _ => panic!("expected a label"),
    }
    match resolve_button(Button::EndRaid) {
        ButtonText::Label(s) => assert_eq!(s, "End Raid"),
        _ => panic!("expected a label"),
    }
    assert!(matches!(resolve_button(Button::ShowDeck), ButtonText::Icon(Icon::Deck)));
    assert!(matches!(resolve_button(Button::CloseIcon), ButtonText::Icon(Icon::Close)));
}

#[test]
fn tutorial_steps() {
    let s = steps();
    assert_eq!(s.len(), 27);
    assert_eq!(PLAYER_SIDE, Side::Champion);
    assert_eq!(OPPONENT_SIDE, Side::Overlord);
    match &s[0] {
        TutorialStep::SetHand(side, cards) => {
            assert_eq!(*side, Side::Overlord);
            assert_eq!(cards, &vec![CardName::Frog]);
        }
        _ => panic!("expected SetHand"),
    }
    match &s[11] {
        TutorialStep::AwaitPlayerActions(actions) => assert_eq!(
            actions,
            &vec![TutorialAction::UseWeapon { weapon: CardName::SimpleAxe, target: CardName::Scout }]
        ),
        _ => panic!("expected AwaitPlayerActions"),
    }
}
