use spelldawn_rules::adventure::{
    handle_adventure_action, AdventureAction, AdventureChoiceScreen, AdventureError,
    AdventureState, CollectionEntry, Coins, DraftChoice, DraftData, RegionId, TileEntity,
    TilePosition, TileState,
};
use spelldawn_rules::primitives::CardName;

fn pos(x: i32, y: i32) -> TilePosition {
    TilePosition { x, y }
}

fn state() -> AdventureState {
    AdventureState {
        choice_screen: None,
        tiles: vec![
            TileState {
                position: pos(0, 0),
                entity: Some(TileEntity::Explore { region: RegionId(2), cost: Coins(50) }),
            },
            TileState {
                position: pos(1, 0),
                entity: Some(TileEntity::Draft {
                    cost: Coins(25),
                    data: DraftData {
                        choices: vec![
                            DraftChoice { card: CardName::Frog, quantity: 2 },
                            DraftChoice { card: CardName::Scout, quantity: 1 },
                        ],
                    },
                }),
            },
            TileState { position: pos(2, 0), entity: Some(TileEntity::Shop) },
            TileState { position: pos(3, 0), entity: None },
        ],
        coins: Coins(100),
        revealed_regions: vec![RegionId(1)],
        collection: vec![CollectionEntry { card: CardName::Scout, quantity: 3 }],
    }
}

#[test]
fn abandon_ends_adventure() {
    let mut s = state();
    assert_eq!(handle_adventure_action(&mut s, &AdventureAction::AbandonAdventure), Ok(()));
    assert_eq!(s.choice_screen, Some(AdventureChoiceScreen::AdventureOver));
    assert_eq!(s.coins, Coins(100));
}

#[test]
fn explore_pays_and_reveals_region() {
    let mut s = state();
    handle_adventure_action(&mut s, &AdventureAction::TileAction(pos(0, 0))).unwrap();
    assert_eq!(s.coins, Coins(50));
    assert_eq!(s.revealed_regions, vec![RegionId(1), RegionId(2)]);
    assert!(s.tiles[0].entity.is_none());
    assert!(s.choice_screen.is_none());
}

#[test]
fn explore_of_revealed_region_keeps_it_once() {
    let mut s = state();
    s.revealed_regions = vec![RegionId(2)];
    handle_adventure_action(&mut s, &AdventureAction::TileAction(pos(0, 0))).unwrap();
    assert_eq!(s.revealed_regions, vec![RegionId(2)]);
}

#[test]
fn draft_tile_opens_draft_then_pick_adds_card() {
    let mut s = state();
    handle_adventure_action(&mut s, &AdventureAction::TileAction(pos(1, 0))).unwrap();
    assert_eq!(s.coins, Coins(75));
    assert_eq!(s.choice_screen, Some(AdventureChoiceScreen::Draft(pos(1, 0))));
    assert_eq!(
        handle_adventure_action(&mut s, &AdventureAction::TileAction(pos(0, 0))),
        Err(AdventureError::MandatoryChoiceActive)
    );
    handle_adventure_action(&mut s, &AdventureAction::DraftCard(0)).unwrap();
    assert!(s.choice_screen.is_none());
    assert_eq!(
        s.collection,
        vec![
            CollectionEntry { card: CardName::Scout, quantity: 3 },
            CollectionEntry { card: CardName::Frog, quantity: 2 },
        ]
    );
}

#[test]
fn draft_pick_of_owned_card_adds_copies() {
    let mut s = state();
    handle_adventure_action(&mut s, &AdventureAction::TileAction(pos(1, 0))).unwrap();
    handle_adventure_action(&mut s, &AdventureAction::DraftCard(1)).unwrap();
    assert_eq!(s.collection, vec![CollectionEntry { card: CardName::Scout, quantity: 4 }]);
}

#[test]
fn draft_errors() {
    let mut s = state();
    assert_eq!(
        handle_adventure_action(&mut s, &AdventureAction::DraftCard(0)),
        Err(AdventureError::NoActiveDraft)
    );
    handle_adventure_action(&mut s, &AdventureAction::TileAction(pos(1, 0))).unwrap();
    assert_eq!(
        handle_adventure_action(&mut s, &AdventureAction::DraftCard(2)),
        Err(AdventureError::ChoiceOutOfBounds)
    );
    s.choice_screen = Some(AdventureChoiceScreen::Draft(pos(2, 0)));
    assert_eq!(
        handle_adventure_action(&mut s, &AdventureAction::DraftCard(0)),
        Err(AdventureError::InvalidDraftPosition)
    );
    s.choice_screen = Some(AdventureChoiceScreen::Draft(pos(9, 9)));
    assert_eq!(
        handle_adventure_action(&mut s, &AdventureAction::DraftCard(0)),
        Err(AdventureError::TileNotFound)
    );
    s.choice_screen = Some(AdventureChoiceScreen::Draft(pos(3, 0)));
    assert_eq!(
        handle_adventure_action(&mut s, &AdventureAction::DraftCard(0)),
        Err(AdventureError::NoActionForTile)
    );
}

#[test]
fn tile_errors_and_shop() {
    let mut s = state();
    assert_eq!(
        handle_adventure_action(&mut s, &AdventureAction::TileAction(pos(5, 5))),
        Err(AdventureError::TileNotFound)
    );
    assert_eq!(
        handle_adventure_action(&mut s, &AdventureAction::TileAction(pos(3, 0))),
        Err(AdventureError::NoActionForTile)
    );
    assert_eq!(handle_adventure_action(&mut s, &AdventureAction::TileAction(pos(2, 0))), Ok(()));
    assert_eq!(s.coins, Coins(100));
    assert!(s.choice_screen.is_none());
}

#[test]
fn choice_screen_refuses_unaffordable_tile() {
    let mut s = state();
    s.coins = Coins(0);
    s.choice_screen = Some(AdventureChoiceScreen::AdventureOver);
    assert_eq!(
        handle_adventure_action(&mut s, &AdventureAction::TileAction(pos(0, 0))),
        Err(AdventureError::MandatoryChoiceActive)
    );
    assert_eq!(s.coins, Coins(0));
}
