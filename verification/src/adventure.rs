//! Game rules for the 'adventure' deckbuilding/drafting game mode.

use vstd::prelude::*;

use crate::primitives::CardName;

verus! {

/// A position on the adventure map.
#[derive(Debug, Clone, Copy, PartialEq, Eq, Structural, Hash)]
pub struct TilePosition {
    pub x: i32,
    pub y: i32,
}

/// A region of the adventure map.
#[derive(Debug, Clone, Copy, PartialEq, Eq, Structural, Hash)]
pub struct RegionId(pub u32);

/// The adventure currency.
#[derive(Debug, Clone, Copy, PartialEq, Eq, Structural, Hash)]
pub struct Coins(pub u32);

/// A card offered in a draft, and how many copies picking it gives.
#[derive(Debug, Clone, Copy, PartialEq, Eq, Structural)]
pub struct DraftChoice {
    pub card: CardName,
    pub quantity: u32,
}

/// The cards offered in a draft.
#[derive(Debug, Clone)]
pub struct DraftData {
    pub choices: Vec<DraftChoice>,
}

/// What a tile of the map holds.
#[derive(Debug, Clone)]
pub enum TileEntity {
    /// Pay to reveal a region
    Explore { region: RegionId, cost: Coins },
    /// Pay to draft a card
    Draft { cost: Coins, data: DraftData },
    Shop,
}

/// A tile of the map, and what it holds, if anything.
#[derive(Debug, Clone)]
pub struct TileState {
    pub position: TilePosition,
    pub entity: Option<TileEntity>,
}

/// A screen which the player must act on before doing anything else.
#[derive(Debug, Clone, Copy, PartialEq, Eq, Structural)]
pub enum AdventureChoiceScreen {
    AdventureOver,
    Draft(TilePosition),
}

/// How many copies of a card the player owns.
#[derive(Debug, Clone, Copy, PartialEq, Eq, Structural)]
pub struct CollectionEntry {
    pub card: CardName,
    pub quantity: u32,
}

/// The state of an adventure.
#[derive(Debug, Clone)]
pub struct AdventureState {
    pub choice_screen: Option<AdventureChoiceScreen>,
    /// The tiles of the map, at most one for each position
    pub tiles: Vec<TileState>,
    pub coins: Coins,
    /// Regions revealed so far, each once
    pub revealed_regions: Vec<RegionId>,
    /// The cards the player owns, each card once
    pub collection: Vec<CollectionEntry>,
}

impl AdventureState {
    /// The invariant of an adventure: at most one tile at each position, each
    /// region revealed once, and one collection entry for each card.
    pub open spec fn wf(self) -> bool {
        &&& forall|i: int, j: int|
            0 <= i < j < self.tiles@.len() ==> (#[trigger] self.tiles@[i]).position
                != (#[trigger] self.tiles@[j]).position
        &&& self.revealed_regions@.no_duplicates()
        &&& distinct_cards(self.collection@)
    }
}

/// No two entries of `collection` are for the same card.
pub open spec fn distinct_cards(collection: Seq<CollectionEntry>) -> bool {
    forall|i: int, j: int|
        0 <= i < j < collection.len() ==> (#[trigger] collection[i]).card
            != (#[trigger] collection[j]).card
}

/// An action of the player in an adventure.
#[derive(Debug, Clone, Copy, PartialEq, Eq, Structural)]
pub enum AdventureAction {
    AbandonAdventure,
    TileAction(TilePosition),
    DraftCard(usize),
}

/// Why an adventure action was refused.
#[derive(Debug, Clone, Copy, PartialEq, Eq, Structural)]
pub enum AdventureError {
    /// Mandatory choice screen is active!
    MandatoryChoiceActive,
    /// Tile not found
    TileNotFound,
    /// No action for tile
    NoActionForTile,
    /// No active draft!
    NoActiveDraft,
    /// Invalid draft position
    InvalidDraftPosition,
    /// Choice index out of bounds
    ChoiceOutOfBounds,
}

/// `i` is the first index of `tiles` at `position`.
pub open spec fn is_first_tile(tiles: Seq<TileState>, position: TilePosition, i: int) -> bool {
    &&& 0 <= i < tiles.len()
    &&& tiles[i].position == position
    &&& forall|j: int| 0 <= j < i ==> tiles[j].position != position
}

/// The index of the tile at `position`, if there is one.
pub open spec fn tile_index(tiles: Seq<TileState>, position: TilePosition) -> Option<int> {
    if exists|i: int| is_first_tile(tiles, position, i) {
        Some(choose|i: int| is_first_tile(tiles, position, i))
    } else {
        None
    }
}

/// There is at most one index which is the first at `position`.
proof fn lemma_first_tile_unique(tiles: Seq<TileState>, position: TilePosition, i: int, j: int)
    requires
        is_first_tile(tiles, position, i),
        is_first_tile(tiles, position, j),
    ensures
        i == j,
{
    if i < j {
        assert(tiles[i].position != position);
    } else if j < i {
        assert(tiles[j].position != position);
    }
}

/// The index of the tile at `position`, if there is one.
fn find_tile(tiles: &Vec<TileState>, position: TilePosition) -> (r: Option<usize>)
    ensures
        match r {
            Some(k) => k < tiles@.len() && tile_index(tiles@, position) == Some(k as int),
            None => tile_index(tiles@, position) is None,
        },
{
    let mut i: usize = 0;
    while i < tiles.len()
        invariant
            i <= tiles.len(),
            forall|j: int| 0 <= j < i ==> tiles@[j].position != position,
        decreases tiles.len() - i,
    {
        if tiles[i].position == position {
            proof {
                assert(is_first_tile(tiles@, position, i as int));
                let k = choose|k: int| is_first_tile(tiles@, position, k);
                lemma_first_tile_unique(tiles@, position, i as int, k);
            }
            return Some(i);
        }
        i = i + 1;
    }
    proof {
        assert(!exists|k: int| is_first_tile(tiles@, position, k));
    }
    None
}

/// The cost of the entity of the tile at `position`, if it has one.
pub open spec fn tile_cost(state: AdventureState, position: TilePosition) -> Option<u32> {
    match tile_index(state.tiles@, position) {
        Some(i) => match state.tiles@[i].entity {
            Some(TileEntity::Explore { cost, .. }) => Some(cost.0),
            Some(TileEntity::Draft { cost, .. }) => Some(cost.0),
            _ => None,
        },
        None => None,
    }
}

/// `collection` with `quantity` more copies of `card`: its entry grows, or a
/// new entry is added at the end.
pub open spec fn added_to_collection(
    before: Seq<CollectionEntry>,
    after: Seq<CollectionEntry>,
    card: CardName,
    quantity: u32,
) -> bool {
    ||| exists|i: int|
        0 <= i < before.len() && #[trigger] before[i].card == card && after == before.update(
            i,
            CollectionEntry { card, quantity: (before[i].quantity + quantity) as u32 },
        )
    ||| (forall|i: int| 0 <= i < before.len() ==> #[trigger] before[i].card != card) && after
        == before.push(CollectionEntry { card, quantity })
}

/// The draft choice which picking `index` on the active draft screen takes,
/// if the screen, the tile and the choice exist.
pub open spec fn draft_choice(state: AdventureState, index: usize) -> Option<DraftChoice> {
    match state.choice_screen {
        Some(AdventureChoiceScreen::Draft(position)) => match tile_index(state.tiles@, position) {
            Some(i) => match state.tiles@[i].entity {
                Some(TileEntity::Draft { data, .. }) => if index < data.choices@.len() {
                    Some(data.choices@[index as int])
                } else {
                    None
                },
                _ => None,
            },
            None => None,
        },
        _ => None,
    }
}

/// What the rules ask of a state before an action: the player can pay for
/// the tile they act on when no choice screen stops the action, and a
/// drafted card's count stays in range.
pub open spec fn action_allowed(state: AdventureState, action: AdventureAction) -> bool {
    match action {
        AdventureAction::AbandonAdventure => true,
        AdventureAction::TileAction(position) => state.choice_screen is None ==> match tile_cost(
            state,
            position,
        ) {
            Some(cost) => cost <= state.coins.0,
            None => true,
        },
        AdventureAction::DraftCard(index) => match draft_choice(state, index) {
            Some(choice) => forall|i: int|
                0 <= i < state.collection@.len() && #[trigger] state.collection@[i].card
                    == choice.card ==> state.collection@[i].quantity + choice.quantity <= u32::MAX,
            None => true,
        },
    }
}

/// Ends the adventure.
fn handle_abandon_adventure(state: &mut AdventureState) -> (r: Result<(), AdventureError>)
    ensures
        r is Ok,
        *final(state) == (AdventureState {
            choice_screen: Some(AdventureChoiceScreen::AdventureOver),
            ..*old(state)
        }),
{
    state.choice_screen = Some(AdventureChoiceScreen::AdventureOver);
    Ok(())
}

/// `regions` with `region` added, unless it is there.
pub open spec fn with_region(regions: Seq<RegionId>, region: RegionId) -> Seq<RegionId> {
    if regions.contains(region) {
        regions
    } else {
        regions.push(region)
    }
}

/// Revealing a region keeps every region revealed once.
proof fn lemma_with_region_distinct(regions: Seq<RegionId>, region: RegionId)
    requires
        regions.no_duplicates(),
    ensures
        with_region(regions, region).no_duplicates(),
{
    if !regions.contains(region) {
        let r = regions.push(region);
        assert forall|i: int, j: int| 0 <= i < r.len() && 0 <= j < r.len() && i != j implies r[i]
            != r[j] by {
            if i == regions.len() as int {
                assert(r[j] == regions[j]);
            } else if j == regions.len() as int {
                assert(r[i] == regions[i]);
            }
        }
    }
}

/// Adds `region` to the revealed regions, unless it is there.
fn reveal_region(regions: &mut Vec<RegionId>, region: RegionId)
    ensures
        final(regions)@ == with_region(old(regions)@, region),
{
    let mut i: usize = 0;
    while i < regions.len()
        invariant
            i <= regions.len(),
            forall|j: int| 0 <= j < i ==> regions@[j] != region,
        decreases regions.len() - i,
    {
        if regions[i] == region {
            proof {
                assert(regions@.contains(region));
            }
            return;
        }
        i = i + 1;
    }
    regions.push(region);
}

/// `after` is `before` once the player acted on the tile at `position`:
/// exploring pays the cost, reveals the region and empties the tile; a draft
/// tile takes the cost and opens the draft screen; a shop does nothing.
pub open spec fn tile_action_applied(
    before: AdventureState,
    after: AdventureState,
    position: TilePosition,
) -> bool {
    let i = tile_index(before.tiles@, position)->0;
    match before.tiles@[i].entity {
        Some(TileEntity::Explore { region, cost }) => {
            &&& after.coins == Coins((before.coins.0 - cost.0) as u32)
            &&& after.revealed_regions@ == with_region(before.revealed_regions@, region)
            &&& after.tiles@ == before.tiles@.update(
                i,
                TileState { position: before.tiles@[i].position, entity: None },
            )
            &&& after.choice_screen == before.choice_screen
            &&& after.collection == before.collection
        },
        Some(TileEntity::Draft { cost, .. }) => {
            &&& after == (AdventureState {
                coins: Coins((before.coins.0 - cost.0) as u32),
                choice_screen: Some(AdventureChoiceScreen::Draft(position)),
                ..before
            })
        },
        _ => after == before,
    }
}

/// Other adventure actions cannot be taken while a choice screen like 'draft
/// a card' is being displayed.
fn verify_no_mandatory_choice(state: &AdventureState) -> (r: Result<(), AdventureError>)
    ensures
        state.choice_screen is Some <==> r is Err,
        r is Err ==> r == Err::<(), AdventureError>(AdventureError::MandatoryChoiceActive),
{
    if state.choice_screen.is_some() {
        Err(AdventureError::MandatoryChoiceActive)
    } else {
        Ok(())
    }
}

/// Acts on the tile at `position`.
fn handle_tile_action(state: &mut AdventureState, position: TilePosition) -> (r: Result<
    (),
    AdventureError,
>)
    requires
        action_allowed(*old(state), AdventureAction::TileAction(position)),
    ensures
        old(state).choice_screen is Some ==> r == Err::<(), AdventureError>(
            AdventureError::MandatoryChoiceActive,
        ) && *final(state) == *old(state),
        old(state).choice_screen is None && tile_index(old(state).tiles@, position) is None ==> r
            == Err::<(), AdventureError>(AdventureError::TileNotFound) && *final(state) == *old(
            state,
        ),
        old(state).choice_screen is None && tile_index(old(state).tiles@, position) is Some
            && old(state).tiles@[tile_index(old(state).tiles@, position)->0].entity is None ==> r
            == Err::<(), AdventureError>(AdventureError::NoActionForTile) && *final(state) == *old(
            state,
        ),
        old(state).choice_screen is None && tile_index(old(state).tiles@, position) is Some
            && old(state).tiles@[tile_index(old(state).tiles@, position)->0].entity is Some ==> r
            is Ok && tile_action_applied(*old(state), *final(state), position),
{
    match verify_no_mandatory_choice(state) {
        Ok(()) => {},
        Err(e) => {
            return Err(e);
        },
    }
    let index = match find_tile(&state.tiles, position) {
        Some(i) => i,
        None => {
            return Err(AdventureError::TileNotFound);
        },
    };
    let (is_explore, region, cost) = match &state.tiles[index].entity {
        None => {
            return Err(AdventureError::NoActionForTile);
        },
        Some(TileEntity::Explore { region, cost }) => (true, *region, *cost),
        Some(TileEntity::Draft { cost, .. }) => (false, RegionId(0), *cost),
        Some(TileEntity::Shop) => {
            return Ok(());
        },
    };
    state.coins = Coins(state.coins.0 - cost.0);
    if is_explore {
        reveal_region(&mut state.revealed_regions, region);
        state.tiles[index].entity = None;
    } else {
        state.choice_screen = Some(AdventureChoiceScreen::Draft(position));
    }
    Ok(())
}

/// `i` is the first index of `collection` with `card`.
pub open spec fn is_first_entry(collection: Seq<CollectionEntry>, card: CardName, i: int) -> bool {
    &&& 0 <= i < collection.len()
    &&& collection[i].card == card
    &&& forall|j: int| 0 <= j < i ==> collection[j].card != card
}

/// Adding copies of a card keeps one entry for each card.
proof fn lemma_added_distinct(
    before: Seq<CollectionEntry>,
    after: Seq<CollectionEntry>,
    card: CardName,
    quantity: u32,
)
    requires
        distinct_cards(before),
        added_to_collection(before, after, card, quantity),
    ensures
        distinct_cards(after),
{
    if exists|i: int|
        0 <= i < before.len() && #[trigger] before[i].card == card && after == before.update(
            i,
            CollectionEntry { card, quantity: (before[i].quantity + quantity) as u32 },
        ) {
        let k = choose|i: int|
            0 <= i < before.len() && #[trigger] before[i].card == card && after == before.update(
                i,
                CollectionEntry { card, quantity: (before[i].quantity + quantity) as u32 },
            );
        assert forall|i: int, j: int| 0 <= i < j < after.len() implies (#[trigger] after[i]).card
            != (#[trigger] after[j]).card by {
            assert(after[i].card == before[i].card);
            assert(after[j].card == before[j].card);
        }
    } else {
        assert forall|i: int, j: int| 0 <= i < j < after.len() implies (#[trigger] after[i]).card
            != (#[trigger] after[j]).card by {
            if j == before.len() as int {
                assert(before[i].card != card);
            } else {
                assert(after[i] == before[i]);
                assert(after[j] == before[j]);
            }
        }
    }
}

/// Adds `quantity` copies of `card` to `collection`.
fn add_to_collection(collection: &mut Vec<CollectionEntry>, card: CardName, quantity: u32)
    requires
        forall|i: int|
            0 <= i < old(collection)@.len() && #[trigger] old(collection)@[i].card == card
                ==> old(collection)@[i].quantity + quantity <= u32::MAX,
    ensures
        added_to_collection(old(collection)@, final(collection)@, card, quantity),
{
    let ghost before = collection@;
    let mut i: usize = 0;
    while i < collection.len()
        invariant
            i <= collection.len(),
            collection@ == before,
            before == old(collection)@,
            forall|j: int| 0 <= j < i ==> collection@[j].card != card,
            forall|j: int|
                0 <= j < before.len() && #[trigger] before[j].card == card ==> before[j].quantity
                    + quantity <= u32::MAX,
        decreases collection.len() - i,
    {
        if collection[i].card == card {
            let q = collection[i].quantity;
            assert(before[i as int].card == card);
            collection.set(i, CollectionEntry { card, quantity: q + quantity });
            assert(0 <= i < before.len() && before[i as int].card == card && collection@
                == before.update(
                i as int,
                CollectionEntry { card, quantity: (before[i as int].quantity + quantity) as u32 },
            ));
            return;
        }
        i = i + 1;
    }
    collection.push(CollectionEntry { card, quantity });
}

/// Picks the draft choice `index` on the active draft screen.
fn handle_draft(state: &mut AdventureState, index: usize) -> (r: Result<(), AdventureError>)
    requires
        action_allowed(*old(state), AdventureAction::DraftCard(index)),
    ensures
        match old(state).choice_screen {
            Some(AdventureChoiceScreen::Draft(position)) => match tile_index(
                old(state).tiles@,
                position,
            ) {
                Some(i) => match old(state).tiles@[i].entity {
                    Some(TileEntity::Draft { data, .. }) => if index < data.choices@.len() {
                        &&& r is Ok
                        &&& added_to_collection(
                            old(state).collection@,
                            final(state).collection@,
                            data.choices@[index as int].card,
                            data.choices@[index as int].quantity,
                        )
                        &&& *final(state) == (AdventureState {
                            choice_screen: None,
                            collection: final(state).collection,
                            ..*old(state)
                        })
                    } else {
                        r == Err::<(), AdventureError>(AdventureError::ChoiceOutOfBounds)
                            && *final(state) == *old(state)
                    },
                    Some(_) => r == Err::<(), AdventureError>(AdventureError::InvalidDraftPosition)
                        && *final(state) == *old(state),
                    None => r == Err::<(), AdventureError>(AdventureError::NoActionForTile)
                        && *final(state) == *old(state),
                },
                None => r == Err::<(), AdventureError>(AdventureError::TileNotFound)
                    && *final(state) == *old(state),
            },
            _ => r == Err::<(), AdventureError>(AdventureError::NoActiveDraft) && *final(state)
                == *old(state),
        },
{
    let position = match state.choice_screen {
        Some(AdventureChoiceScreen::Draft(position)) => position,
        _ => {
            return Err(AdventureError::NoActiveDraft);
        },
    };
    let tile = match find_tile(&state.tiles, position) {
        Some(i) => i,
        None => {
            return Err(AdventureError::TileNotFound);
        },
    };
    let choice = match &state.tiles[tile].entity {
        None => {
            return Err(AdventureError::NoActionForTile);
        },
        Some(TileEntity::Draft { data, .. }) => {
            if index < data.choices.len() {
                data.choices[index]
            } else {
                return Err(AdventureError::ChoiceOutOfBounds);
            }
        },
        Some(_) => {
            return Err(AdventureError::InvalidDraftPosition);
        },
    };
    add_to_collection(&mut state.collection, choice.card, choice.quantity);
    state.choice_screen = None;
    Ok(())
}

/// Handles an incoming [AdventureAction].
pub fn handle_adventure_action(state: &mut AdventureState, action: &AdventureAction) -> (r: Result<
    (),
    AdventureError,
>)
    requires
        action_allowed(*old(state), *action),
    ensures
        old(state).wf() ==> final(state).wf(),
        match *action {
            AdventureAction::AbandonAdventure => r is Ok && *final(state) == (AdventureState {
                choice_screen: Some(AdventureChoiceScreen::AdventureOver),
                ..*old(state)
            }),
            AdventureAction::TileAction(position) => {
                &&& old(state).choice_screen is Some ==> r == Err::<(), AdventureError>(
                    AdventureError::MandatoryChoiceActive,
                ) && *final(state) == *old(state)
                &&& old(state).choice_screen is None && tile_index(old(state).tiles@, position)
                    is None ==> r == Err::<(), AdventureError>(AdventureError::TileNotFound)
                    && *final(state) == *old(state)
                &&& old(state).choice_screen is None && tile_index(old(state).tiles@, position)
                    is Some && old(state).tiles@[tile_index(
                    old(state).tiles@,
                    position,
                )->0].entity is None ==> r == Err::<(), AdventureError>(
                    AdventureError::NoActionForTile,
                ) && *final(state) == *old(state)
                &&& old(state).choice_screen is None && tile_index(old(state).tiles@, position)
                    is Some && old(state).tiles@[tile_index(
                    old(state).tiles@,
                    position,
                )->0].entity is Some ==> r is Ok && tile_action_applied(
                    *old(state),
                    *final(state),
                    position,
                )
            },
            AdventureAction::DraftCard(index) => match draft_choice(*old(state), index) {
                Some(choice) => {
                    &&& r is Ok
                    &&& added_to_collection(
                        old(state).collection@,
                        final(state).collection@,
                        choice.card,
                        choice.quantity,
                    )
                    &&& *final(state) == (AdventureState {
                        choice_screen: None,
                        collection: final(state).collection,
                        ..*old(state)
                    })
                },
                None => r is Err && *final(state) == *old(state),
            },
        },
{
    let ghost before = *state;
    let r = match action {
        AdventureAction::AbandonAdventure => handle_abandon_adventure(state),
        AdventureAction::TileAction(position) => handle_tile_action(state, *position),
        AdventureAction::DraftCard(index) => handle_draft(state, *index),
    };
    proof {
        if before.wf() {
            match *action {
                AdventureAction::TileAction(position) => {
                    if before.choice_screen is None && tile_index(before.tiles@, position) is Some {
                        let i = tile_index(before.tiles@, position)->0;
                        if let Some(TileEntity::Explore { region, cost }) = before.tiles@[i].entity {
                            lemma_with_region_distinct(before.revealed_regions@, region);
                            assert forall|a: int, b: int|
                                0 <= a < b < state.tiles@.len() implies (#[trigger] state.tiles@[a]).position
                                != (#[trigger] state.tiles@[b]).position by {
                                assert(state.tiles@[a].position == before.tiles@[a].position);
                                assert(state.tiles@[b].position == before.tiles@[b].position);
                            }
                        }
                    }
                },
                AdventureAction::DraftCard(index) => {
                    if let Some(choice) = draft_choice(before, index) {
                        lemma_added_distinct(
                            before.collection@,
                            state.collection@,
                            choice.card,
                            choice.quantity,
                        );
                    }
                },
                _ => {},
            }
        }
    }
    r
}

/// The draft data of the tile at `position`, if it is a draft tile.
pub open spec fn tile_draft(state: AdventureState, position: TilePosition) -> Option<DraftData> {
    match tile_index(state.tiles@, position) {
        Some(i) => match state.tiles@[i].entity {
            Some(TileEntity::Draft { data, .. }) => Some(data),
            _ => None,
        },
        None => None,
    }
}

/// Once the player acted on a draft tile, the draft screen offers that
/// tile's choices: picking `index` takes the tile's choice `index`, and an
/// index past its choices takes nothing.
pub proof fn lemma_draft_offers_tile_choices(
    before: AdventureState,
    after: AdventureState,
    position: TilePosition,
    index: usize,
)
    requires
        tile_draft(before, position) is Some,
        tile_action_applied(before, after, position),
    ensures
        draft_choice(after, index) == if index < tile_draft(before, position)->0.choices@.len() {
            Some(tile_draft(before, position)->0.choices@[index as int])
        } else {
            None::<DraftChoice>
        },
{
}

} // verus!
