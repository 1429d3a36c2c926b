//! Debug tools: which game or player record a debug action reads and writes,
//! and what it changes in them.
//!
//! The server holding the records performs the reads and writes; the
//! functions here decide what they are.

use vstd::prelude::*;

use crate::adventure::{AdventureState, Coins};
use crate::card_definition::CardDefinition;
use crate::cards_beryl::{
    haste_resonator, living_stone, magistrates_thronehall, sealed_necropolis, stalwart_protector,
    CardMetadata,
};
use crate::error::GameError;
use crate::game_state::{CardPosition, CardState, GameInfo, GameState, PlayerState};
use crate::queries::CardFilter;
use crate::selection::{chosen_are_topmost, deck_cards, is_selection_of, top_of_deck};
use crate::primitives::{
    AIPlayer, ActionCount, CardId, CardName, GameId, ManaValue, PlayerId, PointsValue, Side,
};

verus! {

broadcast use vstd::string::group_string_axioms;

/// The decks that a new game can be started with by name.
#[derive(Debug, Clone, Copy, PartialEq, Eq, Structural)]
pub enum NamedDeck {
    CanonicalOverlord,
    CanonicalChampion,
}

/// The deck that the player who starts a new game uses.
#[derive(Debug, Clone, Copy, PartialEq, Eq, Structural)]
pub enum NewGameDeck {
    NamedDeck(NamedDeck),
}

/// Settings of a new game that only the debug tools use.
#[derive(Debug, Clone, Copy, PartialEq, Eq, Structural)]
pub struct NewGameDebugOptions {
    /// Whether the game's random choices are made deterministically.
    pub deterministic: bool,
    /// The id that the new game gets in place of a fresh one.
    pub override_game_id: Option<GameId>,
}

/// A request to start a new game.
#[derive(Debug, Clone, Copy, PartialEq, Eq, Structural)]
pub struct NewGameAction {
    pub opponent: PlayerId,
    pub deck: NewGameDeck,
    pub debug_options: Option<NewGameDebugOptions>,
    pub tutorial: bool,
}

/// An action of the debug tools.
#[derive(Debug, Clone, Copy, PartialEq, Eq, Structural)]
pub enum DebugAction {
    /// Start a game against a computer opponent, playing this side.
    NewGame(Side),
    /// Take this side's seat in the game that the debug tools started last.
    JoinGame(Side),
    /// Swap the seats of the two players of the current game.
    FlipViewpoint,
    AddMana(ManaValue),
    AddActionPoints(ActionCount),
    AddScore(PointsValue),
    /// Copy the current game to the save slot with this index.
    SaveGameState(u128),
    /// Replace the current game with the one in the save slot with this
    /// index.
    LoadGameState(u128),
    /// Copy the player's record to the save slot with this index.
    SavePlayerState(u128),
    /// Replace the player's record with the one in the save slot with this
    /// index.
    LoadPlayerState(u128),
    /// Give this side's seat to a computer player.
    SetNamedPlayer(Side, AIPlayer),
    AddCoins(Coins),
    /// Show the cards whose name matches the request's filter.
    FilterCardList,
    /// Put a copy of this card into the player's hand.
    AddToHand(CardName),
}

/// A command to the client to load a scene, replacing the current one.
#[derive(Debug, Clone)]
pub struct LoadSceneCommand {
    pub scene_name: String,
    pub skip_if_current: bool,
}

/// The response which reloads a game for both of its players.
#[derive(Debug, Clone)]
pub struct GameSceneReload {
    /// The game that the requesting player's client shows.
    pub game_id: GameId,
    /// The command sent to both players.
    pub command: LoadSceneCommand,
    /// The requesting player's opponent, who gets the command too.
    pub opponent_id: PlayerId,
}

/// What the server keeps between debug actions.
#[derive(Debug)]
pub struct DebugServer {
    /// The game that the debug tools started last.
    pub game_id: Option<GameId>,
}

/// The work that remains for the server once a debug action has been
/// decided: which records it reads, which functions of this module it
/// applies to them, and which it writes.
#[derive(Debug, Clone, Copy, PartialEq, Eq, Structural)]
pub enum DebugStep {
    /// Ask the client to start this game.
    InvokeNewGame(NewGameAction),
    /// Read the game `game_id`, apply [join_game] for `side`, write it back
    /// and record the player as playing it.
    JoinGame { game_id: GameId, side: Side },
    /// Read the requesting player's game, apply [flip_viewpoint] and write
    /// it back.
    FlipViewpoint,
    /// Read the requesting player's game, apply [apply_debug_game_update] and
    /// write it back.
    UpdateGame,
    /// Read the requesting player's adventure, apply [add_coins] with these
    /// coins and write it back.
    UpdateAdventure(Coins),
    /// Write a copy of the requesting player's game under the id `game_slot`.
    SaveGame { game_slot: GameId },
    /// Read the game `game_slot`, give it the id `game_id`, reload it with
    /// [reload_scene] and write it.
    LoadGame { game_slot: GameId, game_id: GameId },
    /// Write a copy of the requesting player's record under the id
    /// `player_slot`.
    SavePlayer { player_slot: PlayerId },
    /// Read the player record `player_slot`, give it the requesting player's id,
    /// write it and answer with [reload_world_scene].
    LoadPlayer { player_slot: PlayerId },
    /// Answer with the card list filtered by the request's 'CardName' field.
    FilterCardList,
    /// Put a copy of this card into the requesting player's hand.
    AddToHand(CardName),
}

/// Why a debug action was refused.
#[derive(Debug, Clone, Copy, PartialEq, Eq, Structural)]
pub enum DebugError {
    /// Expected game_id
    ExpectedGameId,
}

impl DebugServer {
    /// A server that has started no game.
    pub fn new() -> (r: DebugServer)
        ensures
            r.game_id is None,
    {
        DebugServer { game_id: None }
    }

    /// The game that the debug tools started last, if any.
    pub fn current_game_id(&self) -> (r: Option<GameId>)
        ensures
            r == self.game_id,
    {
        self.game_id
    }
}

/// Calls `ulid::Ulid::new` and returns the new ULID's value. The value rests
/// on the clock and on chance, so no property of it is stated.
#[verifier::external_body]
fn new_ulid() -> (r: u128) {
    ulid::Ulid::new().0
}

/// The request which starts a debug game `id` in which the player plays
/// `side` against the computer.
pub open spec fn spec_debug_new_game_action(side: Side, id: GameId) -> NewGameAction {
    NewGameAction {
        opponent: PlayerId::AI(
            match side {
                Side::Overlord => AIPlayer::DebugChampion,
                Side::Champion => AIPlayer::DebugOverlord,
            },
        ),
        deck: NewGameDeck::NamedDeck(
            match side {
                Side::Overlord => NamedDeck::CanonicalOverlord,
                Side::Champion => NamedDeck::CanonicalChampion,
            },
        ),
        debug_options: Some(
            NewGameDebugOptions { deterministic: false, override_game_id: Some(id) },
        ),
        tutorial: false,
    }
}

/// The request which starts a debug game `id` in which the player plays
/// `side` against the computer.
pub fn debug_new_game_action(side: Side, id: GameId) -> (r: NewGameAction)
    ensures
        r == spec_debug_new_game_action(side, id),
{
    let (opponent, deck) = match side {
        Side::Overlord => (AIPlayer::DebugChampion, NamedDeck::CanonicalOverlord),
        Side::Champion => (AIPlayer::DebugOverlord, NamedDeck::CanonicalChampion),
    };
    NewGameAction {
        opponent: PlayerId::AI(opponent),
        deck: NewGameDeck::NamedDeck(deck),
        debug_options: Some(
            NewGameDebugOptions { deterministic: false, override_game_id: Some(id) },
        ),
        tutorial: false,
    }
}

/// Picks a fresh id for a debug game, remembers it as the current one, and
/// returns the request which starts it.
pub fn create_debug_game(server: &mut DebugServer, side: Side) -> (r: NewGameAction)
    ensures
        final(server).game_id is Some,
        r == spec_debug_new_game_action(side, final(server).game_id->0),
{
    let id = GameId(new_ulid());
    server.game_id = Some(id);
    debug_new_game_action(side, id)
}

/// The command which loads the scene `name`, replacing the current one.
fn load_scene(name: &str) -> (r: LoadSceneCommand)
    ensures
        r.scene_name@ == name@,
        !r.skip_if_current,
{
    LoadSceneCommand { scene_name: name.to_owned(), skip_if_current: false }
}

/// The response which reloads `game` for `player` and their opponent.
pub open spec fn spec_reload_scene(player: PlayerId, game: GameState) -> Option<(GameId, PlayerId)> {
    match game.spec_player_side(player) {
        Some(side) => Some((game.id, game.player_state(side.opponent()).id)),
        None => None,
    }
}

/// Reloads the game scene of `player` and of their opponent; fails when
/// `player` takes no part in `game`.
pub fn reload_scene(player: PlayerId, game: &GameState) -> (r: Result<GameSceneReload, GameError>)
    ensures
        match spec_reload_scene(player, *game) {
            Some((game_id, opponent_id)) => {
                &&& r is Ok
                &&& r->Ok_0.game_id == game_id
                &&& r->Ok_0.opponent_id == opponent_id
                &&& r->Ok_0.command.scene_name@ == "Game"@
                &&& !r->Ok_0.command.skip_if_current
            },
            None => r == Err::<GameSceneReload, GameError>(GameError::PlayerNotInGame(player)),
        },
{
    let command = load_scene("Game");
    let user_side = match game.player_side(player) {
        Ok(side) => side,
        Err(e) => {
            return Err(e);
        },
    };
    let opponent_id = game.player(user_side.opponent()).id;
    Ok(GameSceneReload { game_id: game.id, command, opponent_id })
}

/// Reloads the world scene of the requesting player.
pub fn reload_world_scene() -> (r: LoadSceneCommand)
    ensures
        r.scene_name@ == "World"@,
        !r.skip_if_current,
{
    load_scene("World")
}

/// The id of the game save slot `index`.
pub fn saved_game_id(index: u128) -> (r: GameId)
    requires
        100 + index <= u128::MAX,
    ensures
        r.0 == 100 + index,
{
    GameId::new_from_u128(100 + index)
}

/// The index `index` of a game save slot has an id: slot ids count from 100.
pub open spec fn slot_in_range(action: DebugAction) -> bool {
    match action {
        DebugAction::SaveGameState(index) => 100 + index <= u128::MAX,
        DebugAction::LoadGameState(index) => 100 + index <= u128::MAX,
        _ => true,
    }
}

/// The id of the player save slot `index`.
pub fn saved_player_id(index: u128) -> (r: PlayerId)
    ensures
        r == PlayerId::Database(index),
{
    PlayerId::Database(index)
}

/// Gives `player` the `side` seat of `game` and reloads its scene for them.
pub fn join_game(game: &mut GameState, side: Side, player: PlayerId) -> (r: Result<
    GameSceneReload,
    GameError,
>)
    requires
        old(game).wf(),
    ensures
        final(game).wf(),
        final(game).player_state(side) == (PlayerState { id: player, ..old(game).player_state(side) }),
        final(game).only_player_changed(*old(game), side),
        r is Ok,
        spec_reload_scene(player, *final(game)) matches Some((game_id, opponent_id))
            && r->Ok_0.game_id == game_id && r->Ok_0.opponent_id == opponent_id,
        r->Ok_0.command.scene_name@ == "Game"@ && !r->Ok_0.command.skip_if_current,
{
    game.set_player_id(side, player);
    reload_scene(player, game)
}

/// `after` is `before` with the two players' seats swapped.
pub open spec fn seats_swapped(before: GameState, after: GameState) -> bool {
    &&& after.overlord == (PlayerState { id: before.champion.id, ..before.overlord })
    &&& after.champion == (PlayerState { id: before.overlord.id, ..before.champion })
    &&& after == (GameState { overlord: after.overlord, champion: after.champion, ..before })
}

/// Swapping the seats twice gives back the game as it was.
pub proof fn lemma_flip_twice(a: GameState, b: GameState, c: GameState)
    requires
        seats_swapped(a, b),
        seats_swapped(b, c),
    ensures
        c == a,
{
}

/// The debug tools load a game from the save slot that they saved it to, and
/// different indices name different slots.
pub proof fn lemma_save_load_same_slot(
    index: u128,
    other: u128,
    game_id: Option<GameId>,
    request_game: GameId,
)
    requires
        100 + index <= u128::MAX,
        100 + other <= u128::MAX,
    ensures
        spec_debug_step(DebugAction::SaveGameState(index), game_id, Some(request_game))
            matches Ok(DebugStep::SaveGame { game_slot: saved })
            && spec_debug_step(DebugAction::LoadGameState(index), game_id, Some(request_game))
            matches Ok(DebugStep::LoadGame { game_slot: loaded, game_id: into })
            && saved == loaded && into == request_game,
        index != other ==> spec_debug_step(DebugAction::SaveGameState(index), game_id, None)
            != spec_debug_step(DebugAction::SaveGameState(other), game_id, None),
{
}

/// Swaps the seats of the two players of `game`, and reloads its scene for
/// `player`.
pub fn flip_viewpoint(game: &mut GameState, player: PlayerId) -> (r: Result<
    GameSceneReload,
    GameError,
>)
    requires
        old(game).wf(),
    ensures
        final(game).wf(),
        seats_swapped(*old(game), *final(game)),
        match spec_reload_scene(player, *final(game)) {
            Some((game_id, opponent_id)) => r is Ok && r->Ok_0.game_id == game_id
                && r->Ok_0.opponent_id == opponent_id && r->Ok_0.command.scene_name@ == "Game"@
                && !r->Ok_0.command.skip_if_current,
            None => r == Err::<GameSceneReload, GameError>(GameError::PlayerNotInGame(player)),
        },
{
    let overlord = game.overlord.id;
    let champion = game.champion.id;
    game.set_player_id(Side::Overlord, champion);
    game.set_player_id(Side::Champion, overlord);
    reload_scene(player, game)
}

/// What [apply_debug_game_update] does to `before` for `action` on behalf
/// of `side`, when it succeeds.
pub open spec fn debug_game_updated(
    before: GameState,
    after: GameState,
    side: Side,
    action: DebugAction,
) -> bool {
    match action {
        DebugAction::AddMana(amount) => after.player_state(side) == (PlayerState {
            mana: (before.player_state(side).mana + amount) as u32,
            ..before.player_state(side)
        }) && after.only_player_changed(before, side),
        DebugAction::AddActionPoints(amount) => after.player_state(side) == (PlayerState {
            actions: (before.player_state(side).actions + amount) as u32,
            ..before.player_state(side)
        }) && after.only_player_changed(before, side),
        DebugAction::AddScore(points) => after.player_state(side) == (PlayerState {
            score: (before.player_state(side).score + points) as u32,
            ..before.player_state(side)
        }) && after.only_player_changed(before, side),
        DebugAction::SetNamedPlayer(named_side, name) => after.player_state(named_side) == (
        PlayerState { id: PlayerId::AI(name), ..before.player_state(named_side) })
            && after.only_player_changed(before, named_side),
        _ => after == before,
    }
}

/// Changes the game of the player on `side` as the debug `action` asks:
/// adds mana, action points or score to that player, or hands a seat to a
/// computer player. Other actions change nothing. Fails, changing nothing,
/// when mana or score would exceed its range.
pub fn apply_debug_game_update(game: &mut GameState, side: Side, action: &DebugAction) -> (r:
    Result<(), GameError>)
    requires
        old(game).wf(),
        (*action) matches DebugAction::AddActionPoints(amount) ==> old(game).player_state(
            side,
        ).actions + amount <= u32::MAX,
    ensures
        final(game).wf(),
        r is Err <==> match *action {
            DebugAction::AddMana(amount) => old(game).player_state(side).mana + amount > u32::MAX,
            DebugAction::AddScore(points) => old(game).player_state(side).score + points
                > u32::MAX,
            _ => false,
        },
        r is Err ==> r == Err::<(), GameError>(GameError::ValueOutOfRange) && *final(game) == *old(
            game,
        ),
        r is Ok ==> debug_game_updated(*old(game), *final(game), side, *action),
{
    match action {
        DebugAction::AddMana(amount) => game.gain_mana(side, *amount),
        DebugAction::AddActionPoints(amount) => game.gain_action_points(side, *amount),
        DebugAction::AddScore(points) => game.score_points(side, *points),
        DebugAction::SetNamedPlayer(named_side, name) => {
            game.set_player_id(*named_side, PlayerId::AI(*name));
            Ok(())
        },
        _ => Ok(()),
    }
}

/// Adds `coins` to the adventure's purse.
pub fn add_coins(state: &mut AdventureState, coins: Coins)
    requires
        old(state).coins.0 + coins.0 <= u32::MAX,
    ensures
        *final(state) == (AdventureState {
            coins: Coins((old(state).coins.0 + coins.0) as u32),
            ..*old(state)
        }),
{
    state.coins = Coins(state.coins.0 + coins.0);
}

/// The step that follows the decision on a debug `action` in the request
/// whose game is `request_game`.
pub open spec fn spec_debug_step(action: DebugAction, game_id: Option<GameId>, request_game: Option<
    GameId,
>) -> Result<DebugStep, DebugError> {
    match action {
        DebugAction::NewGame(side) => Ok(
            DebugStep::InvokeNewGame(spec_debug_new_game_action(side, game_id->0)),
        ),
        DebugAction::JoinGame(side) => Ok(DebugStep::JoinGame { game_id: game_id->0, side }),
        DebugAction::FlipViewpoint => Ok(DebugStep::FlipViewpoint),
        DebugAction::AddMana(_) => Ok(DebugStep::UpdateGame),
        DebugAction::AddActionPoints(_) => Ok(DebugStep::UpdateGame),
        DebugAction::AddScore(_) => Ok(DebugStep::UpdateGame),
        DebugAction::SetNamedPlayer(_, _) => Ok(DebugStep::UpdateGame),
        DebugAction::SaveGameState(index) => Ok(
            DebugStep::SaveGame { game_slot: GameId((100 + index) as u128) },
        ),
        DebugAction::LoadGameState(index) => match request_game {
            Some(game_id) => Ok(
                DebugStep::LoadGame { game_slot: GameId((100 + index) as u128), game_id },
            ),
            None => Err(DebugError::ExpectedGameId),
        },
        DebugAction::SavePlayerState(index) => Ok(
            DebugStep::SavePlayer { player_slot: PlayerId::Database(index) },
        ),
        DebugAction::LoadPlayerState(index) => Ok(
            DebugStep::LoadPlayer { player_slot: PlayerId::Database(index) },
        ),
        DebugAction::AddCoins(coins) => Ok(DebugStep::UpdateAdventure(coins)),
        DebugAction::FilterCardList => Ok(DebugStep::FilterCardList),
        DebugAction::AddToHand(card) => Ok(DebugStep::AddToHand(card)),
    }
}

/// Decides a debug `action` of a request whose game is `request_game`: a
/// new game is created at once, and every other action becomes the step
/// that says which records the server reads, changes and writes. Loading a
/// saved game fails when the request names no game.
pub fn handle_debug_action(
    server: &mut DebugServer,
    action: &DebugAction,
    request_game: Option<GameId>,
) -> (r: Result<DebugStep, DebugError>)
    requires
        action is JoinGame ==> old(server).game_id is Some,
        slot_in_range(*action),
    ensures
        action is NewGame ==> final(server).game_id is Some,
        !(action is NewGame) ==> final(server).game_id == old(server).game_id,
        r == spec_debug_step(*action, final(server).game_id, request_game),
{
    match action {
        DebugAction::NewGame(side) => Ok(DebugStep::InvokeNewGame(create_debug_game(server, *side))),
        DebugAction::JoinGame(side) => {
            let game_id = match server.current_game_id() {
                Some(id) => id,
                None => {
                    return Err(DebugError::ExpectedGameId);
                },
            };
            Ok(DebugStep::JoinGame { game_id, side: *side })
        },
        DebugAction::FlipViewpoint => Ok(DebugStep::FlipViewpoint),
        DebugAction::AddMana(_) => Ok(DebugStep::UpdateGame),
        DebugAction::AddActionPoints(_) => Ok(DebugStep::UpdateGame),
        DebugAction::AddScore(_) => Ok(DebugStep::UpdateGame),
        DebugAction::SetNamedPlayer(_, _) => Ok(DebugStep::UpdateGame),
        DebugAction::SaveGameState(index) => Ok(DebugStep::SaveGame { game_slot: saved_game_id(*index) }),
        DebugAction::LoadGameState(index) => match request_game {
            Some(game_id) => Ok(DebugStep::LoadGame { game_slot: saved_game_id(*index), game_id }),
            None => Err(DebugError::ExpectedGameId),
        },
        DebugAction::SavePlayerState(index) => Ok(
            DebugStep::SavePlayer { player_slot: saved_player_id(*index) },
        ),
        DebugAction::LoadPlayerState(index) => Ok(
            DebugStep::LoadPlayer { player_slot: saved_player_id(*index) },
        ),
        DebugAction::AddCoins(coins) => Ok(DebugStep::UpdateAdventure(*coins)),
        DebugAction::FilterCardList => Ok(DebugStep::FilterCardList),
        DebugAction::AddToHand(card) => Ok(DebugStep::AddToHand(*card)),
    }
}

/// Whether this crate defines the card named `name`.
pub open spec fn is_defined_card(name: CardName) -> bool {
    ||| name == CardName::MagistratesThronehall
    ||| name == CardName::LivingStone
    ||| name == CardName::SealedNecropolis
    ||| name == CardName::HasteResonator
    ||| name == CardName::StalwartProtector
}

/// The definition, not upgraded, of the card named `name`, among the cards
/// that this crate defines.
pub fn card_definition_for(name: CardName) -> (r: Option<CardDefinition>)
    ensures
        r is Some <==> is_defined_card(name),
        r matches Some(d) ==> d.name == name,
{
    let meta = CardMetadata { is_upgraded: false };
    match name {
        CardName::MagistratesThronehall => Some(magistrates_thronehall(meta)),
        CardName::LivingStone => Some(living_stone(meta)),
        CardName::SealedNecropolis => Some(sealed_necropolis(meta)),
        CardName::HasteResonator => Some(haste_resonator(meta)),
        CardName::StalwartProtector => Some(stalwart_protector(meta)),
        _ => None,
    }
}

/// `after` is `before` once the topmost card of the `side` player's deck
/// became a card with `definition` and was drawn into their hand.
pub open spec fn added_to_hand(
    before: GameState,
    after: GameState,
    side: Side,
    definition: CardDefinition,
) -> bool {
    let deck = deck_cards(before, side);
    exists|top: CardId|
        #[trigger] is_selection_of(seq![top], deck, 1) && chosen_are_topmost(before, seq![top], deck)
            && after.card_state(top) == (CardState {
            position: CardPosition::Hand(side),
            sorting_key: before.info.next_sorting_key,
            definition,
            ..before.card_state(top)
        }) && after.cards_agree_except(before, top) && after.info == (GameInfo {
            next_sorting_key: (before.info.next_sorting_key + 1) as u64,
            ..before.info
        }) && after.same_players_and_logs(before)
}

/// The debug 'add to hand' step: the topmost card of the `side` player's
/// deck becomes a card with `definition`, and the player draws it. Nothing
/// happens when their deck is empty; fails, changing nothing, when no
/// sorting key is left.
pub fn add_to_hand(game: &mut GameState, side: Side, definition: CardDefinition) -> (r: Result<
    (),
    GameError,
>)
    requires
        old(game).wf(),
    ensures
        final(game).wf(),
        deck_cards(*old(game), side).len() == 0 ==> r is Ok && *final(game) == *old(game),
        deck_cards(*old(game), side).len() > 0 ==> (r is Ok <==> old(game).info.next_sorting_key
            < u64::MAX),
        deck_cards(*old(game), side).len() > 0 && r is Ok ==> added_to_hand(
            *old(game),
            *final(game),
            side,
            definition,
        ),
        r is Err ==> *final(game) == *old(game),
{
    let ghost g0 = *game;
    let ghost deck = deck_cards(g0, side);
    let top = top_of_deck(game, side, 1);
    if top.len() == 0 {
        return Ok(());
    }
    let card_id = top[0];
    let _n = game.card_count(side);
    proof {
        crate::queries::lemma_matching_ids(
            g0.cards(side),
            side,
            CardFilter::InPosition(CardPosition::Deck(side)),
        );
        assert(deck.contains(card_id));
        let k = choose|k: int| 0 <= k < deck.len() && deck[k] == card_id;
        assert(g0.valid_id(deck[k]));
    }
    if game.info.next_sorting_key == u64::MAX {
        return Err(GameError::ValueOutOfRange);
    }
    game.set_definition(card_id, definition);
    let ghost g1 = *game;
    match game.move_card(card_id, CardPosition::Hand(side)) {
        Ok(()) => {},
        Err(e) => {
            return Err(e);
        },
    }
    proof {
        assert(top@ =~= seq![card_id]);
        assert forall|c: CardId| #![trigger g0.card_state(c)] game.valid_id(c) && c != card_id implies game.card_state(c) == g0.card_state(c) by {
            assert(g1.card_state(c) == g0.card_state(c));
        }
        assert(game.cards_agree_except(g0, card_id));
    }
    Ok(())
}

/// The step that follows each debug action: the actions which change a
/// player's numbers or seat update the game, flipping the viewpoint swaps
/// the seats, the save and load actions name the slot 100 above their
/// index, and so on for each action.
pub proof fn lemma_debug_step_for_each_action(
    action: DebugAction,
    game_id: Option<GameId>,
    request_game: Option<GameId>,
)
    ensures
        action is FlipViewpoint ==> spec_debug_step(action, game_id, request_game) == Ok::<
            DebugStep,
            DebugError,
        >(DebugStep::FlipViewpoint),
        action matches DebugAction::JoinGame(side) ==> spec_debug_step(action, game_id, request_game)
            == Ok::<DebugStep, DebugError>(DebugStep::JoinGame { game_id: game_id->0, side }),
        (action is AddMana || action is AddActionPoints || action is AddScore
            || action is SetNamedPlayer) ==> spec_debug_step(action, game_id, request_game) == Ok::<
            DebugStep,
            DebugError,
        >(DebugStep::UpdateGame),
        action matches DebugAction::SaveGameState(index) ==> spec_debug_step(
            action,
            game_id,
            request_game,
        ) == Ok::<DebugStep, DebugError>(DebugStep::SaveGame { game_slot: GameId((100 + index) as u128) }),
        action matches DebugAction::LoadGameState(index) ==> spec_debug_step(
            action,
            game_id,
            request_game,
        ) == match request_game {
            Some(g) => Ok::<DebugStep, DebugError>(
                DebugStep::LoadGame { game_slot: GameId((100 + index) as u128), game_id: g },
            ),
            None => Err::<DebugStep, DebugError>(DebugError::ExpectedGameId),
        },
        action matches DebugAction::SavePlayerState(index) ==> spec_debug_step(
            action,
            game_id,
            request_game,
        ) == Ok::<DebugStep, DebugError>(DebugStep::SavePlayer { player_slot: PlayerId::Database(index) }),
        action matches DebugAction::LoadPlayerState(index) ==> spec_debug_step(
            action,
            game_id,
            request_game,
        ) == Ok::<DebugStep, DebugError>(DebugStep::LoadPlayer { player_slot: PlayerId::Database(index) }),
        action matches DebugAction::AddCoins(coins) ==> spec_debug_step(action, game_id, request_game)
            == Ok::<DebugStep, DebugError>(DebugStep::UpdateAdventure(coins)),
        action is FilterCardList ==> spec_debug_step(action, game_id, request_game) == Ok::<
            DebugStep,
            DebugError,
        >(DebugStep::FilterCardList),
        action matches DebugAction::AddToHand(card) ==> spec_debug_step(action, game_id, request_game)
            == Ok::<DebugStep, DebugError>(DebugStep::AddToHand(card)),
        action matches DebugAction::NewGame(side) ==> spec_debug_step(action, game_id, request_game)
            matches Ok(DebugStep::InvokeNewGame(a)) && a.debug_options matches Some(o)
            && o.override_game_id == Some(game_id->0),
{
}

} // verus!
