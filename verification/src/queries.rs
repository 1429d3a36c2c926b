//! Questions about the game which the rules ask: which cards stand where, what
//! a card costs, where a played card goes.
//!
//! The numeric questions that abilities may answer (a cost, a shield, the
//! number of cards accessed) are put to the abilities of the cards
//! ([crate::flags::query_number]). Only a card's attack is changed by any
//! of their transformations ([crate::flags::lemma_only_attack_is_transformed]),
//! so these answers are the ones that the card definitions give.

use vstd::prelude::*;

use crate::card_definition::EventSubject;
use crate::flags::{answerers, lemma_only_attack_is_transformed, query_number, QueryKind};
use crate::game_actions::CardTarget;
use crate::game_state::{CardPosition, CardState, GameState, RoomLocation};
use crate::primitives::{
    ActionCount, AttackValue, CardId, CardSubtype, CardType, HealthValue, ManaValue, RoomId,
    ShieldValue, Side,
};

verus! {

/// A set of cards, as the rules select them.
#[derive(Debug, Clone, Copy, PartialEq, Eq, Structural)]
pub enum CardFilter {
    /// Cards in this position
    InPosition(CardPosition),
    /// Cards of this type in this position
    TypeInPosition(CardType, CardPosition),
    /// Artifacts in play which are weapons
    WeaponsInPlay,
}

pub open spec fn filter_matches(card: CardState, filter: CardFilter) -> bool {
    match filter {
        CardFilter::InPosition(p) => card.position == p,
        CardFilter::TypeInPosition(t, p) => card.position == p && card.definition.card_type == t,
        CardFilter::WeaponsInPlay => {
            &&& card.position == CardPosition::ArenaItem
            &&& card.definition.card_type == CardType::Artifact
            &&& card.definition.subtypes@.contains(CardSubtype::Weapon)
        },
    }
}

/// The ids of the cards of `cards` which `filter` selects, in order.
pub open spec fn matching_ids(cards: Seq<CardState>, filter: CardFilter) -> Seq<CardId>
    decreases cards.len(),
{
    if cards.len() == 0 {
        Seq::empty()
    } else {
        matching_ids(cards.drop_last(), filter) + if filter_matches(cards.last(), filter) {
            seq![cards.last().id]
        } else {
            Seq::empty()
        }
    }
}

/// The cards of the `side` player which `filter` selects, by index.
pub open spec fn selected_cards(game: GameState, side: Side, filter: CardFilter) -> Seq<CardId> {
    matching_ids(game.cards(side), filter)
}

/// Does `card` pass `filter`?
pub fn card_matches(card: &CardState, filter: CardFilter) -> (r: bool)
    ensures
        r == filter_matches(*card, filter),
{
    match filter {
        CardFilter::InPosition(p) => card.position == p,
        CardFilter::TypeInPosition(t, p) => card.position == p && card.definition.card_type == t,
        CardFilter::WeaponsInPlay => card.position == CardPosition::ArenaItem
            && card.definition.card_type == CardType::Artifact && card.definition.has_subtype(
            CardSubtype::Weapon,
        ),
    }
}

/// The ids of the cards of the `side` player which `filter` selects, in the
/// order of their indices.
pub fn card_list(game: &GameState, side: Side, filter: CardFilter) -> (r: Vec<CardId>)
    requires
        game.wf(),
    ensures
        r@ == selected_cards(*game, side, filter),
{
    let cards = match side {
        Side::Overlord => &game.overlord_cards,
        Side::Champion => &game.champion_cards,
    };
    let mut result: Vec<CardId> = Vec::new();
    let mut i: usize = 0;
    while i < cards.len()
        invariant
            i <= cards@.len(),
            cards@ == game.cards(side),
            result@ == matching_ids(cards@.subrange(0, i as int), filter),
        decreases cards.len() - i,
    {
        proof {
            assert(cards@.subrange(0, i + 1).drop_last() == cards@.subrange(0, i as int));
        }
        if card_matches(&cards[i], filter) {
            result.push(cards[i].id);
        }
        i = i + 1;
    }
    proof {
        assert(cards@.subrange(0, cards@.len() as int) == cards@);
    }
    result
}

/// Every id selected from a well-formed list of `side` cards names a card
/// of `side` which the filter selects; every card which the filter selects is
/// there; no id occurs twice.
pub proof fn lemma_matching_ids(cards: Seq<CardState>, side: Side, filter: CardFilter)
    requires
        cards.len() <= usize::MAX,
        forall|i: int|
            0 <= i < cards.len() ==> (#[trigger] cards[i]).id == (CardId {
                side,
                index: i as usize,
            }),
    ensures
        forall|k: int|
            #![trigger matching_ids(cards, filter)[k]]
            0 <= k < matching_ids(cards, filter).len() ==> matching_ids(cards, filter)[k].side
                == side && matching_ids(cards, filter)[k].index < cards.len() && filter_matches(
                cards[matching_ids(cards, filter)[k].index as int],
                filter,
            ),
        forall|i: int|
            0 <= i < cards.len() && filter_matches(#[trigger] cards[i], filter)
                ==> matching_ids(cards, filter).contains(cards[i].id),
        matching_ids(cards, filter).no_duplicates(),
    decreases cards.len(),
{
    if cards.len() > 0 {
        let prefix = cards.drop_last();
        lemma_matching_ids(prefix, side, filter);
        let m = matching_ids(cards, filter);
        let mp = matching_ids(prefix, filter);
        let last = cards.last();
        assert(last.id == CardId { side, index: (cards.len() - 1) as usize });
        if filter_matches(last, filter) {
            assert(m == mp.push(last.id));
        } else {
            assert(m == mp);
        }
        assert forall|i: int|
            0 <= i < cards.len() && filter_matches(#[trigger] cards[i], filter) implies m.contains(
            cards[i].id,
        ) by {
            if i < cards.len() - 1 {
                assert(prefix[i] == cards[i]);
                let j = choose|j: int| 0 <= j < mp.len() && mp[j] == prefix[i].id;
                assert(m[j] == mp[j]);
            } else {
                assert(m[mp.len() as int] == last.id);
            }
        }
        assert forall|k: int| 0 <= k < m.len() implies #[trigger] m[k].side == side && m[k].index
            < cards.len() && filter_matches(cards[m[k].index as int], filter) by {
            if k < mp.len() {
                assert(m[k] == mp[k]);
                assert(mp[k].side == side);
                assert(mp[k].index < prefix.len());
                assert(filter_matches(prefix[mp[k].index as int], filter));
                assert(prefix[mp[k].index as int] == cards[mp[k].index as int]);
            } else {
                assert(m[k] == last.id);
                assert(filter_matches(last, filter));
                assert(cards[cards.len() - 1] == last);
            }
        }
        assert forall|a: int, b: int| 0 <= a < m.len() && 0 <= b < m.len() && a != b implies m[a]
            != m[b] by {
            if a < mp.len() && b < mp.len() {
                assert(m[a] == mp[a] && m[b] == mp[b]);
            } else if a < mp.len() {
                assert(m[a] == mp[a]);
                assert(mp[a].index < prefix.len());
                assert(m[b] == last.id);
            } else if b < mp.len() {
                assert(m[b] == mp[b]);
                assert(mp[b].index < prefix.len());
                assert(m[a] == last.id);
            }
        }
    }
}

/// How many cards of the `side` player `filter` selects.
pub fn card_count(game: &GameState, side: Side, filter: CardFilter) -> (r: usize)
    requires
        game.wf(),
    ensures
        r == selected_cards(*game, side, filter).len(),
{
    card_list(game, side, filter).len()
}

/// The Overlord cards occupying `room`.
pub open spec fn occupants_filter(room: RoomId) -> CardFilter {
    CardFilter::InPosition(CardPosition::Room(room, RoomLocation::Occupant))
}

/// The Overlord cards defending `room`.
pub open spec fn defenders_filter(room: RoomId) -> CardFilter {
    CardFilter::InPosition(CardPosition::Room(room, RoomLocation::Defender))
}

/// The Champion cards of type `card_type` in play.
pub open spec fn arena_filter(card_type: CardType) -> CardFilter {
    CardFilter::TypeInPosition(card_type, CardPosition::ArenaItem)
}

/// The Overlord cards occupying `room`.
pub fn occupants(game: &GameState, room: RoomId) -> (r: Vec<CardId>)
    requires
        game.wf(),
    ensures
        r@ == selected_cards(*game, Side::Overlord, occupants_filter(room)),
{
    card_list(
        game,
        Side::Overlord,
        CardFilter::InPosition(CardPosition::Room(room, RoomLocation::Occupant)),
    )
}

/// The Overlord cards defending `room`, in the order of their indices.
pub fn defenders_unordered(game: &GameState, room: RoomId) -> (r: Vec<CardId>)
    requires
        game.wf(),
    ensures
        r@ == selected_cards(*game, Side::Overlord, defenders_filter(room)),
{
    card_list(
        game,
        Side::Overlord,
        CardFilter::InPosition(CardPosition::Room(room, RoomLocation::Defender)),
    )
}

/// The Champion's artifacts in play.
pub fn artifacts(game: &GameState) -> (r: Vec<CardId>)
    requires
        game.wf(),
    ensures
        r@ == selected_cards(*game, Side::Champion, arena_filter(CardType::Artifact)),
{
    card_list(
        game,
        Side::Champion,
        CardFilter::TypeInPosition(CardType::Artifact, CardPosition::ArenaItem),
    )
}

/// The Champion's evocations in play.
pub fn evocations(game: &GameState) -> (r: Vec<CardId>)
    requires
        game.wf(),
    ensures
        r@ == selected_cards(*game, Side::Champion, arena_filter(CardType::Evocation)),
{
    card_list(
        game,
        Side::Champion,
        CardFilter::TypeInPosition(CardType::Evocation, CardPosition::ArenaItem),
    )
}

/// The Champion's allies in play.
pub fn allies(game: &GameState) -> (r: Vec<CardId>)
    requires
        game.wf(),
    ensures
        r@ == selected_cards(*game, Side::Champion, arena_filter(CardType::Ally)),
{
    card_list(
        game,
        Side::Champion,
        CardFilter::TypeInPosition(CardType::Ally, CardPosition::ArenaItem),
    )
}

/// The Champion's weapons in play: artifacts which have the weapon subtype.
pub fn game_weapons(game: &GameState) -> (r: Vec<CardId>)
    requires
        game.wf(),
    ensures
        r@ == selected_cards(*game, Side::Champion, CardFilter::WeaponsInPlay),
{
    card_list(game, Side::Champion, CardFilter::WeaponsInPlay)
}

/// The mana that the Champion must pay to raze `card_id`.
pub open spec fn spec_raze_cost(game: GameState, card_id: CardId) -> ManaValue {
    match game.card_state(card_id).definition.config.stats.raze_cost {
        Some(c) => c,
        None => 0,
    }
}

/// The mana that the Champion must pay to raze `card_id`.
pub fn raze_cost(game: &GameState, card_id: CardId) -> (r: ManaValue)
    requires
        game.valid_id(card_id),
    ensures
        r == spec_raze_cost(*game, card_id),
{
    match game.card(card_id).definition.config.stats.raze_cost {
        Some(c) => c,
        None => 0,
    }
}

/// The attack of `card_id` before any boost, if it has one.
pub fn base_attack(game: &GameState, card_id: CardId) -> (r: Option<AttackValue>)
    requires
        game.valid_id(card_id),
    ensures
        r == game.card_state(card_id).definition.config.stats.base_attack,
{
    game.card(card_id).definition.config.stats.base_attack
}

/// The health of `card_id`, if it has one.
pub fn health(game: &GameState, card_id: CardId) -> (r: Option<HealthValue>)
    requires
        game.valid_id(card_id),
    ensures
        r == game.card_state(card_id).definition.config.stats.health,
{
    game.card(card_id).definition.config.stats.health
}

/// The shield of `card_id`: the mana that the Champion pays to get past it.
pub fn shield(game: &GameState, card_id: CardId) -> (r: ShieldValue)
    requires
        game.valid_id(card_id),
    ensures
        r == match game.card_state(card_id).definition.config.stats.shield {
            Some(s) => s,
            None => 0,
        },
{
    let base = match game.card(card_id).definition.config.stats.shield {
        Some(s) => s,
        None => 0,
    };
    proof {
        lemma_only_attack_is_transformed(
            *game,
            QueryKind::ShieldValue,
            answerers(*game, QueryKind::ShieldValue),
            EventSubject::Card(card_id),
            base as int,
        );
    }
    match query_number(game, QueryKind::ShieldValue, EventSubject::Card(card_id), base) {
        Some(n) => n,
        None => base,
    }
}

/// The mana cost of `card_id`, if it has one.
pub fn mana_cost(game: &GameState, card_id: CardId) -> (r: Option<ManaValue>)
    requires
        game.valid_id(card_id),
    ensures
        r == game.card_state(card_id).definition.cost.mana,
{
    match game.card(card_id).definition.cost.mana {
        Some(m) => {
            proof {
                lemma_only_attack_is_transformed(
                    *game,
                    QueryKind::ManaCost,
                    answerers(*game, QueryKind::ManaCost),
                    EventSubject::Card(card_id),
                    m as int,
                );
            }
            query_number(game, QueryKind::ManaCost, EventSubject::Card(card_id), m)
        },
        None => None,
    }
}

/// The action points needed to play `card_id`.
pub fn action_cost(game: &GameState, card_id: CardId) -> (r: ActionCount)
    requires
        game.valid_id(card_id),
    ensures
        r == game.card_state(card_id).definition.cost.actions,
{
    game.card(card_id).definition.cost.actions
}

pub open spec fn spec_enters_play_face_up(card_type: CardType) -> bool {
    card_type != CardType::Minion && card_type != CardType::Project && card_type
        != CardType::Scheme
}

/// Whether `card_id` is paid for and turned face up when played. Minions,
/// projects and schemes enter play face down.
pub fn enters_play_face_up(game: &GameState, card_id: CardId) -> (r: bool)
    requires
        game.valid_id(card_id),
    ensures
        r == spec_enters_play_face_up(game.card_state(card_id).definition.card_type),
{
    match game.card(card_id).definition.card_type {
        CardType::Minion => false,
        CardType::Project => false,
        CardType::Scheme => false,
        _ => true,
    }
}

pub open spec fn spec_played_position(card_type: CardType, side: Side, target: CardTarget) -> Option<
    CardPosition,
> {
    match card_type {
        CardType::Artifact | CardType::Evocation | CardType::Ally => Some(CardPosition::ArenaItem),
        CardType::Spell => Some(CardPosition::DiscardPile(side)),
        CardType::Minion => match target {
            CardTarget::Room(room) => Some(CardPosition::Room(room, RoomLocation::Defender)),
            CardTarget::NoTarget => None,
        },
        CardType::Project | CardType::Scheme => match target {
            CardTarget::Room(room) => Some(CardPosition::Room(room, RoomLocation::Occupant)),
            CardTarget::NoTarget => None,
        },
    }
}

/// Where `card_id`, played by `side` with `target`, comes to rest: permanents
/// of the Champion in the arena, spells in the discard pile, minions defending
/// and projects and schemes occupying the targeted room. A minion, project or
/// scheme played without a room has none.
pub fn played_position(game: &GameState, side: Side, card_id: CardId, target: CardTarget) -> (r:
    Option<CardPosition>)
    requires
        game.valid_id(card_id),
    ensures
        r == spec_played_position(game.card_state(card_id).definition.card_type, side, target),
{
    match game.card(card_id).definition.card_type {
        CardType::Artifact => Some(CardPosition::ArenaItem),
        CardType::Evocation => Some(CardPosition::ArenaItem),
        CardType::Ally => Some(CardPosition::ArenaItem),
        CardType::Spell => Some(CardPosition::DiscardPile(side)),
        CardType::Minion => match target {
            CardTarget::Room(room) => Some(CardPosition::Room(room, RoomLocation::Defender)),
            CardTarget::NoTarget => None,
        },
        _ => match target {
            CardTarget::Room(room) => Some(CardPosition::Room(room, RoomLocation::Occupant)),
            CardTarget::NoTarget => None,
        },
    }
}

/// The number of cards accessed in the vault during a raid.
pub open spec fn spec_vault_access_count() -> u32 {
    1
}

/// The number of cards accessed in the sanctum during a raid.
pub open spec fn spec_sanctum_access_count() -> u32 {
    1
}

/// What a question about the cards accessed is about: the active raid, or
/// the Champion when there is none.
fn access_subject(game: &GameState) -> EventSubject {
    match &game.info.raid {
        Some(raid) => EventSubject::Raid(raid.raid_id),
        None => EventSubject::Player(Side::Champion),
    }
}

/// The number of cards accessed in the vault during a raid: one.
pub fn vault_access_count(game: &GameState) -> (r: u32)
    ensures
        r == spec_vault_access_count(),
{
    let subject = access_subject(game);
    proof {
        lemma_only_attack_is_transformed(
            *game,
            QueryKind::VaultAccessCount,
            answerers(*game, QueryKind::VaultAccessCount),
            subject,
            1,
        );
    }
    match query_number(game, QueryKind::VaultAccessCount, subject, 1) {
        Some(n) => n,
        None => 1,
    }
}

/// The number of cards accessed in the sanctum during a raid: one.
pub fn sanctum_access_count(game: &GameState) -> (r: u32)
    ensures
        r == spec_sanctum_access_count(),
{
    let subject = access_subject(game);
    proof {
        lemma_only_attack_is_transformed(
            *game,
            QueryKind::SanctumAccessCount,
            answerers(*game, QueryKind::SanctumAccessCount),
            subject,
            1,
        );
    }
    match query_number(game, QueryKind::SanctumAccessCount, subject, 1) {
        Some(n) => n,
        None => 1,
    }
}

/// Where the minion `card_id` defends: its room, and its position among the
/// room's defenders, in the order of their indices.
pub open spec fn spec_minion_position(game: GameState, card_id: CardId) -> Option<(RoomId, usize)> {
    match game.card_state(card_id).position {
        CardPosition::Room(room, RoomLocation::Defender) => Some(
            (
                room,
                matching_ids(
                    game.cards(card_id.side).subrange(0, card_id.index as int),
                    defenders_filter(room),
                ).len() as usize,
            ),
        ),
        _ => None,
    }
}

/// Where the minion `card_id` defends, if it does.
pub fn minion_position(game: &GameState, card_id: CardId) -> (r: Option<(RoomId, usize)>)
    requires
        game.wf(),
        game.valid_id(card_id),
    ensures
        r == spec_minion_position(*game, card_id),
{
    match game.card(card_id).position {
        CardPosition::Room(room, RoomLocation::Defender) => {
            let cards = match card_id.side {
                Side::Overlord => &game.overlord_cards,
                Side::Champion => &game.champion_cards,
            };
            let filter = CardFilter::InPosition(CardPosition::Room(room, RoomLocation::Defender));
            let mut count: usize = 0;
            let mut i: usize = 0;
            while i < card_id.index
                invariant
                    i <= card_id.index,
                    card_id.index < cards@.len(),
                    cards@ == game.cards(card_id.side),
                    filter == defenders_filter(room),
                    count == matching_ids(cards@.subrange(0, i as int), filter).len(),
                    count <= i,
                decreases card_id.index - i,
            {
                proof {
                    assert(cards@.subrange(0, i + 1).drop_last() == cards@.subrange(0, i as int));
                }
                if card_matches(&cards[i], filter) {
                    count = count + 1;
                }
                i = i + 1;
            }
            Some((room, count))
        },
        _ => None,
    }
}

} // verus!
