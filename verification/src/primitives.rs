//! Identifiers and small value types shared by every part of the rules.

use vstd::prelude::*;

verus! {

pub type ManaValue = u32;

pub type ActionCount = u32;

pub type PointsValue = u32;

pub type AttackValue = u32;

pub type HealthValue = u32;

pub type ShieldValue = u32;

pub type TurnNumber = u32;

/// The two players in a game.
#[derive(Debug, Clone, Copy, PartialEq, Eq, Structural, Hash)]
pub enum Side {
    Overlord,
    Champion,
}

impl Side {
    pub open spec fn spec_opponent(self) -> Side {
        match self {
            Side::Overlord => Side::Champion,
            Side::Champion => Side::Overlord,
        }
    }

    /// The other player.
    #[verifier::when_used_as_spec(spec_opponent)]
    pub fn opponent(self) -> (r: Side)
        ensures
            r == self.spec_opponent(),
            r != self,
    {
        match self {
            Side::Overlord => Side::Champion,
            Side::Champion => Side::Overlord,
        }
    }
}

/// Identifies a card: the player who owns it and its index among that
/// player's cards.
#[derive(Debug, Clone, Copy, PartialEq, Eq, Structural, Hash)]
pub struct CardId {
    pub side: Side,
    pub index: usize,
}

impl CardId {
    pub fn new(side: Side, index: usize) -> (r: CardId)
        ensures
            r.side == side,
            r.index == index,
    {
        CardId { side, index }
    }
}

/// Identifies an ability: the card that has it and its position among the
/// card's abilities.
#[derive(Debug, Clone, Copy, PartialEq, Eq, Structural, Hash)]
pub struct AbilityId {
    pub card_id: CardId,
    pub index: usize,
}

/// The rooms that the Overlord defends.
#[derive(Debug, Clone, Copy, PartialEq, Eq, Structural, Hash, PartialOrd, Ord)]
pub enum RoomId {
    /// The Overlord's deck
    Vault,
    /// The Overlord's hand
    Sanctum,
    /// The Overlord's discard pile
    Crypts,
    RoomA,
    RoomB,
    RoomC,
    RoomD,
    RoomE,
}

/// Identifies a game; the value is the game's ULID.
#[derive(Debug, Clone, Copy, PartialEq, Eq, Structural, Hash)]
pub struct GameId(pub u128);

impl GameId {
    /// The game id whose ULID has the value `value`.
    pub fn new_from_u128(value: u128) -> (r: GameId)
        ensures
            r.0 == value,
    {
        GameId(value)
    }
}

/// The computer players that can take part in a game.
#[derive(Debug, Clone, Copy, PartialEq, Eq, Structural, Hash)]
pub enum AIPlayer {
    NoAction,
    TutorialOpponent,
    DebugChampion,
    DebugOverlord,
}

/// Identifies a player: one stored in the database by its ULID, or a
/// computer player.
#[derive(Debug, Clone, Copy, PartialEq, Eq, Structural, Hash)]
pub enum PlayerId {
    Database(u128),
    AI(AIPlayer),
}

/// Identifies one raid within a game.
#[derive(Debug, Clone, Copy, PartialEq, Eq, Structural, Hash)]
pub struct RaidId(pub u32);

#[derive(Debug, Clone, Copy, PartialEq, Eq, Structural, Hash)]
pub enum CardType {
    Artifact,
    Evocation,
    Ally,
    Spell,
    Minion,
    Project,
    Scheme,
}

#[derive(Debug, Clone, Copy, PartialEq, Eq, Structural, Hash)]
pub enum CardSubtype {
    Weapon,
    Warrior,
    Roombound,
    Nightbound,
    Dictate,
}

#[derive(Debug, Clone, Copy, PartialEq, Eq, Structural, Hash)]
pub enum School {
    Law,
    Time,
    Beyond,
    Shadow,
}

#[derive(Debug, Clone, Copy, PartialEq, Eq, Structural, Hash)]
pub enum Rarity {
    Common,
    Uncommon,
    Rare,
}

/// An object in the game which can be the source or target of an effect.
#[derive(Debug, Clone, Copy, PartialEq, Eq, Structural, Hash)]
pub enum GameObjectId {
    CardId(CardId),
    Deck(Side),
    DiscardPile(Side),
    Character(Side),
}

/// A player's choice about their opening hand.
#[derive(Debug, Clone, Copy, PartialEq, Eq, Structural, Hash)]
pub enum MulliganDecision {
    Keep,
    Mulligan,
}

/// What a scheme card is worth, and what it takes to score it.
#[derive(Debug, Clone, Copy, PartialEq, Eq, Structural, Hash)]
pub struct SchemePoints {
    pub level_requirement: u32,
    pub points: PointsValue,
}

/// How much mana a weapon asks for each extra point of attack.
#[derive(Debug, Clone, Copy, PartialEq, Eq, Structural, Hash)]
pub struct AttackBoost {
    pub cost: ManaValue,
    pub bonus: AttackValue,
}

impl AttackBoost {
    /// The boost of a card that has none.
    pub fn none() -> (r: AttackBoost)
        ensures
            r.cost == 0,
            r.bonus == 0,
    {
        AttackBoost { cost: 0, bonus: 0 }
    }
}

/// The cards that the rules in this crate name.
#[derive(Debug, Clone, Copy, PartialEq, Eq, Structural, Hash)]
pub enum CardName {
    Greataxe,
    StalwartProtector,
    MagistratesThronehall,
    LivingStone,
    SealedNecropolis,
    HasteResonator,
    Frog,
    EldritchSurge,
    Scout,
    Machinate,
    SimpleAxe,
    GatheringDark,
    ArcaneRecovery,
    Lodestone,
    Devise,
    SimpleHammer,
    Contemplate,
    SimpleClub,
    TestChampionSpell,
}

} // verus!
