//! Card definitions: costs, stats, abilities and the delegates through which
//! abilities take part in the rules.
//!
//! A delegate names its requirement, mutation or transformation by a value of
//! an enum below; the behaviour of each named value is a verified function in
//! `card_helpers`.

use vstd::prelude::*;

use crate::primitives::{
    AbilityId, ActionCount, AttackBoost, AttackValue, CardName, CardSubtype, CardType,
    HealthValue, ManaValue, Rarity, SchemePoints, School, ShieldValue, Side,
};

verus! {

/// An additional cost which some cards ask for on top of mana and actions.
#[derive(Debug, Clone, Copy, PartialEq, Eq, Structural)]
pub enum CustomCost {
    /// Spend this many more action points.
    SpendActionPoints(ActionCount),
    /// Lose this much more mana.
    LoseMana(ManaValue),
    /// Remove the card from the game.
    Banish,
    /// Move the card to its owner's discard pile.
    Sacrifice,
}

/// The cost to play a card or to activate an ability.
#[derive(Debug, Clone, Copy, PartialEq, Eq, Structural)]
pub struct Cost {
    pub mana: Option<ManaValue>,
    pub actions: ActionCount,
    pub custom_cost: Option<CustomCost>,
}

/// Numeric properties of a card.
#[derive(Debug, Clone, Copy, PartialEq, Eq, Structural)]
pub struct CardStats {
    pub base_attack: Option<AttackValue>,
    pub attack_boost: Option<AttackBoost>,
    pub health: Option<HealthValue>,
    pub shield: Option<ShieldValue>,
    pub raze_cost: Option<ManaValue>,
    pub scheme_points: Option<SchemePoints>,
}

impl CardStats {
    /// Stats with no value set.
    pub fn empty() -> (r: CardStats)
        ensures
            r.base_attack is None,
            r.attack_boost is None,
            r.health is None,
            r.shield is None,
            r.raze_cost is None,
            r.scheme_points is None,
    {
        CardStats {
            base_attack: None,
            attack_boost: None,
            health: None,
            shield: None,
            raze_cost: None,
            scheme_points: None,
        }
    }
}

/// The faction of a weapon or a minion.
#[derive(Debug, Clone, Copy, PartialEq, Eq, Structural)]
pub enum Faction {
    Infernal,
    Abyssal,
    Mortal,
}

/// Card configuration beyond its type and cost.
#[derive(Debug, Clone, Copy, PartialEq, Eq, Structural)]
pub struct CardConfig {
    pub stats: CardStats,
    pub faction: Option<Faction>,
}

/// Grammatical position of a keyword in a sentence.
#[derive(Debug, Clone, Copy, PartialEq, Eq, Structural)]
pub enum Sentence {
    Start,
    Internal,
}

/// How the word 'damage' is phrased.
#[derive(Debug, Clone, Copy, PartialEq, Eq, Structural)]
pub enum DamageWord {
    DealStart,
    DealInternal,
    TakeStart,
    TakeInternal,
}

/// Keywords of rules text.
#[derive(Debug, Clone, Copy, PartialEq, Eq, Structural)]
pub enum Keyword {
    Play,
    Dawn,
    Dusk,
    Score,
    Combat,
    Encounter,
    Unveil,
    SuccessfulRaid,
    Store(Sentence, ManaValue),
    Take(Sentence, ManaValue),
    DealDamage(DamageWord, u32),
    LevelUp,
    Construct,
    /// The ability to raze a card.
    RazeAbility,
    Curse,
    /// Sacrificing the card is the cost.
    SacrificeCost,
}

/// How a number is shown in rules text.
#[derive(Debug, Clone, Copy, PartialEq, Eq, Structural)]
pub enum NumericOperator {
    NoOperator,
    Add,
}

/// One piece of rules text.
#[derive(Debug, Clone, PartialEq, Eq)]
pub enum TextToken {
    Literal(String),
    Number(NumericOperator, u32),
    Mana(ManaValue),
    Actions(ActionCount),
    Keyword(Keyword),
    /// A cost of this much mana
    Cost(ManaValue),
    /// Gain this many action points
    GainActions(ActionCount),
}

/// The rules text of an ability.
#[derive(Debug, Clone)]
pub enum AbilityText {
    /// Text given token by token.
    Text(Vec<TextToken>),
    /// The text of the standard weapon boost ability, which shows the card's
    /// current attack boost.
    EncounterBoost,
}

/// What an activated ability must target.
#[derive(Debug, Clone, Copy, PartialEq, Eq, Structural)]
pub enum TargetRequirement {
    NoTarget,
    TargetRoom,
}

#[derive(Debug, Clone, Copy, PartialEq, Eq, Structural)]
pub enum AbilityType {
    /// Standard abilities function at all times without requiring activation.
    Standard,
    /// An ability which applies during an encounter with a minion.
    Encounter,
    /// Abilities which have an activation cost.
    Activated(Cost, TargetRequirement),
}

/// Whether an action is allowed: a default value, or a value which an effect
/// has forced.
#[derive(Debug, Clone, Copy, PartialEq, Eq, Structural)]
pub enum Flag {
    Default(bool),
    Override(bool),
}

impl Flag {
    /// The value of this flag.
    pub open spec fn value(self) -> bool {
        match self {
            Flag::Default(v) => v,
            Flag::Override(v) => v,
        }
    }

    /// The flag after allowing the action: a forced value stays.
    pub open spec fn allowed(self) -> Flag {
        match self {
            Flag::Default(_) => Flag::Default(true),
            Flag::Override(v) => Flag::Override(v),
        }
    }

    /// The flag after preventing the action: a forced value stays.
    pub open spec fn disallowed(self) -> Flag {
        match self {
            Flag::Default(_) => Flag::Default(false),
            Flag::Override(v) => Flag::Override(v),
        }
    }

    /// Allows the action, unless a value was forced.
    pub fn allow(self) -> (r: Flag)
        ensures
            r == self.allowed(),
    {
        match self {
            Flag::Default(_) => Flag::Default(true),
            Flag::Override(v) => Flag::Override(v),
        }
    }

    /// Prevents the action, unless a value was forced.
    pub fn disallow(self) -> (r: Flag)
        ensures
            r == self.disallowed(),
    {
        match self {
            Flag::Default(_) => Flag::Default(false),
            Flag::Override(v) => Flag::Override(v),
        }
    }

    /// Forces the value of this flag.
    pub fn with_override(self, value: bool) -> (r: Flag)
        ensures
            r == Flag::Override(value),
    {
        Flag::Override(value)
    }
}

/// A forced value survives allowing and preventing; otherwise the last of
/// them decides.
pub proof fn lemma_flag_override_wins(flag: Flag)
    ensures
        flag is Override ==> flag.allowed() == flag && flag.disallowed() == flag,
        flag is Default ==> flag.allowed().value() && !flag.disallowed().value(),
        flag.allowed().disallowed() == flag.disallowed(),
        flag.disallowed().allowed() == flag.allowed(),
{
}

/// A [Flag] which also records the ability that prevented the action.
#[derive(Debug, Clone, Copy, PartialEq, Eq, Structural)]
pub struct AbilityFlag {
    pub flag: Flag,
    pub disallowed_by: Option<AbilityId>,
}

impl AbilityFlag {
    /// Prevents the action, recording `ability_id` as the reason.
    pub fn disallow(self, ability_id: AbilityId) -> (r: AbilityFlag)
        ensures
            r.flag == self.flag.disallowed(),
            r.disallowed_by == Some(ability_id),
    {
        AbilityFlag { flag: self.flag.disallow(), disallowed_by: Some(ability_id) }
    }
}

/// The outcome of a raid.
#[derive(Debug, Clone, Copy, PartialEq, Eq, Structural)]
pub enum RaidOutcome {
    Success,
    Failure,
}

/// What to do with a card whose stored mana has all been taken.
#[derive(Debug, Clone, Copy, PartialEq, Eq, Structural)]
pub enum OnZeroStored {
    Sacrifice,
    Ignore,
}

/// When a delegate listens: the condition under which it applies.
#[derive(Debug, Clone, Copy, PartialEq, Eq, Structural)]
pub enum Requirement {
    /// Always applies.
    Always,
    /// Applies to events about the delegate's own card.
    ThisCard,
    /// Applies to events about the delegate's own ability.
    ThisAbility,
    /// Applies while the delegate's card is in play.
    InPlay,
    /// Applies while the delegate's card is face up in play, and to events
    /// about the card itself.
    FaceUpInPlayOrThisCard,
}

/// What an event delegate does to the game.
#[derive(Debug, Clone, Copy, PartialEq, Eq, Structural)]
pub enum Mutation {
    /// Record one more use of the card's attack boost.
    WriteBoost,
    /// Clear the card's attack boost uses.
    ClearBoost,
    /// Store this much mana in the played card.
    StoreMana(ManaValue),
    /// Move the card to its owner's discard pile once its stored mana is gone.
    DiscardWhenManaDepleted,
    /// Take this much stored mana from the card and give it to its owner.
    TakeStoredMana(ManaValue, OnZeroStored),
    /// Deal this much damage to the Champion.
    DealDamage(u32),
    /// End the current raid with this outcome.
    EndRaid(RaidOutcome),
    /// The player loses up to this many action points.
    LoseActionPointsIfAble(Side, ActionCount),
    /// Move the delegate's card to its owner's discard pile.
    MoveToDiscardPile,
    /// The Champion draws at most this many cards in a turn.
    LimitChampionDraws(u32),
    /// The player draws this many cards.
    DrawCards(Side, u32),
    /// Offer the Overlord to shuffle up to this many cards from their crypt
    /// into their vault.
    ShowShuffleIntoVaultPrompt(usize),
    /// The Overlord gains an action point when a basic action is taken for
    /// the third time in a turn.
    GainActionOnThirdUse(BasicAction),
    /// Offer the Champion to sacrifice the card to prevent this many curses.
    ShowSacrificeToPreventCursesPrompt(u32),
    /// The Champion loses this many curses.
    RemoveCurses(u32),
}

/// The basic actions that a player can take on their turn.
#[derive(Debug, Clone, Copy, PartialEq, Eq, Structural)]
pub enum BasicAction {
    GainMana,
    ProgressCard,
    PlayCard,
    DrawCard,
}

/// How a query delegate changes the answer to a query.
#[derive(Debug, Clone, Copy, PartialEq, Eq, Structural)]
pub enum Transformation {
    /// Add the card's attack boost once for each time it was used.
    AddBoost,
    /// Force a flag to true.
    OverrideTrue,
    /// Allow the action.
    Allow,
    /// Prevent the action.
    Disallow,
    /// Prevent the action, recording the delegate's ability.
    DisallowAbility,
    /// Prevent the action while the Champion has no curse.
    RequireChampionCurses,
}

/// A delegate which acts when an event happens.
#[derive(Debug, Clone, Copy, PartialEq, Eq, Structural)]
pub struct EventDelegate {
    pub requirement: Requirement,
    pub mutation: Mutation,
}

impl EventDelegate {
    pub fn new(requirement: Requirement, mutation: Mutation) -> (r: EventDelegate)
        ensures
            r.requirement == requirement,
            r.mutation == mutation,
    {
        EventDelegate { requirement, mutation }
    }
}

/// A delegate which changes the answer to a query.
#[derive(Debug, Clone, Copy, PartialEq, Eq, Structural)]
pub struct QueryDelegate {
    pub requirement: Requirement,
    pub transformation: Transformation,
}

impl QueryDelegate {
    pub fn new(requirement: Requirement, transformation: Transformation) -> (r: QueryDelegate)
        ensures
            r.requirement == requirement,
            r.transformation == transformation,
    {
        QueryDelegate { requirement, transformation }
    }
}

/// The ways in which an ability takes part in the rules.
#[derive(Debug, Clone, Copy, PartialEq, Eq, Structural)]
pub enum Delegate {
    /// The card's attack boost is activated during an encounter.
    ActivateBoost(EventDelegate),
    /// Query for the card's attack value.
    AttackValue(QueryDelegate),
    /// An encounter has ended.
    EncounterEnd(EventDelegate),
    /// A card is cast.
    CastCard(EventDelegate),
    /// Stored mana was taken from a card.
    StoredManaTaken(EventDelegate),
    /// An ability is activated.
    ActivateAbility(EventDelegate),
    /// A minion's combat abilities fire.
    MinionCombatAbility(EventDelegate),
    /// Query whether a card can have level counters placed on it.
    CanLevelUpCard(QueryDelegate),
    /// A minion was defeated.
    MinionDefeated(EventDelegate),
    /// A card is played.
    PlayCard(EventDelegate),
    /// The access phase of a raid starts.
    RaidAccessStart(EventDelegate),
    /// The access prompt of a raid is about to be populated.
    WillPopulateAccessPrompt(EventDelegate),
    /// A raid ended.
    RaidEnd(EventDelegate),
    /// A raid ended in success.
    RaidSuccess(EventDelegate),
    /// Query for the mana cost of a card.
    ManaCost(QueryDelegate),
    /// Query for the number of cards accessed in the sanctum.
    SanctumAccessCount(QueryDelegate),
    /// Query for the number of cards accessed in the vault.
    VaultAccessCount(QueryDelegate),
    /// Query for the shield value of a card.
    ShieldValue(QueryDelegate),
    /// The summon prompt of a raid is about to be populated.
    WillPopulateSummonPrompt(EventDelegate),
    /// A minion was summoned.
    SummonMinion(EventDelegate),
    /// A minion is approached during a raid.
    ApproachMinion(EventDelegate),
    /// A card is accessed during a raid.
    CardAccess(EventDelegate),
    /// A card is razed during a raid.
    RazeCard(EventDelegate),
    /// A custom access phase ended.
    CustomAccessEnd(EventDelegate),
    /// An ability is about to end the raid.
    AbilityWillEndRaid(EventDelegate),
    /// A player is about to draw cards.
    WillDrawCards(EventDelegate),
    /// Query for the status markers of a card.
    CardStatusMarkers(QueryDelegate),
    /// Query whether a card can be played.
    CanPlayCard(QueryDelegate),
    /// Query whether a minion can be summoned.
    CanSummon(QueryDelegate),
    /// Query whether an accessed card can be scored.
    CanScoreAccessedCard(QueryDelegate),
    /// Query whether the Overlord can score a scheme.
    CanCovenantScoreScheme(QueryDelegate),
    /// Query for the continuous display effect of a card.
    ContinuousDisplayEffect(QueryDelegate),
    /// The Champion is about to receive curses.
    WillReceiveCurses(EventDelegate),
    /// A player took the 'gain mana' basic action.
    GainManaAction(EventDelegate),
    /// A player took the 'progress card' basic action.
    ProgressCardAction(EventDelegate),
    /// A player took the 'draw card' basic action.
    DrawCardAction(EventDelegate),
    /// Query whether an activated ability can be activated.
    CanActivate(QueryDelegate),
    /// The Champion's turn begins.
    Dawn(EventDelegate),
    /// The Overlord's turn begins.
    Dusk(EventDelegate),
    /// A scheme was scored.
    ScoreScheme(EventDelegate),
}

/// The scope of a delegate: the ability which it belongs to.
#[derive(Debug, Clone, Copy, PartialEq, Eq, Structural)]
pub struct Scope {
    pub ability_id: AbilityId,
}

impl Scope {
    pub open spec fn spec_card_id(self) -> crate::primitives::CardId {
        self.ability_id.card_id
    }

    /// The card whose ability this is.
    pub fn card_id(&self) -> (r: crate::primitives::CardId)
        ensures
            r == self.spec_card_id(),
    {
        self.ability_id.card_id
    }

    /// The owner of the card whose ability this is.
    pub fn side(&self) -> (r: Side)
        ensures
            r == self.ability_id.card_id.side,
    {
        self.ability_id.card_id.side
    }
}

/// What an event is about.
#[derive(Debug, Clone, Copy, PartialEq, Eq, Structural)]
pub enum EventSubject {
    Card(crate::primitives::CardId),
    Ability(AbilityId),
    /// An event about a player as a whole, such as a draw or a basic action.
    Player(Side),
    /// An event about a raid as a whole.
    Raid(crate::primitives::RaidId),
}

impl EventSubject {
    /// Whether the event is about `card_id` or one of its abilities.
    pub open spec fn is_about(self, card_id: crate::primitives::CardId) -> bool {
        match self {
            EventSubject::Card(c) => c == card_id,
            EventSubject::Ability(a) => a.card_id == card_id,
            EventSubject::Player(_) => false,
            EventSubject::Raid(_) => false,
        }
    }

    /// Whether the event is about `card_id` or one of its abilities.
    pub fn about(&self, card_id: crate::primitives::CardId) -> (r: bool)
        ensures
            r == self.is_about(card_id),
    {
        match self {
            EventSubject::Card(c) => *c == card_id,
            EventSubject::Ability(a) => a.card_id == card_id,
            EventSubject::Player(_) => false,
            EventSubject::Raid(_) => false,
        }
    }
}

/// A card was played, with this target.
#[derive(Debug, Clone, Copy, PartialEq, Eq, Structural)]
pub struct CardPlayed {
    pub card_id: crate::primitives::CardId,
    pub target: crate::game_actions::CardTarget,
}

/// Values which name a card.
pub trait HasCardId {
    spec fn spec_card_id(&self) -> crate::primitives::CardId;

    fn card_id(&self) -> (r: crate::primitives::CardId)
        ensures
            r == self.spec_card_id(),
    ;
}

impl HasCardId for crate::primitives::CardId {
    open spec fn spec_card_id(&self) -> crate::primitives::CardId {
        *self
    }

    fn card_id(&self) -> (r: crate::primitives::CardId) {
        *self
    }
}

impl HasCardId for CardPlayed {
    open spec fn spec_card_id(&self) -> crate::primitives::CardId {
        self.card_id
    }

    fn card_id(&self) -> (r: crate::primitives::CardId) {
        self.card_id
    }
}

/// An ability of a card.
#[derive(Debug, Clone)]
pub struct Ability {
    pub ability_type: AbilityType,
    pub text: AbilityText,
    pub delegates: Vec<Delegate>,
}

/// The complete definition of a card.
#[derive(Debug, Clone)]
pub struct CardDefinition {
    pub name: CardName,
    pub cost: Cost,
    pub card_type: CardType,
    pub subtypes: Vec<CardSubtype>,
    pub side: Side,
    pub school: School,
    pub rarity: Rarity,
    pub abilities: Vec<Ability>,
    pub config: CardConfig,
}

impl CardDefinition {
    /// Whether this card has the subtype `subtype`.
    pub fn has_subtype(&self, subtype: CardSubtype) -> (r: bool)
        ensures
            r == self.subtypes@.contains(subtype),
    {
        let mut i: usize = 0;
        while i < self.subtypes.len()
            invariant
                i <= self.subtypes.len(),
                forall|j: int| 0 <= j < i ==> self.subtypes@[j] != subtype,
            decreases self.subtypes.len() - i,
        {
            if self.subtypes[i] == subtype {
                return true;
            }
            i = i + 1;
        }
        false
    }
}

} // verus!
