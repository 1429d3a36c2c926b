//! The icons shown on the corners of a card: its cost, its stats, and the
//! counters it carries.

use vstd::prelude::*;

use crate::card_definition::CardDefinition;
use crate::game_state::{CardState, GameState};
use crate::primitives::{CardId, ManaValue};
use crate::queries;

verus! {

broadcast use vstd::string::group_string_axioms;

/// The kinds of card icon; each has its own background image.
#[derive(Debug, Clone, Copy, PartialEq, Eq, Structural, Hash)]
pub enum CardIconType {
    LevelCounter,
    Mana,
    LevelRequirement,
    Attack,
    Health,
    Raze,
    Points,
    Shield,
}

/// An icon on a card: a background of some kind, with a number on it.
#[derive(Debug, Clone)]
pub struct CardIcon {
    pub icon_type: CardIconType,
    pub text: String,
}

/// The icons on the four corners of a card.
#[derive(Debug, Clone)]
pub struct CardIcons {
    pub top_left_icon: Option<CardIcon>,
    pub bottom_left_icon: Option<CardIcon>,
    pub bottom_right_icon: Option<CardIcon>,
    /// Shown while the card is in the arena.
    pub arena_icon: Option<CardIcon>,
}

/// The card whose icons are built: a bare definition, or a card in a game.
pub enum CardViewContext<'a> {
    Default(&'a CardDefinition),
    Game(&'a GameState, CardId),
}

impl<'a> CardViewContext<'a> {
    /// The context names a card of its game.
    pub open spec fn valid(self) -> bool {
        match self {
            CardViewContext::Default(_) => true,
            CardViewContext::Game(game, id) => game.valid_id(id),
        }
    }

    pub open spec fn spec_definition(self) -> CardDefinition {
        match self {
            CardViewContext::Default(definition) => *definition,
            CardViewContext::Game(game, id) => game.card_state(id).definition,
        }
    }

    pub open spec fn spec_card_data(self) -> Option<CardState> {
        match self {
            CardViewContext::Default(_) => None,
            CardViewContext::Game(game, id) => Some(game.card_state(id)),
        }
    }

    /// The definition of the card.
    pub fn definition(&self) -> (r: &CardDefinition)
        requires
            self.valid(),
        ensures
            *r == self.spec_definition(),
    {
        match self {
            CardViewContext::Default(definition) => definition,
            CardViewContext::Game(game, id) => &game.card(*id).definition,
        }
    }

    /// The state of the card, when it is in a game.
    pub fn card_data(&self) -> (r: Option<&CardState>)
        requires
            self.valid(),
        ensures
            match self.spec_card_data() {
                Some(c) => r matches Some(d) && *d == c,
                None => r is None,
            },
    {
        match self {
            CardViewContext::Default(_) => None,
            CardViewContext::Game(game, id) => Some(game.card(*id)),
        }
    }
}

/// `icon` is shown, of kind `icon_type`, with `value` written on it.
pub open spec fn shows(icon: Option<CardIcon>, icon_type: CardIconType, value: u32) -> bool {
    &&& icon is Some
    &&& icon->0.icon_type == icon_type
    &&& vstd::string::to_string_from_display_ensures::<u32>(&value, icon->0.text)
}

/// An icon of kind `icon_type` with `value` written on it.
fn icon(icon_type: CardIconType, value: u32) -> (r: CardIcon)
    ensures
        shows(Some(r), icon_type, value),
{
    CardIcon { icon_type, text: value.to_string() }
}

/// The icon which shows a mana cost.
pub fn mana_card_icon(value: ManaValue) -> (r: CardIcon)
    ensures
        shows(Some(r), CardIconType::Mana, value),
{
    icon(CardIconType::Mana, value)
}

/// `r` are the icons of the card of `context`, revealed or not: the counter
/// it carries always; its cost and stats only when `revealed`.
pub open spec fn icons_built(context: CardViewContext, revealed: bool, r: CardIcons) -> bool {
        let definition = context.spec_definition();
        let stats = definition.config.stats;
        &&& match context.spec_card_data() {
            Some(data) if data.stored_mana > 0 => shows(
                r.arena_icon,
                CardIconType::Mana,
                data.stored_mana,
            ),
            Some(data) if data.progress > 0 => shows(
                r.arena_icon,
                CardIconType::LevelCounter,
                data.progress,
            ),
            _ => r.arena_icon is None,
        }
        &&& !revealed ==> r.top_left_icon is None && r.bottom_right_icon is None
            && r.bottom_left_icon is None
        &&& revealed ==> match (definition.cost.mana, stats.scheme_points) {
            (Some(mana), _) => shows(r.top_left_icon, CardIconType::Mana, mana),
            (None, Some(points)) => shows(
                r.top_left_icon,
                CardIconType::LevelRequirement,
                points.level_requirement,
            ),
            (None, None) => r.top_left_icon is None,
        }
        &&& revealed ==> match (
            stats.base_attack,
            stats.health,
            stats.raze_cost,
            stats.scheme_points,
        ) {
            (Some(attack), _, _, _) => shows(r.bottom_right_icon, CardIconType::Attack, attack),
            (None, Some(health), _, _) => shows(
                r.bottom_right_icon,
                CardIconType::Health,
                health,
            ),
            (None, None, Some(raze), _) => shows(r.bottom_right_icon, CardIconType::Raze, raze),
            (None, None, None, Some(points)) => shows(
                r.bottom_right_icon,
                CardIconType::Points,
                points.points,
            ),
            (None, None, None, None) => r.bottom_right_icon is None,
        }
        &&& revealed ==> match stats.shield {
            Some(shield) if shield > 0 => shows(
                r.bottom_left_icon,
                CardIconType::Shield,
                shield,
            ),
            _ => r.bottom_left_icon is None,
        }
}

/// An unrevealed card shows nothing of its cost or stats: for two cards
/// with the same state in a game, or none, their unrevealed icons are the
/// same kinds of icon, with the same numbers written on them.
pub proof fn lemma_unrevealed_icons_depend_on_card_data(
    c1: CardViewContext,
    c2: CardViewContext,
    r1: CardIcons,
    r2: CardIcons,
)
    requires
        c1.spec_card_data() == c2.spec_card_data(),
        icons_built(c1, false, r1),
        icons_built(c2, false, r2),
    ensures
        r1.top_left_icon is None && r2.top_left_icon is None,
        r1.bottom_left_icon is None && r2.bottom_left_icon is None,
        r1.bottom_right_icon is None && r2.bottom_right_icon is None,
        r1.arena_icon is Some <==> r2.arena_icon is Some,
        r1.arena_icon is Some ==> r1.arena_icon->0.icon_type == r2.arena_icon->0.icon_type
            && exists|n: u32| shows(r1.arena_icon, r1.arena_icon->0.icon_type, n) && shows(
            r2.arena_icon,
            r1.arena_icon->0.icon_type,
            n,
        ),
{
    match c1.spec_card_data() {
        Some(data) => {
            if data.stored_mana > 0 {
                assert(shows(r1.arena_icon, CardIconType::Mana, data.stored_mana));
            } else if data.progress > 0 {
                assert(shows(r1.arena_icon, CardIconType::LevelCounter, data.progress));
            }
        },
        None => {},
    }
}

/// The icons of a card; only the counter it carries when `revealed` is
/// false.
pub fn build(context: &CardViewContext, revealed: bool) -> (r: CardIcons)
    requires
        context.valid(),
    ensures
        icons_built(*context, revealed, r),
{
    let definition = context.definition();
    let mut icons = CardIcons {
        top_left_icon: None,
        bottom_left_icon: None,
        bottom_right_icon: None,
        arena_icon: None,
    };

    match context.card_data() {
        Some(data) => {
            if data.progress > 0 {
                icons.arena_icon = Some(icon(CardIconType::LevelCounter, data.progress));
            }
            if data.stored_mana > 0 {
                icons.arena_icon = Some(icon(CardIconType::Mana, data.stored_mana));
            }
        },
        None => {},
    }

    if revealed {
        let mana_cost = match context {
            CardViewContext::Default(d) => d.cost.mana,
            CardViewContext::Game(game, id) => queries::mana_cost(game, *id),
        };
        icons.top_left_icon = match mana_cost {
            Some(mana) => Some(mana_card_icon(mana)),
            None => match definition.config.stats.scheme_points {
                Some(points) => Some(icon(CardIconType::LevelRequirement, points.level_requirement)),
                None => None,
            },
        };

        let stats = definition.config.stats;
        icons.bottom_right_icon = if let Some(attack) = stats.base_attack {
            let value = match context {
                CardViewContext::Default(_) => attack,
                CardViewContext::Game(game, id) => match queries::base_attack(game, *id) {
                    Some(a) => a,
                    None => attack,
                },
            };
            Some(icon(CardIconType::Attack, value))
        } else if let Some(health) = stats.health {
            let value = match context {
                CardViewContext::Default(_) => health,
                CardViewContext::Game(game, id) => match queries::health(game, *id) {
                    Some(h) => h,
                    None => health,
                },
            };
            Some(icon(CardIconType::Health, value))
        } else if let Some(raze) = stats.raze_cost {
            let value = match context {
                CardViewContext::Default(_) => raze,
                CardViewContext::Game(game, id) => queries::raze_cost(game, *id),
            };
            Some(icon(CardIconType::Raze, value))
        } else {
            match stats.scheme_points {
                Some(points) => Some(icon(CardIconType::Points, points.points)),
                None => None,
            }
        };

        let shield = match context {
            CardViewContext::Default(_) => match stats.shield {
                Some(s) => s,
                None => 0,
            },
            CardViewContext::Game(game, id) => queries::shield(game, *id),
        };
        icons.bottom_left_icon = if shield > 0 {
            Some(icon(CardIconType::Shield, shield))
        } else {
            None
        };
    }

    icons
}

} // verus!
