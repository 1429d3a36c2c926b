//! The scripted events of the game's tutorial.

use vstd::prelude::*;

use crate::game_actions::CardTarget;
use crate::primitives::{CardName, RoomId, Side};

verus! {

/// The side that the player plays in the tutorial.
pub const PLAYER_SIDE: Side = Side::Champion;

/// The side that the computer plays in the tutorial.
pub const OPPONENT_SIDE: Side = Side::Overlord;

/// An action taken during the tutorial.
#[derive(Debug, Clone, Copy, PartialEq, Eq, Structural)]
pub enum TutorialAction {
    DrawCard,
    GainMana,
    PlayCard(CardName, CardTarget),
    InitiateRaid(RoomId),
    UseWeapon { weapon: CardName, target: CardName },
    ScoreAccessedCard(CardName),
    EndRaid,
}

/// A step of the tutorial.
#[derive(Debug, Clone)]
pub enum TutorialStep {
    /// The player's hand becomes these cards.
    SetHand(Side, Vec<CardName>),
    /// These cards are put on top of the player's deck, the first on top.
    SetTopOfDeck(Side, Vec<CardName>),
    /// The player keeps their opening hand.
    KeepOpeningHand(Side),
    /// The computer opponent takes this action.
    OpponentAction(TutorialAction),
    /// The player must take each of these actions before the tutorial goes
    /// on.
    AwaitPlayerActions(Vec<TutorialAction>),
}

/// The sequence of the events of the tutorial.
pub fn steps() -> (r: Vec<TutorialStep>)
    ensures
        r@.len() == 27,
        (r@[0] matches TutorialStep::SetHand(s, cards) && s == Side::Overlord && cards@ == seq![CardName::Frog]),
        (r@[1] matches TutorialStep::SetHand(s, cards) && s == Side::Champion && cards@ == seq![CardName::EldritchSurge]),
        (r@[2] matches TutorialStep::SetTopOfDeck(s, cards) && s == Side::Overlord && cards@ == seq![CardName::Scout, CardName::Machinate]),
        (r@[3] matches TutorialStep::SetTopOfDeck(s, cards) && s == Side::Champion && cards@ == seq![CardName::SimpleAxe]),
        r@[4] == TutorialStep::KeepOpeningHand(Side::Champion),
        r@[5] == TutorialStep::KeepOpeningHand(Side::Overlord),
        r@[6] == TutorialStep::OpponentAction(TutorialAction::DrawCard),
        r@[7] == TutorialStep::OpponentAction(TutorialAction::PlayCard(CardName::Machinate, CardTarget::Room(RoomId::RoomA))),
        r@[8] == TutorialStep::OpponentAction(TutorialAction::PlayCard(CardName::Scout, CardTarget::Room(RoomId::RoomA))),
        (r@[9] matches TutorialStep::AwaitPlayerActions(actions) && actions@ == seq![TutorialAction::PlayCard(CardName::EldritchSurge, CardTarget::NoTarget), TutorialAction::PlayCard(CardName::SimpleAxe, CardTarget::NoTarget)]),
        (r@[10] matches TutorialStep::AwaitPlayerActions(actions) && actions@ == seq![TutorialAction::InitiateRaid(RoomId::RoomA)]),
        (r@[11] matches TutorialStep::AwaitPlayerActions(actions) && actions@ == seq![TutorialAction::UseWeapon { weapon: CardName::SimpleAxe, target: CardName::Scout }]),
        (r@[12] matches TutorialStep::AwaitPlayerActions(actions) && actions@ == seq![TutorialAction::ScoreAccessedCard(CardName::Machinate)]),
        (r@[13] matches TutorialStep::AwaitPlayerActions(actions) && actions@ == seq![TutorialAction::EndRaid]),
        (r@[14] matches TutorialStep::SetTopOfDeck(s, cards) && s == Side::Overlord && cards@ == seq![CardName::GatheringDark]),
        r@[15] == TutorialStep::OpponentAction(TutorialAction::GainMana),
        r@[16] == TutorialStep::OpponentAction(TutorialAction::GainMana),
        r@[17] == TutorialStep::OpponentAction(TutorialAction::GainMana),
        (r@[18] matches TutorialStep::SetTopOfDeck(s, cards) && s == Side::Champion && cards@ == seq![CardName::ArcaneRecovery, CardName::Lodestone]),
        (r@[19] matches TutorialStep::AwaitPlayerActions(actions) && actions@ == seq![TutorialAction::GainMana]),
        (r@[20] matches TutorialStep::AwaitPlayerActions(actions) && actions@ == seq![TutorialAction::PlayCard(CardName::ArcaneRecovery, CardTarget::NoTarget)]),
        (r@[21] matches TutorialStep::AwaitPlayerActions(actions) && actions@ == seq![TutorialAction::DrawCard]),
        (r@[22] matches TutorialStep::SetTopOfDeck(s, cards) && s == Side::Overlord && cards@ == seq![CardName::Devise]),
        r@[23] == TutorialStep::OpponentAction(TutorialAction::PlayCard(CardName::GatheringDark, CardTarget::NoTarget)),
        r@[24] == TutorialStep::OpponentAction(TutorialAction::PlayCard(CardName::Devise, CardTarget::Room(RoomId::RoomA))),
        r@[25] == TutorialStep::OpponentAction(TutorialAction::PlayCard(CardName::Frog, CardTarget::Room(RoomId::RoomA))),
        (r@[26] matches TutorialStep::SetTopOfDeck(s, cards) && s == Side::Champion && cards@ == seq![CardName::SimpleHammer, CardName::Contemplate, CardName::SimpleClub]),
{
    let mut steps: Vec<TutorialStep> = Vec::new();
    steps.push(TutorialStep::SetHand(Side::Overlord, vec![CardName::Frog]));
    steps.push(TutorialStep::SetHand(Side::Champion, vec![CardName::EldritchSurge]));
    steps.push(TutorialStep::SetTopOfDeck(Side::Overlord, vec![CardName::Scout, CardName::Machinate]));
    steps.push(TutorialStep::SetTopOfDeck(Side::Champion, vec![CardName::SimpleAxe]));
    steps.push(TutorialStep::KeepOpeningHand(Side::Champion));
    steps.push(TutorialStep::KeepOpeningHand(Side::Overlord));
    steps.push(TutorialStep::OpponentAction(TutorialAction::DrawCard));
    steps.push(TutorialStep::OpponentAction(TutorialAction::PlayCard(CardName::Machinate, CardTarget::Room(RoomId::RoomA))));
    steps.push(TutorialStep::OpponentAction(TutorialAction::PlayCard(CardName::Scout, CardTarget::Room(RoomId::RoomA))));
    steps.push(TutorialStep::AwaitPlayerActions(vec![TutorialAction::PlayCard(CardName::EldritchSurge, CardTarget::NoTarget), TutorialAction::PlayCard(CardName::SimpleAxe, CardTarget::NoTarget)]));
    steps.push(TutorialStep::AwaitPlayerActions(vec![TutorialAction::InitiateRaid(RoomId::RoomA)]));
    steps.push(TutorialStep::AwaitPlayerActions(vec![TutorialAction::UseWeapon { weapon: CardName::SimpleAxe, target: CardName::Scout }]));
    steps.push(TutorialStep::AwaitPlayerActions(vec![TutorialAction::ScoreAccessedCard(CardName::Machinate)]));
    steps.push(TutorialStep::AwaitPlayerActions(vec![TutorialAction::EndRaid]));
    steps.push(TutorialStep::SetTopOfDeck(Side::Overlord, vec![CardName::GatheringDark]));
    steps.push(TutorialStep::OpponentAction(TutorialAction::GainMana));
    steps.push(TutorialStep::OpponentAction(TutorialAction::GainMana));
    steps.push(TutorialStep::OpponentAction(TutorialAction::GainMana));
    steps.push(TutorialStep::SetTopOfDeck(Side::Champion, vec![CardName::ArcaneRecovery, CardName::Lodestone]));
    steps.push(TutorialStep::AwaitPlayerActions(vec![TutorialAction::GainMana]));
    steps.push(TutorialStep::AwaitPlayerActions(vec![TutorialAction::PlayCard(CardName::ArcaneRecovery, CardTarget::NoTarget)]));
    steps.push(TutorialStep::AwaitPlayerActions(vec![TutorialAction::DrawCard]));
    steps.push(TutorialStep::SetTopOfDeck(Side::Overlord, vec![CardName::Devise]));
    steps.push(TutorialStep::OpponentAction(TutorialAction::PlayCard(CardName::GatheringDark, CardTarget::NoTarget)));
    steps.push(TutorialStep::OpponentAction(TutorialAction::PlayCard(CardName::Devise, CardTarget::Room(RoomId::RoomA))));
    steps.push(TutorialStep::OpponentAction(TutorialAction::PlayCard(CardName::Frog, CardTarget::Room(RoomId::RoomA))));
    steps.push(TutorialStep::SetTopOfDeck(Side::Champion, vec![CardName::SimpleHammer, CardName::Contemplate, CardName::SimpleClub]));
    steps
}

} // verus!
