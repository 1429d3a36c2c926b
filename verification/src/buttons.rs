//! The buttons of the user interface, by what they show.

use vstd::prelude::*;

verus! {

broadcast use vstd::string::group_string_axioms;

/// A button of the user interface.
#[derive(Debug, Clone, Copy, PartialEq, Eq, Structural)]
pub enum Button {
    Summon,
    NoSummon,
    NoWeapon,
    ProceedToAccess,
    Score,
    EndRaid,
    EndTurn,
    SubmitDiscard,
    StartTurn,
    Sacrifice,
    CancelPlayingCard,
    SkipPlayingCard,
    DraftPick,
    ShowDeck,
    CloseIcon,
    StartBattle,
}

/// The icons of the user interface's icon font.
#[derive(Debug, Clone, Copy, PartialEq, Eq, Structural)]
pub enum Icon {
    Deck,
    Close,
}

/// What a button shows: a label, or an icon of the icon font.
#[derive(Debug, Clone)]
pub enum ButtonText {
    Label(String),
    Icon(Icon),
}

/// The label of `button`, or the icon it shows.
pub open spec fn button_label(button: Button) -> Option<Seq<char>> {
    match button {
        Button::Summon => Some("Summon"@),
        Button::NoSummon => Some("Pass"@),
        Button::NoWeapon => Some("Continue"@),
        Button::ProceedToAccess => Some("Proceed"@),
        Button::Score => Some("Score"@),
        Button::EndRaid => Some("End Raid"@),
        Button::EndTurn => Some("End Turn"@),
        Button::SubmitDiscard => Some("Submit"@),
        Button::StartTurn => Some("Start Turn"@),
        Button::Sacrifice => Some("Sacrifice"@),
        Button::CancelPlayingCard => Some("Cancel"@),
        Button::SkipPlayingCard => Some("Skip"@),
        Button::DraftPick => Some("Pick"@),
        Button::ShowDeck => None,
        Button::CloseIcon => None,
        Button::StartBattle => Some("Start"@),
    }
}

/// The text by which `button` is found in the user interface.
pub fn resolve_button(button: Button) -> (r: ButtonText)
    ensures
        match button_label(button) {
            Some(label) => r matches ButtonText::Label(s) && s@ == label,
            None => r == match button {
                Button::ShowDeck => ButtonText::Icon(Icon::Deck),
                _ => ButtonText::Icon(Icon::Close),
            },
        },
{
    let label = match button {
        Button::Summon => "Summon",
        Button::NoSummon => "Pass",
        Button::NoWeapon => "Continue",
        Button::ProceedToAccess => "Proceed",
        Button::Score => "Score",
        Button::EndRaid => "End Raid",
        Button::EndTurn => "End Turn",
        Button::SubmitDiscard => "Submit",
        Button::StartTurn => "Start Turn",
        Button::Sacrifice => "Sacrifice",
        Button::CancelPlayingCard => "Cancel",
        Button::SkipPlayingCard => "Skip",
        Button::DraftPick => "Pick",
        Button::ShowDeck => {
            return ButtonText::Icon(Icon::Deck);
        },
        Button::CloseIcon => {
            return ButtonText::Icon(Icon::Close);
        },
        Button::StartBattle => "Start",
    };
    ButtonText::Label(label.to_owned())
}

} // verus!
