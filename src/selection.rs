//! The picker's selection state machine and the fixed digit-to-slot mapping.

use crate::funnel::FunnelToken;
use vstd::prelude::*;

verus! {

/// A key press as the picker classifies it.
#[derive(Clone, Copy, Debug, PartialEq, Eq, Structural)]
pub enum Key {
    Escape,
    Enter,
    Digit0,
    Digit1,
    Digit2,
    Digit3,
    Digit4,
    Digit5,
    Digit6,
    Digit7,
    Digit8,
    Digit9,
    Other,
}

/// The digit a key stands for, if it is a digit key.
pub open spec fn pressed_digit(k: Key) -> Option<nat> {
    match k {
        Key::Digit0 => Some(0),
        Key::Digit1 => Some(1),
        Key::Digit2 => Some(2),
        Key::Digit3 => Some(3),
        Key::Digit4 => Some(4),
        Key::Digit5 => Some(5),
        Key::Digit6 => Some(6),
        Key::Digit7 => Some(7),
        Key::Digit8 => Some(8),
        Key::Digit9 => Some(9),
        _ => None,
    }
}

/// Keys 1 to 9 select slots 0 to 8; key 0 selects slot 9, the oldest.
pub open spec fn slot_of_digit(d: nat) -> nat {
    if d == 0 {
        9
    } else {
        (d - 1) as nat
    }
}

/// The digit whose key selects slot `s`.
pub open spec fn digit_of_slot(s: nat) -> nat {
    if s == 9 {
        0
    } else {
        s + 1
    }
}

/// The slot a key selects, if it is a digit key.
pub open spec fn slot_of_key(k: Key) -> Option<usize> {
    match pressed_digit(k) {
        Some(d) => Some(slot_of_digit(d) as usize),
        None => None,
    }
}

/// The slot a key selects: `Some` exactly for the ten digit keys.
pub fn key_code_to_number(key: Key) -> (r: Option<usize>)
    ensures
        r == slot_of_key(key),
{
    match key {
        Key::Digit1 => Some(0),
        Key::Digit2 => Some(1),
        Key::Digit3 => Some(2),
        Key::Digit4 => Some(3),
        Key::Digit5 => Some(4),
        Key::Digit6 => Some(5),
        Key::Digit7 => Some(6),
        Key::Digit8 => Some(7),
        Key::Digit9 => Some(8),
        Key::Digit0 => Some(9),
        _ => None,
    }
}

/// The digit-to-slot mapping is a bijection from the ten digits onto the ten
/// slots 0 to 9: each digit gets a slot below ten, two digits never share a
/// slot, and every slot below ten has its digit.
pub proof fn lemma_digit_mapping_bijective()
    ensures
        forall|d: nat| d < 10 ==> #[trigger] slot_of_digit(d) < 10,
        forall|d1: nat, d2: nat|
            d1 < 10 && d2 < 10 && #[trigger] slot_of_digit(d1) == #[trigger] slot_of_digit(d2)
                ==> d1 == d2,
        forall|s: nat| s < 10 ==> #[trigger] digit_of_slot(s) < 10 && slot_of_digit(digit_of_slot(s)) == s,
        forall|k: Key| (#[trigger] slot_of_key(k)) is Some <==> pressed_digit(k) is Some,
{
}

/// Whether the picker is shown and, if so, which slot is highlighted. The slot
/// need not hold an entry.
#[derive(Clone, Copy, Debug, PartialEq, Eq, Structural)]
pub enum Selection {
    Hidden,
    Visible(usize),
}

/// What drives the state machine: a funnel token or a key press.
#[derive(Clone, Copy, Debug, PartialEq, Eq, Structural)]
pub enum Input {
    Token(FunnelToken),
    Key(Key),
}

/// What a transition asks of the coordinator.
#[derive(Clone, Copy, Debug, PartialEq, Eq, Structural)]
pub enum Action {
    /// Nothing to do.
    Nothing,
    /// Read the clipboard and record its text.
    Refresh,
    /// Read the clipboard and record its text, then show the picker.
    RefreshAndShow,
    /// Hide the picker.
    Hide,
    /// Write the entry in this slot, if there is one, to the clipboard; then
    /// hide the picker.
    Confirm(usize),
}

impl Selection {
    pub open spec fn spec_is_visible(self) -> bool {
        self is Visible
    }

    /// The state and the action that follow an input.
    pub open spec fn spec_step(self, input: Input) -> (Selection, Action) {
        match input {
            Input::Token(FunnelToken::ShowRequested) => (Selection::Visible(0), Action::RefreshAndShow),
            Input::Token(FunnelToken::ClipboardChanged) => match self {
                Selection::Hidden => (Selection::Hidden, Action::Refresh),
                Selection::Visible(_) => (Selection::Visible(0), Action::Refresh),
            },
            Input::Key(k) => match self {
                Selection::Hidden => (Selection::Hidden, Action::Nothing),
                Selection::Visible(i) => match k {
                    Key::Escape => (Selection::Hidden, Action::Hide),
                    Key::Enter => (Selection::Hidden, Action::Confirm(i)),
                    _ => match slot_of_key(k) {
                        Some(s) => (Selection::Visible(s), Action::Nothing),
                        None => (self, Action::Nothing),
                    },
                },
            },
        }
    }

    /// Whether the picker is shown.
    pub fn is_visible(&self) -> (r: bool)
        ensures
            r == self.spec_is_visible(),
    {
        match self {
            Selection::Hidden => false,
            Selection::Visible(_) => true,
        }
    }

    /// The highlighted slot: `Some` exactly while the picker is shown.
    pub fn selected_index(&self) -> (r: Option<usize>)
        ensures
            r == (match *self {
                Selection::Hidden => None,
                Selection::Visible(i) => Some(i),
            }),
    {
        match self {
            Selection::Hidden => None,
            Selection::Visible(i) => Some(*i),
        }
    }

    /// One transition of the state machine.
    pub fn step(self, input: Input) -> (r: (Selection, Action))
        ensures
            r == self.spec_step(input),
    {
        match input {
            Input::Token(FunnelToken::ShowRequested) => (Selection::Visible(0), Action::RefreshAndShow),
            Input::Token(FunnelToken::ClipboardChanged) => match self {
                Selection::Hidden => (Selection::Hidden, Action::Refresh),
                Selection::Visible(_) => (Selection::Visible(0), Action::Refresh),
            },
            Input::Key(k) => match self {
                Selection::Hidden => (Selection::Hidden, Action::Nothing),
                Selection::Visible(i) => match k {
                    Key::Escape => (Selection::Hidden, Action::Hide),
                    Key::Enter => (Selection::Hidden, Action::Confirm(i)),
                    _ => match key_code_to_number(k) {
                        Some(s) => (Selection::Visible(s), Action::Nothing),
                        None => (self, Action::Nothing),
                    },
                },
            },
        }
    }
}

/// From `Hidden`, only a show request makes the picker visible, and it then
/// highlights slot 0; every key press while hidden changes nothing and asks
/// for nothing.
pub proof fn lemma_hidden_transitions(input: Input)
    ensures
        Selection::Hidden.spec_step(input).0.spec_is_visible() <==> input == Input::Token(
            FunnelToken::ShowRequested,
        ),
        input == Input::Token(FunnelToken::ShowRequested) ==> Selection::Hidden.spec_step(input).0
            == Selection::Visible(0),
        input is Key ==> Selection::Hidden.spec_step(input) == (Selection::Hidden, Action::Nothing),
{
}

/// While the picker is shown, a digit key highlights its slot (the history
/// plays no part), and a key press hides the picker exactly when it is
/// Escape or Enter.
pub proof fn lemma_visible_keys(i: usize, k: Key)
    ensures
        pressed_digit(k) is Some ==> Selection::Visible(i).spec_step(Input::Key(k)) == (
            Selection::Visible(slot_of_digit(pressed_digit(k).unwrap()) as usize),
            Action::Nothing,
        ),
        !Selection::Visible(i).spec_step(Input::Key(k)).0.spec_is_visible() <==> (k == Key::Escape
            || k == Key::Enter),
{
}

} // verus!
