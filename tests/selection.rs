use clipzero::funnel::FunnelToken;
use clipzero::selection::{key_code_to_number, Action, Input, Key, Selection};

const DIGITS: [Key; 10] = [
    Key::Digit0,
    Key::Digit1,
    Key::Digit2,
    Key::Digit3,
    Key::Digit4,
    Key::Digit5,
    Key::Digit6,
    Key::Digit7,
    Key::Digit8,
    Key::Digit9,
];

#[test]
fn digit_keys_map_one_to_nine_then_zero() {
    assert_eq!(key_code_to_number(Key::Digit1), Some(0));
    assert_eq!(key_code_to_number(Key::Digit3), Some(2));
    assert_eq!(key_code_to_number(Key::Digit9), Some(8));
    assert_eq!(key_code_to_number(Key::Digit0), Some(9));
    let mut seen: Vec<usize> = DIGITS.iter().map(|k| key_code_to_number(*k).unwrap()).collect();
    seen.sort();
    assert_eq!(seen, (0..10).collect::<Vec<usize>>());
}

#[test]
fn other_keys_map_to_nothing() {
    assert_eq!(key_code_to_number(Key::Escape), None);
    assert_eq!(key_code_to_number(Key::Enter), None);
    assert_eq!(key_code_to_number(Key::Other), None);
}

#[test]
fn show_request_from_hidden_selects_first_slot() {
    let (s, a) = Selection::Hidden.step(Input::Token(FunnelToken::ShowRequested));
    assert_eq!(s, Selection::Visible(0));
    assert_eq!(a, Action::RefreshAndShow);
    assert!(s.is_visible());
    assert_eq!(s.selected_index(), Some(0));
}

#[test]
fn clipboard_change_keeps_visibility() {
    let (s, a) = Selection::Hidden.step(Input::Token(FunnelToken::ClipboardChanged));
    assert_eq!(s, Selection::Hidden);
    assert_eq!(a, Action::Refresh);
    let (s, a) = Selection::Visible(4).step(Input::Token(FunnelToken::ClipboardChanged));
    assert_eq!(s, Selection::Visible(0));
    assert_eq!(a, Action::Refresh);
}

#[test]
fn keys_are_ignored_while_hidden() {
    for k in DIGITS.iter().chain([Key::Escape, Key::Enter, Key::Other].iter()) {
        let (s, a) = Selection::Hidden.step(Input::Key(*k));
        assert_eq!(s, Selection::Hidden);
        assert_eq!(a, Action::Nothing);
    }
    assert!(!Selection::Hidden.is_visible());
    assert_eq!(Selection::Hidden.selected_index(), None);
}

#[test]
fn digit_press_while_visible_selects_slot() {
    let (s, a) = Selection::Visible(0).step(Input::Key(Key::Digit3));
    assert_eq!(s, Selection::Visible(2));
    assert_eq!(a, Action::Nothing);
    let (s, _) = Selection::Visible(0).step(Input::Key(Key::Digit0));
    assert_eq!(s, Selection::Visible(9));
}

#[test]
fn escape_hides_and_enter_confirms() {
    assert_eq!(
        Selection::Visible(3).step(Input::Key(Key::Escape)),
        (Selection::Hidden, Action::Hide)
    );
    assert_eq!(
        Selection::Visible(3).step(Input::Key(Key::Enter)),
        (Selection::Hidden, Action::Confirm(3))
    );
    assert_eq!(
        Selection::Visible(3).step(Input::Key(Key::Other)),
        (Selection::Visible(3), Action::Nothing)
    );
}
