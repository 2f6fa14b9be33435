use clipzero::coordinator::{Coordinator, Effect, Event};
use clipzero::funnel::FunnelToken;
use clipzero::selection::{Key, Selection};

fn text(s: &str) -> Event {
    Event::ClipboardText(s.to_string())
}

#[test]
fn starts_hidden_and_empty() {
    let c = Coordinator::new();
    assert_eq!(c.selection, Selection::Hidden);
    assert!(c.history.is_empty());
}

#[test]
fn show_request_reads_clipboard_and_shows() {
    let mut c = Coordinator::new();
    let fx = c.handle(Event::Token(FunnelToken::ShowRequested));
    assert_eq!(fx, vec![Effect::ReadClipboard, Effect::Show]);
    assert_eq!(c.selection, Selection::Visible(0));
}

#[test]
fn clipboard_change_reads_clipboard_and_keeps_hidden() {
    let mut c = Coordinator::new();
    let fx = c.handle(Event::Token(FunnelToken::ClipboardChanged));
    assert_eq!(fx, vec![Effect::ReadClipboard]);
    assert_eq!(c.selection, Selection::Hidden);
}

#[test]
fn clipboard_text_is_recorded() {
    let mut c = Coordinator::new();
    assert_eq!(c.handle(text("alpha")), vec![]);
    assert_eq!(c.handle(text("beta")), vec![]);
    assert_eq!(c.history.len(), 2);
    assert_eq!(c.history.get(0).unwrap(), "beta");
    assert_eq!(c.selection, Selection::Hidden);
}

#[test]
fn clipboard_failure_is_reported_and_changes_nothing() {
    let mut c = Coordinator::new();
    c.handle(text("alpha"));
    let fx = c.handle(Event::ClipboardFailed("busy".to_string()));
    assert_eq!(fx, vec![Effect::Report("busy".to_string())]);
    assert_eq!(c.history.len(), 1);
    assert_eq!(c.selection, Selection::Hidden);
}

#[test]
fn keys_while_hidden_do_nothing() {
    let mut c = Coordinator::new();
    c.handle(text("alpha"));
    for k in [Key::Enter, Key::Escape, Key::Digit1, Key::Other] {
        assert_eq!(c.handle(Event::Key(k)), vec![]);
        assert_eq!(c.selection, Selection::Hidden);
    }
    assert_eq!(c.history.len(), 1);
}

#[test]
fn select_out_of_range_then_enter_writes_nothing_and_hides() {
    let mut c = Coordinator::new();
    c.handle(text("beta"));
    c.handle(text("alpha"));
    c.handle(Event::Token(FunnelToken::ShowRequested));
    assert_eq!(c.selection, Selection::Visible(0));
    assert_eq!(c.handle(Event::Key(Key::Digit3)), vec![]);
    assert_eq!(c.selection, Selection::Visible(2));
    let fx = c.handle(Event::Key(Key::Enter));
    assert_eq!(fx, vec![Effect::Hide]);
    assert_eq!(c.selection, Selection::Hidden);
}

#[test]
fn enter_on_present_entry_writes_it_and_hides() {
    let mut c = Coordinator::new();
    c.handle(text("beta"));
    c.handle(text("alpha"));
    c.handle(Event::Token(FunnelToken::ShowRequested));
    c.handle(Event::Key(Key::Digit2));
    let fx = c.handle(Event::Key(Key::Enter));
    assert_eq!(fx, vec![Effect::WriteClipboard("beta".to_string()), Effect::Hide]);
    assert_eq!(c.selection, Selection::Hidden);
}

#[test]
fn escape_hides_without_writing() {
    let mut c = Coordinator::new();
    c.handle(text("alpha"));
    c.handle(Event::Token(FunnelToken::ShowRequested));
    assert_eq!(c.handle(Event::Key(Key::Escape)), vec![Effect::Hide]);
    assert_eq!(c.selection, Selection::Hidden);
}

#[test]
fn clipboard_change_while_visible_resets_selection() {
    let mut c = Coordinator::new();
    c.handle(Event::Token(FunnelToken::ShowRequested));
    c.handle(Event::Key(Key::Digit5));
    assert_eq!(c.selection, Selection::Visible(4));
    let fx = c.handle(Event::Token(FunnelToken::ClipboardChanged));
    assert_eq!(fx, vec![Effect::ReadClipboard]);
    assert_eq!(c.selection, Selection::Visible(0));
}

#[test]
fn own_write_notification_is_idempotent() {
    let mut c = Coordinator::new();
    c.handle(text("beta"));
    c.handle(text("alpha"));
    c.handle(text("beta"));
    c.handle(text("beta"));
    assert_eq!(c.history.len(), 2);
    assert_eq!(c.history.get(0).unwrap(), "beta");
    assert_eq!(c.history.get(1).unwrap(), "alpha");
}
