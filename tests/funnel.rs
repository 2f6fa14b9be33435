use clipzero::funnel::{funnel, FunnelToken, CLIPBOARD_CHANGED_BYTE, SHOW_REQUESTED_BYTE};

#[test]
fn tokens_arrive_in_send_order_across_producers() {
    let (hotkey, rx) = funnel();
    let watcher = hotkey.duplicate();
    assert_eq!(hotkey.send(FunnelToken::ShowRequested), Ok(()));
    assert_eq!(watcher.send(FunnelToken::ClipboardChanged), Ok(()));
    assert_eq!(hotkey.send(FunnelToken::ShowRequested), Ok(()));
    assert_eq!(watcher.send(FunnelToken::ClipboardChanged), Ok(()));
    assert_eq!(rx.next(), Some(FunnelToken::ShowRequested));
    assert_eq!(rx.next(), Some(FunnelToken::ClipboardChanged));
    assert_eq!(rx.next(), Some(FunnelToken::ShowRequested));
    assert_eq!(rx.next(), Some(FunnelToken::ClipboardChanged));
}

#[test]
fn funnel_ends_when_every_sender_is_gone() {
    let (tx, rx) = funnel();
    let other = tx.duplicate();
    tx.send(FunnelToken::ClipboardChanged).unwrap();
    drop(tx);
    other.send(FunnelToken::ShowRequested).unwrap();
    drop(other);
    assert_eq!(rx.next(), Some(FunnelToken::ClipboardChanged));
    assert_eq!(rx.next(), Some(FunnelToken::ShowRequested));
    assert_eq!(rx.next(), None);
}

#[test]
fn send_without_receiver_hands_token_back() {
    let (tx, rx) = funnel();
    drop(rx);
    assert_eq!(tx.send(FunnelToken::ShowRequested), Err(FunnelToken::ShowRequested));
    assert_eq!(tx.send(FunnelToken::ClipboardChanged), Err(FunnelToken::ClipboardChanged));
}

#[test]
fn token_bytes_round_trip() {
    assert_eq!(FunnelToken::ClipboardChanged.to_byte(), CLIPBOARD_CHANGED_BYTE);
    assert_eq!(FunnelToken::ShowRequested.to_byte(), SHOW_REQUESTED_BYTE);
    assert_eq!(FunnelToken::from_byte(1), FunnelToken::ClipboardChanged);
    assert_eq!(FunnelToken::from_byte(0), FunnelToken::ShowRequested);
    assert_eq!(FunnelToken::from_byte(7), FunnelToken::ShowRequested);
    for t in [FunnelToken::ClipboardChanged, FunnelToken::ShowRequested] {
        assert_eq!(FunnelToken::from_byte(t.to_byte()), t);
    }
}
