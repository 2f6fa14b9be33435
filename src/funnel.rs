//! The event funnel: one unbounded multi-producer, single-consumer channel
//! that carries payload-free tokens from the notification sources to the
//! coordinator, in the order they were sent.

use crossbeam_channel::{Receiver, RecvError, Sender};
use vstd::prelude::*;

verus! {

#[verifier::external_type_specification]
#[verifier::external_body]
#[verifier::reject_recursive_types(T)]
pub struct ExSender<T>(Sender<T>);

#[verifier::external_type_specification]
#[verifier::external_body]
#[verifier::reject_recursive_types(T)]
pub struct ExReceiver<T>(Receiver<T>);

#[verifier::external_type_specification]
#[verifier::external_body]
pub struct ExRecvError(RecvError);

/// Relies on crossbeam_channel::unbounded: a connected pair of channel ends.
pub assume_specification<T>[ crossbeam_channel::unbounded::<T> ]() -> (Sender<T>, Receiver<T>);

/// Relies on crossbeam_channel::Receiver::recv: blocks until a message is
/// available, or fails once the channel is empty and every sender is gone.
pub assume_specification<T>[ Receiver::<T>::recv ](r: &Receiver<T>) -> Result<T, RecvError>;

/// Relies on Clone for crossbeam_channel::Sender: another sender on the same channel.
pub assume_specification<T>[ <Sender<T> as Clone>::clone ](s: &Sender<T>) -> Sender<T>;

/// Relies on crossbeam_channel::Sender::send: the message is queued, or, when
/// every receiver is gone, handed back in the error.
#[verifier::external_body]
fn send_byte(tx: &Sender<u8>, b: u8) -> (r: Result<(), u8>)
    ensures
        r matches Err(v) ==> v == b,
{
    tx.send(b).map_err(|e| e.0)
}

/// Byte that stands for a clipboard change on the channel.
pub const CLIPBOARD_CHANGED_BYTE: u8 = 1;

/// Byte that stands for a request to show the picker on the channel.
pub const SHOW_REQUESTED_BYTE: u8 = 0;

/// A payload-free signal naming which notification source fired.
#[derive(Clone, Copy, Debug, PartialEq, Eq, Structural)]
pub enum FunnelToken {
    ClipboardChanged,
    ShowRequested,
}

impl FunnelToken {
    pub open spec fn spec_to_byte(self) -> u8 {
        match self {
            FunnelToken::ClipboardChanged => CLIPBOARD_CHANGED_BYTE,
            FunnelToken::ShowRequested => SHOW_REQUESTED_BYTE,
        }
    }

    /// Reads a byte from the channel: the clipboard-change byte is a clipboard
    /// change, every other byte a request to show the picker.
    pub open spec fn spec_from_byte(b: u8) -> FunnelToken {
        if b == CLIPBOARD_CHANGED_BYTE {
            FunnelToken::ClipboardChanged
        } else {
            FunnelToken::ShowRequested
        }
    }

    /// The byte this token travels as.
    pub fn to_byte(self) -> (r: u8)
        ensures
            r == self.spec_to_byte(),
    {
        match self {
            FunnelToken::ClipboardChanged => CLIPBOARD_CHANGED_BYTE,
            FunnelToken::ShowRequested => SHOW_REQUESTED_BYTE,
        }
    }

    /// The token a byte from the channel stands for.
    pub fn from_byte(b: u8) -> (r: FunnelToken)
        ensures
            r == FunnelToken::spec_from_byte(b),
    {
        if b == CLIPBOARD_CHANGED_BYTE {
            FunnelToken::ClipboardChanged
        } else {
            FunnelToken::ShowRequested
        }
    }
}

/// Every token reads back as itself after travelling as a byte.
pub proof fn lemma_token_byte_round_trip(t: FunnelToken)
    ensures
        FunnelToken::spec_from_byte(t.spec_to_byte()) == t,
{
}

/// The producing end of the funnel; one per notification source.
pub struct FunnelSender {
    tx: Sender<u8>,
}

/// The consuming end of the funnel, owned by the coordinator.
pub struct FunnelReceiver {
    rx: Receiver<u8>,
}

/// A new funnel: its sending and its receiving end.
pub fn funnel() -> (FunnelSender, FunnelReceiver) {
    let (tx, rx) = crossbeam_channel::unbounded::<u8>();
    (FunnelSender { tx }, FunnelReceiver { rx })
}

impl FunnelSender {
    /// Another sending end of the same funnel, for a further producer.
    pub fn duplicate(&self) -> FunnelSender {
        FunnelSender { tx: self.tx.clone() }
    }

    /// Sends one token without blocking. Fails only when the receiving end is
    /// gone, and then hands the token back.
    pub fn send(&self, token: FunnelToken) -> (r: Result<(), FunnelToken>)
        ensures
            r matches Err(t) ==> t == token,
    {
        match send_byte(&self.tx, token.to_byte()) {
            Ok(()) => Ok(()),
            Err(b) => {
                proof {
                    lemma_token_byte_round_trip(token);
                }
                Err(FunnelToken::from_byte(b))
            },
        }
    }
}

impl FunnelReceiver {
    /// The next token, blocking until one is there; `None` once the funnel is
    /// empty and every sender is gone.
    pub fn next(&self) -> (r: Option<FunnelToken>) {
        match self.rx.recv() {
            Ok(b) => Some(FunnelToken::from_byte(b)),
            Err(_) => None,
        }
    }
}

} // verus!
