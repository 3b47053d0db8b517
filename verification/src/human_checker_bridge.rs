//! Channel between the plaintext checker, running on the decoding thread, and
//! the terminal interface, which asks the user to confirm a candidate.
//!
//! The checker sends a [`TuiConfirmationRequest`] carrying a one-shot reply
//! channel; the interface answers `true` (accept) or `false` (reject). The two
//! halves of the request channel are held in a [`ConfirmationChannel`]: the
//! checker side uses the sender, the interface takes the receiver.

use std::sync::mpsc::{Receiver, Sender};

use vstd::prelude::*;

use crate::state::{CheckResult, HumanConfirmationRequest};

verus! {

/// Declares `std::sync::mpsc::Receiver`, the receiving half of a channel.
#[verifier::external_type_specification]
#[verifier::external_body]
#[verifier::reject_recursive_types(T)]
pub struct ExReceiver<T>(Receiver<T>);

/// Wrapper of `std::sync::mpsc::channel`: a fresh channel. Nothing is stated
/// of the two halves beyond their types.
#[verifier::external_body]
fn new_channel<T>() -> (r: (Sender<T>, Receiver<T>)) {
    std::sync::mpsc::channel()
}

/// Wrapper of `Sender::clone`: another sender for the same channel.
#[verifier::external_body]
fn clone_sender<T>(tx: &Sender<T>) -> (r: Sender<T>) {
    tx.clone()
}

/// Wrapper of `Sender::send`: `true` when the value was sent, `false` when the
/// receiving half is gone. Which of the two happens depends on the other
/// thread, so nothing is stated of the result.
#[verifier::external_body]
pub(crate) fn send_value<T>(tx: &Sender<T>, value: T) -> (r: bool) {
    tx.send(value).is_ok()
}

/// Wrapper of `Receiver::recv`: blocks until a value arrives, `None` when all
/// senders are gone. The value depends on the other thread, so nothing is
/// stated of it.
#[verifier::external_body]
fn receive_value<T>(rx: &Receiver<T>) -> (r: Option<T>) {
    rx.recv().ok()
}

/// A confirmation request sent from the checker to the interface.
pub struct TuiConfirmationRequest {
    /// The candidate text and checker details.
    pub request: HumanConfirmationRequest,
    /// Channel for the user's answer (true = accept, false = reject).
    pub response_tx: Sender<bool>,
}

/// The two halves of the confirmation channel, each present until it is
/// taken or the channel is replaced.
pub struct ConfirmationChannel {
    sender: Option<Sender<TuiConfirmationRequest>>,
    receiver: Option<Receiver<TuiConfirmationRequest>>,
}

impl ConfirmationChannel {
    /// Whether the sending half is present.
    pub closed spec fn has_sender(&self) -> bool {
        self.sender is Some
    }

    /// Whether the receiving half is present.
    pub closed spec fn has_receiver(&self) -> bool {
        self.receiver is Some
    }

    /// No channel yet: neither half is present.
    pub fn new() -> (r: Self)
        ensures
            !r.has_sender(),
            !r.has_receiver(),
    {
        ConfirmationChannel { sender: None, receiver: None }
    }

    /// A handle holding another sender for the same channel (when there is
    /// one) and no receiver, for sending requests from another thread.
    pub fn share_sender(&self) -> (r: Self)
        ensures
            r.has_sender() == self.has_sender(),
            !r.has_receiver(),
    {
        let sender = match &self.sender {
            Some(s) => Some(clone_sender(s)),
            None => None,
        };
        ConfirmationChannel { sender, receiver: None }
    }

    /// Drops the sending half, so that requests fall back to the console.
    pub fn clear_sender(&mut self)
        ensures
            !final(self).has_sender(),
            final(self).has_receiver() == old(self).has_receiver(),
    {
        self.sender = None;
    }
}

/// Creates a fresh channel, replacing any previous one: both halves are then
/// present. Always returns `true`.
pub fn init_tui_confirmation_channel(channel: &mut ConfirmationChannel) -> (r: bool)
    ensures
        r,
        final(channel).has_sender(),
        final(channel).has_receiver(),
{
    let (tx, rx) = new_channel();
    channel.sender = Some(tx);
    channel.receiver = Some(rx);
    true
}

/// Takes the receiving half: `Some` when it was present, after which it is
/// absent until the next initialisation.
pub fn take_confirmation_receiver(channel: &mut ConfirmationChannel) -> (r: Option<
    Receiver<TuiConfirmationRequest>,
>)
    ensures
        r is Some <==> old(channel).has_receiver(),
        !final(channel).has_receiver(),
        final(channel).has_sender() == old(channel).has_sender(),
{
    let r = channel.receiver.take();
    r
}

/// Creates a fresh channel and takes its receiving half, which is returned.
pub fn reinit_tui_confirmation_channel(channel: &mut ConfirmationChannel) -> (r: Option<
    Receiver<TuiConfirmationRequest>,
>)
    ensures
        r is Some,
        final(channel).has_sender(),
        !final(channel).has_receiver(),
{
    init_tui_confirmation_channel(channel);
    take_confirmation_receiver(channel)
}

/// Whether the interface is accepting confirmation requests (the sending
/// half is present).
pub fn is_tui_confirmation_active(channel: &ConfirmationChannel) -> (r: bool)
    ensures
        r == channel.has_sender(),
{
    channel.sender.is_some()
}

/// Asks the interface to confirm the candidate of `check_result` and waits for
/// the answer: `Some(true)` when accepted, `Some(false)` when rejected. Returns
/// `None` at once when no channel is present, and `None` when the interface is
/// gone before answering.
pub fn request_tui_confirmation(channel: &ConfirmationChannel, check_result: &CheckResult) -> (r:
    Option<bool>)
    ensures
        !channel.has_sender() ==> r == None::<bool>,
{
    let tx = match &channel.sender {
        Some(s) => clone_sender(s),
        None => {
            return None;
        },
    };
    let (response_tx, response_rx) = new_channel();
    let request = TuiConfirmationRequest {
        request: HumanConfirmationRequest::from_check_result(check_result),
        response_tx,
    };
    if !send_value(&tx, request) {
        return None;
    }
    receive_value(&response_rx)
}

} // verus!
