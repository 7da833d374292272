use crate::errors::Error;
use std::sync::atomic::{AtomicUsize, Ordering};
use std::sync::Arc;
use vstd::prelude::*;

verus! {

/// Declares std's sending half of a channel, held by `Sender`.
#[verifier::external_type_specification]
#[verifier::external_body]
#[verifier::reject_recursive_types(T)]
pub struct ExMpscSender<T>(std::sync::mpsc::Sender<T>);

/// Declares std's receiving half of a channel, held by `RtmClient`.
#[verifier::external_type_specification]
#[verifier::external_body]
#[verifier::reject_recursive_types(T)]
pub struct ExMpscReceiver<T>(std::sync::mpsc::Receiver<T>);

/// Declares the error of a send on a channel whose receiver is gone.
#[verifier::external_type_specification]
#[verifier::external_body]
#[verifier::reject_recursive_types(T)]
pub struct ExSendError<T>(std::sync::mpsc::SendError<T>);

/// Relies on std's `Clone` for `mpsc::Sender`: another sending half of the same channel.
pub assume_specification<T>[ <std::sync::mpsc::Sender<T> as std::clone::Clone>::clone ](
    s: &std::sync::mpsc::Sender<T>,
) -> std::sync::mpsc::Sender<T>;

/// A message on the channel: the text of an alert to deliver.
#[derive(Debug)]
pub struct Message {
    pub text: String,
}

/// The handler that a client is made for.
pub struct Handler;

/// The receiving end of the channel, with a sender for it.
pub struct RtmClient {
    sender: Sender,
    rx: std::sync::mpsc::Receiver<Message>,
}

/// Sends messages on the channel; each clone sends on the same channel and shares the
/// message counter.
#[derive(Clone)]
pub struct Sender {
    tx: std::sync::mpsc::Sender<Message>,
    msg_num: Arc<AtomicUsize>,
}

pub trait EventHandler {

}

impl EventHandler for Handler {

}

/// Relies on std's `mpsc::channel`: a sending and a receiving half of one new channel.
#[verifier::external_body]
fn new_channel() -> (r: (std::sync::mpsc::Sender<Message>, std::sync::mpsc::Receiver<Message>)) {
    std::sync::mpsc::channel::<Message>()
}

/// Relies on std's `mpsc::Sender::send`: the message is queued, or handed back in the error
/// when the receiver is gone. Which of the two happens depends on another thread.
#[verifier::external_body]
fn channel_send(tx: &std::sync::mpsc::Sender<Message>, m: Message) -> (r: Result<(), std::sync::mpsc::SendError<Message>>)
{
    std::sync::mpsc::Sender::<Message>::send(tx, m)
}

/// Relies on std's `mpsc::Receiver::try_recv`: a message that has arrived, if any, without
/// waiting.
#[verifier::external_body]
fn channel_try_recv(rx: &std::sync::mpsc::Receiver<Message>) -> (r: Option<Message>) {
    rx.try_recv().ok()
}

/// The text of std's `SendError`.
pub open spec fn closed_channel_text() -> Seq<char> {
    "sending on a closed channel"@
}

impl Sender {
    /// The next message id: each call on any clone gets the counter's value and moves it on
    /// by one, wrapping at `usize::MAX`.
    pub fn get_msg_uid(&self) -> (r: usize) {
        self.msg_num.fetch_add(1, Ordering::SeqCst)
    }

    /// Sends a message; `Internal` when the receiving end is gone.
    pub fn send(&self, raw: Message) -> (r: Result<(), Error>)
        ensures
            r matches Err(e) ==> (e matches Error::Internal(t) && t@ == closed_channel_text()),
    {
        match channel_send(&self.tx, raw) {
            Ok(()) => Ok(()),
            Err(_) => Err(Error::Internal(String::from_str("sending on a closed channel"))),
        }
    }

    /// Sends a message under the next message id, and returns that id.
    pub fn send_message(&self, msg: Message) -> (r: Result<usize, Error>)
        ensures
            r matches Err(e) ==> (e matches Error::Internal(t) && t@ == closed_channel_text()),
    {
        let n = self.get_msg_uid();
        match self.send(msg) {
            Ok(()) => Ok(n),
            Err(e) => Err(e),
        }
    }
}

impl RtmClient {
    /// A client on a new channel, with its message counter at zero.
    pub fn get_client<T: EventHandler>(_handler: &mut T) -> (r: Result<RtmClient, Error>)
        ensures
            r is Ok,
    {
        let (tx, rx) = new_channel();
        let sender = Sender { tx, msg_num: Arc::new(AtomicUsize::new(0)) };
        Ok(RtmClient { sender, rx })
    }

    /// The sender of this client's channel; clone it to send from other threads.
    pub fn sender(&self) -> (r: &Sender) {
        &self.sender
    }

    /// A message that has arrived, if any, without waiting.
    pub fn try_receive(&self) -> (r: Option<Message>) {
        channel_try_recv(&self.rx)
    }

    /// Every message that has arrived, in order of arrival.
    pub fn receive_all(&self) -> (r: Vec<Message>) {
        let mut out: Vec<Message> = Vec::new();
        loop
            decreases usize::MAX - out.len(),
        {
            if out.len() == usize::MAX {
                break;
            }
            match self.try_receive() {
                Some(m) => out.push(m),
                None => break,
            }
        }
        out
    }
}

} // verus!
