//! The command queue and the reply slot, both tokio channels, and the
//! command envelope that travels through the queue.

use vstd::prelude::*;
use tokio::sync::mpsc;
use tokio::sync::oneshot;

verus! {

#[verifier::external_type_specification]
#[verifier::external_body]
#[verifier::reject_recursive_types(T)]
pub struct ExQueueSender<T>(mpsc::Sender<T>);

#[verifier::external_type_specification]
#[verifier::external_body]
#[verifier::reject_recursive_types(T)]
pub struct ExQueueReceiver<T>(mpsc::Receiver<T>);

#[verifier::external_type_specification]
#[verifier::external_body]
#[verifier::reject_recursive_types(T)]
pub struct ExSlotSender<T>(oneshot::Sender<T>);

#[verifier::external_type_specification]
#[verifier::external_body]
#[verifier::reject_recursive_types(T)]
pub struct ExSlotReceiver<T>(oneshot::Receiver<T>);

/// Declared because `oneshot::Receiver` is a `Future` whose output holds this
/// error type; Verus refuses the receiver without it.
#[verifier::external_type_specification]
#[verifier::external_body]
pub struct ExSlotRecvError(oneshot::error::RecvError);

/// Number of envelopes the command queue holds before producers wait.
pub const QUEUE_CAPACITY: usize = 100;

/// A command envelope: the request bytes and the single-use slot its
/// response is delivered into.
pub struct Message {
    pub buffer: Vec<u8>,
    pub response: ReplySlot,
}

/// The sending side of a single-use reply slot. It is awaiting until it is
/// settled, after which it records what was handed into it: the response
/// bytes, or nothing when it was dropped unresolved.
pub struct ReplySlot {
    sender: Option<oneshot::Sender<Vec<u8>>>,
    handed: Ghost<Option<Seq<u8>>>,
}

impl ReplySlot {
    /// Whether the slot is still waiting to be settled.
    pub closed spec fn awaiting(&self) -> bool {
        self.sender is Some
    }

    /// What was handed into the slot: nothing while it is awaiting, or when
    /// it was dropped unresolved.
    pub closed spec fn handed(&self) -> Option<Seq<u8>> {
        if self.sender is Some {
            None
        } else {
            self.handed@
        }
    }

    /// Whether the slot is still waiting to be settled.
    pub fn is_awaiting(&self) -> (r: bool)
        ensures
            r == self.awaiting(),
    {
        self.sender.is_some()
    }
}

/// What became of an envelope's reply slot when the actor settled it.
#[derive(PartialEq, Eq, Structural, Clone, Copy, Debug)]
pub enum Settlement {
    /// The response was handed to the waiting caller.
    Delivered,
    /// The caller had stopped waiting; the response went nowhere.
    Orphaned,
    /// The slot was dropped unresolved, which tells the caller the round trip failed.
    Dropped,
}

/// Why a command did not produce a result.
#[derive(PartialEq, Eq, Structural, Clone, Copy, Debug)]
pub enum CommandError {
    /// No connection actor is left to service the queue.
    QueueClosed,
    /// The connection actor dropped the reply slot instead of answering.
    ReplyDropped,
    /// The response did not have the shape the command expects.
    Decode,
}

impl CommandError {
    /// A short description of the error.
    pub fn describe(&self) -> (r: &'static str)
        ensures
            *self == CommandError::QueueClosed ==> r@ == "command queue closed"@,
            *self == CommandError::ReplyDropped ==> r@ == "reply dropped by the connection"@,
            *self == CommandError::Decode ==> r@ == "response could not be decoded"@,
    {
        match self {
            CommandError::QueueClosed => "command queue closed",
            CommandError::ReplyDropped => "reply dropped by the connection",
            CommandError::Decode => "response could not be decoded",
        }
    }
}

/// Turns what a submission observed into its result: a refused envelope means
/// the queue is closed, a dropped slot means the round trip failed.
pub fn submit_outcome(accepted: bool, reply: Option<Vec<u8>>) -> (r: Result<Vec<u8>, CommandError>)
    ensures
        !accepted ==> r == Err::<Vec<u8>, CommandError>(CommandError::QueueClosed),
        accepted && reply is None ==> r == Err::<Vec<u8>, CommandError>(CommandError::ReplyDropped),
        accepted && reply is Some ==> (r matches Ok(b) && b@ == reply->0@),
{
    if !accepted {
        Err(CommandError::QueueClosed)
    } else {
        match reply {
            Some(b) => Ok(b),
            None => Err(CommandError::ReplyDropped),
        }
    }
}

/// The bound a command queue was made with, as a producer of it sees it.
pub uninterp spec fn queue_bound(tx: mpsc::Sender<Message>) -> nat;

/// Relies on tokio's `Clone` for `mpsc::Sender`: another producer of the same
/// queue, which has the same bound.
#[verifier::external_body]
pub(crate) fn clone_producer(tx: &mpsc::Sender<Message>) -> (r: mpsc::Sender<Message>)
    ensures
        queue_bound(r) == queue_bound(*tx),
{
    tx.clone()
}

/// Relies on `tokio::sync::mpsc::channel`: a queue bounded by `capacity`. It
/// panics on a capacity of zero, and above the semaphore's limit of
/// `usize::MAX >> 3` permits (`usize::MAX / 8`).
#[verifier::external_body]
pub(crate) fn bounded_queue(capacity: usize) -> (r: (mpsc::Sender<Message>, mpsc::Receiver<Message>))
    requires
        0 < capacity <= usize::MAX / 8,
    ensures
        queue_bound(r.0) == capacity,
{
    mpsc::channel(capacity)
}

/// Relies on `tokio::sync::oneshot::channel`: a fresh single-use reply slot.
#[verifier::external_body]
fn reply_slot() -> (oneshot::Sender<Vec<u8>>, oneshot::Receiver<Vec<u8>>) {
    oneshot::channel()
}

/// Relies on `tokio::sync::oneshot::Sender::send`: the value goes into the
/// slot, which is used up; `Err` when the receiving side is gone, and then it
/// hands the value back.
#[verifier::external_body]
fn fill_slot(slot: &mut ReplySlot, value: Vec<u8>) -> (r: Result<(), Vec<u8>>)
    requires
        old(slot).awaiting(),
    ensures
        !final(slot).awaiting(),
        final(slot).handed() == Some(value@),
        r matches Err(v) ==> v@ == value@,
{
    slot.sender.take().unwrap().send(value)
}

/// Creates the shared command queue, with room for `QUEUE_CAPACITY` envelopes.
pub fn command_queue() -> (r: (mpsc::Sender<Message>, mpsc::Receiver<Message>))
    ensures
        queue_bound(r.0) == QUEUE_CAPACITY,
{
    bounded_queue(QUEUE_CAPACITY)
}

impl Message {
    /// Wraps `request` in an envelope with a fresh reply slot, and returns the
    /// slot's receiving side for the caller to wait on.
    pub fn new(request: Vec<u8>) -> (r: (Message, oneshot::Receiver<Vec<u8>>))
        ensures
            r.0.buffer@ == request@,
            r.0.response.awaiting(),
    {
        let (response, waiter) = reply_slot();
        let slot = ReplySlot { sender: Some(response), handed: Ghost(None) };
        (Message { buffer: request, response: slot }, waiter)
    }

    /// Settles the envelope: delivers `reply` into its slot, or drops the slot
    /// unresolved when there is no reply.
    pub fn settle(&mut self, reply: Option<Vec<u8>>) -> (r: Settlement)
        requires
            old(self).response.awaiting(),
        ensures
            final(self).buffer == old(self).buffer,
            !final(self).response.awaiting(),
            reply matches Some(b) ==> final(self).response.handed() == Some(b@),
            reply is None ==> final(self).response.handed() is None,
            reply is None <==> r == Settlement::Dropped,
            reply is Some ==> (r == Settlement::Delivered || r == Settlement::Orphaned),
    {
        settle_slot(&mut self.response, reply)
    }
}

/// Delivers `reply` into `slot`, or drops the slot unresolved when there is
/// no reply. A slot whose caller stopped waiting takes the reply nowhere.
pub fn settle_slot(slot: &mut ReplySlot, reply: Option<Vec<u8>>) -> (r: Settlement)
    requires
        old(slot).awaiting(),
    ensures
        !final(slot).awaiting(),
        reply matches Some(b) ==> final(slot).handed() == Some(b@),
        reply is None ==> final(slot).handed() is None,
        reply is None <==> r == Settlement::Dropped,
        reply is Some ==> (r == Settlement::Delivered || r == Settlement::Orphaned),
{
    match reply {
        Some(bytes) => match fill_slot(slot, bytes) {
            Ok(()) => Settlement::Delivered,
            Err(_) => Settlement::Orphaned,
        },
        None => {
            *slot = ReplySlot { sender: None, handed: Ghost(None) };
            Settlement::Dropped
        },
    }
}

} // verus!
