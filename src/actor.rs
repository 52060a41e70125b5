//! The connection actor's rules. The actor owns the transport and serves the
//! command queue one envelope at a time: dequeue, write the request, read one
//! response, settle the reply slot. The I/O itself is performed by whoever
//! drives the actor; this module decides what happens next.

use vstd::prelude::*;
use tokio::sync::oneshot;
use crate::link::{settle_slot, Message, ReplySlot, Settlement};

verus! {

/// Where the actor stands in its round trip.
#[derive(PartialEq, Eq, Structural, Clone, Copy, Debug)]
pub enum Phase {
    /// Waiting for the next envelope.
    Receiving,
    /// The request of the held envelope is being written.
    Writing,
    /// The response to the held envelope is being read.
    Reading,
    /// The actor has stopped.
    Closed,
}

/// What the driver observed since the last action.
pub enum ActorEvent {
    /// The queue handed out an envelope, or `None` once it is closed and empty.
    Dequeued(Option<Message>),
    /// Whether the request was written in full.
    Written(bool),
    /// The response frame that was read, or `None` if the read failed.
    ReadDone(Option<Vec<u8>>),
}

/// What the driver must do next.
pub enum ActorAction {
    /// Dequeue the next envelope.
    Receive,
    /// Write these request bytes to the transport.
    Write(Vec<u8>),
    /// Read one response frame from the transport.
    Read,
    /// Stop: the actor is finished.
    Exit,
}

/// An event as the actor's rules see it: its kind and the bytes it carries.
pub enum Observed {
    /// An envelope with these request bytes was dequeued.
    Got(Seq<u8>),
    /// The queue is closed and empty.
    QueueEnded,
    /// The request was written in full.
    WriteOk,
    /// Writing the request failed.
    WriteFailed,
    /// This response frame was read.
    ReadOk(Seq<u8>),
    /// Reading the response failed.
    ReadFailed,
}

/// The actor's abstract state: its phase, the requests of the envelopes it
/// has dequeued, in order, and what each settled envelope received, in the
/// same order: the frame read for it, or nothing when its slot was dropped.
pub struct ActorView {
    pub phase: Phase,
    pub written: Seq<Seq<u8>>,
    pub answers: Seq<Option<Seq<u8>>>,
}

/// What an event tells the actor.
pub open spec fn observed(e: ActorEvent) -> Observed {
    match e {
        ActorEvent::Dequeued(Some(m)) => Observed::Got(m.buffer@),
        ActorEvent::Dequeued(None) => Observed::QueueEnded,
        ActorEvent::Written(true) => Observed::WriteOk,
        ActorEvent::Written(false) => Observed::WriteFailed,
        ActorEvent::ReadDone(Some(b)) => Observed::ReadOk(b@),
        ActorEvent::ReadDone(None) => Observed::ReadFailed,
    }
}

/// Whether an observation answers the action the actor takes in `p`.
pub open spec fn accepts(p: Phase, o: Observed) -> bool {
    match p {
        Phase::Receiving => o is Got || o is QueueEnded,
        Phase::Writing => o is WriteOk || o is WriteFailed,
        Phase::Reading => o is ReadOk || o is ReadFailed,
        Phase::Closed => false,
    }
}

/// The state after an accepted observation. A frame read settles the held
/// envelope with that frame; a transport failure settles it with nothing (its
/// slot is dropped) and stops the actor.
pub open spec fn step(v: ActorView, o: Observed) -> ActorView {
    match o {
        Observed::Got(req) => ActorView { phase: Phase::Writing, written: v.written.push(req), ..v },
        Observed::QueueEnded => ActorView { phase: Phase::Closed, ..v },
        Observed::WriteOk => ActorView { phase: Phase::Reading, ..v },
        Observed::ReadOk(b) => ActorView { phase: Phase::Receiving, answers: v.answers.push(Some(b)), ..v },
        _ => ActorView { phase: Phase::Closed, answers: v.answers.push(None), ..v },
    }
}

/// The state after a sequence of accepted observations.
pub open spec fn run(v: ActorView, os: Seq<Observed>) -> ActorView
    decreases os.len(),
{
    if os.len() == 0 {
        v
    } else {
        step(run(v, os.drop_last()), os.last())
    }
}

/// Whether each observation of `os` answers the actor's action at that point.
pub open spec fn valid_run(v: ActorView, os: Seq<Observed>) -> bool
    decreases os.len(),
{
    if os.len() == 0 {
        true
    } else {
        valid_run(v, os.drop_last()) && accepts(run(v, os.drop_last()).phase, os.last())
    }
}

/// The requests dequeued in a sequence of observations, in order.
pub open spec fn requests_of(os: Seq<Observed>) -> Seq<Seq<u8>>
    decreases os.len(),
{
    if os.len() == 0 {
        Seq::empty()
    } else {
        match os.last() {
            Observed::Got(req) => requests_of(os.drop_last()).push(req),
            _ => requests_of(os.drop_last()),
        }
    }
}

/// The round-trip outcomes in a sequence of observations, in order: each
/// frame read, and nothing for each failed write or read.
pub open spec fn outcomes_of(os: Seq<Observed>) -> Seq<Option<Seq<u8>>>
    decreases os.len(),
{
    if os.len() == 0 {
        Seq::empty()
    } else {
        match os.last() {
            Observed::ReadOk(b) => outcomes_of(os.drop_last()).push(Some(b)),
            Observed::WriteFailed => outcomes_of(os.drop_last()).push(None),
            Observed::ReadFailed => outcomes_of(os.drop_last()).push(None),
            _ => outcomes_of(os.drop_last()),
        }
    }
}

/// The actor's state before any event.
pub open spec fn initial() -> ActorView {
    ActorView { phase: Phase::Receiving, written: Seq::empty(), answers: Seq::empty() }
}

/// The actor's invariant: at most one envelope is held, during its write and
/// its read, and every other dequeued envelope has been settled.
pub open spec fn in_order(v: ActorView) -> bool {
    &&& (v.phase == Phase::Writing || v.phase == Phase::Reading) ==> v.written.len() == v.answers.len() + 1
    &&& (v.phase == Phase::Receiving || v.phase == Phase::Closed) ==> v.written.len() == v.answers.len()
}

/// Whatever mix of device handles submitted them, the actor writes the
/// requests in the order it dequeued them, and the k-th envelope dequeued
/// receives the k-th round trip's outcome: the frame read right after its
/// request was written, or nothing (its slot dropped) when the write or the
/// read failed. It never holds more than one envelope at a time.
pub proof fn lemma_settles_in_dequeue_order(os: Seq<Observed>)
    requires
        valid_run(initial(), os),
    ensures
        in_order(run(initial(), os)),
        run(initial(), os).written == requests_of(os),
        run(initial(), os).answers == outcomes_of(os),
    decreases os.len(),
{
    if os.len() > 0 {
        lemma_settles_in_dequeue_order(os.drop_last());
    }
}

/// Once stopped, the actor accepts no event: it never dequeues again.
pub proof fn lemma_closed_is_final(v: ActorView, o: Observed)
    requires
        v.phase == Phase::Closed,
    ensures
        !accepts(v.phase, o),
{
}

/// The connection actor's decision state.
pub struct ConnectionActor {
    phase: Phase,
    slot: Option<ReplySlot>,
    written: Ghost<Seq<Seq<u8>>>,
    answers: Ghost<Seq<Option<Seq<u8>>>>,
}

impl View for ConnectionActor {
    type V = ActorView;

    closed spec fn view(&self) -> ActorView {
        ActorView { phase: self.phase, written: self.written@, answers: self.answers@ }
    }
}

impl ConnectionActor {
    /// Well-formed: the abstract state keeps its order, and the slot of the
    /// held envelope is kept, still awaiting, exactly while a round trip is
    /// under way.
    pub closed spec fn wf(&self) -> bool {
        &&& in_order(self@)
        &&& (self.slot is Some <==> (self.phase == Phase::Writing || self.phase == Phase::Reading))
        &&& (self.slot matches Some(s) ==> s.awaiting())
    }

    /// An actor waiting for its first envelope.
    pub fn new() -> (r: ConnectionActor)
        ensures
            r.wf(),
            r@ == initial(),
    {
        ConnectionActor {
            phase: Phase::Receiving,
            slot: None,
            written: Ghost(Seq::empty()),
            answers: Ghost(Seq::empty()),
        }
    }

    /// The actor's phase.
    pub fn phase(&self) -> (r: Phase)
        ensures
            r == self@.phase,
    {
        self.phase
    }

    /// Takes in what the driver observed and says what to do next. The
    /// frame read is delivered into the slot of the envelope whose request
    /// was written just before; a failed write or read drops that slot
    /// unresolved and stops the actor. Whether the caller is still waiting on
    /// the slot changes neither the next state nor the next action.
    pub fn on_event(&mut self, ev: ActorEvent) -> (r: ActorAction)
        requires
            old(self).wf(),
            accepts(old(self)@.phase, observed(ev)),
            ev matches ActorEvent::Dequeued(Some(m)) ==> m.response.awaiting(),
        ensures
            final(self).wf(),
            final(self)@ == step(old(self)@, observed(ev)),
            ev matches ActorEvent::Dequeued(Some(m)) ==> (r matches ActorAction::Write(b) && b@ == m.buffer@),
            observed(ev) is WriteOk ==> r is Read,
            observed(ev) is ReadOk ==> r is Receive,
            (observed(ev) is QueueEnded || observed(ev) is WriteFailed || observed(ev) is ReadFailed)
                ==> r is Exit,
    {
        match ev {
            ActorEvent::Dequeued(Some(msg)) => {
                let Message { buffer, response } = msg;
                self.slot = Some(response);
                self.phase = Phase::Writing;
                self.written = Ghost(self.written@.push(buffer@));
                ActorAction::Write(buffer)
            },
            ActorEvent::Dequeued(None) => {
                self.phase = Phase::Closed;
                ActorAction::Exit
            },
            ActorEvent::Written(true) => {
                self.phase = Phase::Reading;
                ActorAction::Read
            },
            ActorEvent::Written(false) => {
                self.settle(None);
                self.phase = Phase::Closed;
                ActorAction::Exit
            },
            ActorEvent::ReadDone(Some(bytes)) => {
                self.settle(Some(bytes));
                self.phase = Phase::Receiving;
                ActorAction::Receive
            },
            ActorEvent::ReadDone(None) => {
                self.settle(None);
                self.phase = Phase::Closed;
                ActorAction::Exit
            },
        }
    }

    /// Settles the held envelope and records what its slot received.
    fn settle(&mut self, reply: Option<Vec<u8>>) -> (r: Settlement)
        requires
            old(self).slot matches Some(s) && s.awaiting(),
        ensures
            final(self).slot is None,
            final(self).phase == old(self).phase,
            final(self).written == old(self).written,
            reply matches Some(b) ==> final(self).answers@ == old(self).answers@.push(Some(b@)),
            reply is None ==> final(self).answers@ == old(self).answers@.push(None),
            reply is None <==> r == Settlement::Dropped,
    {
        let mut slot = self.slot.take().unwrap();
        let r = settle_slot(&mut slot, reply);
        self.answers = Ghost(self.answers@.push(slot.handed()));
        r
    }
}

} // verus!
