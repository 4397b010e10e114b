//! Endpoints of the unbounded cross-thread queues the pipeline runs on:
//! the frame channel (worker to consumer), the control channel (controller
//! to worker) and the event channel (anywhere to the UI loop).
//!
//! The queues themselves belong to an outside crate; each endpoint here
//! wraps one of its handles and keeps a ghost log of the messages that
//! passed through, so that contracts can speak of what a worker sent or
//! a consumer took, in order.

use vstd::prelude::*;

use crate::algorithm::Data;
use crate::algorithm_processor::ThreadControlMessage;
use crate::application::CustomEvent;

verus! {

#[verifier::external_type_specification]
#[verifier::external_body]
#[verifier::reject_recursive_types(T)]
pub struct ExSender<T>(crossbeam::channel::Sender<T>);

#[verifier::external_type_specification]
#[verifier::external_body]
#[verifier::reject_recursive_types(T)]
pub struct ExReceiver<T>(crossbeam::channel::Receiver<T>);

/// What polling the control channel turned up.
pub enum ControlPoll {
    /// A control message was waiting.
    Message(ThreadControlMessage),
    /// Nothing was waiting within the allotted time.
    Empty,
    /// Every sender is gone, so no message can ever arrive again.
    Disconnected,
}

/// Whether one poll outcome ends a generation run: a control message
/// arrived, or no control message can ever arrive again.
pub open spec fn poll_ends_run(polled: ControlPoll) -> bool {
    polled matches ControlPoll::Message(_) || polled is Disconnected
}

/// The producing end of the frame channel, owned by the active worker
/// thread. `sent_frames` is the log of every frame accepted by the
/// channel through this handle, oldest first.
pub struct FrameSender {
    inner: crossbeam::channel::Sender<Data>,
    sent: Ghost<Seq<Seq<i64>>>,
    attempted: Ghost<nat>,
}

impl FrameSender {
    /// The frames this handle has delivered to the channel, in send order.
    pub closed spec fn sent_frames(self) -> Seq<Seq<i64>> {
        self.sent@
    }

    /// How many sends were attempted through this handle, delivered or
    /// not: more attempts than delivered frames means a send failed.
    pub closed spec fn attempted_sends(self) -> nat {
        self.attempted@
    }

    /// Relies on `crossbeam_channel::Sender::send`: on an unbounded channel
    /// the call never blocks, the queue hands messages back in send order,
    /// and the send fails exactly when the receiver has been dropped.
    #[verifier::external_body]
    pub fn send(&mut self, frame: Data) -> (ok: bool)
        ensures
            final(self).attempted_sends() == old(self).attempted_sends() + 1,
            ok ==> final(self).sent_frames() == old(self).sent_frames().push(frame@),
            !ok ==> final(self).sent_frames() == old(self).sent_frames(),
    {
        self.inner.send(frame).is_ok()
    }
}

/// The consuming end of the frame channel, held by the UI thread.
/// `taken_frames` is the log of every frame this handle has received,
/// oldest first; the queue behind it is FIFO, so the log extends in the
/// order the worker sent.
pub struct ProcessedDataHandle {
    inner: crossbeam::channel::Receiver<Data>,
    taken: Ghost<Seq<Seq<i64>>>,
}

impl ProcessedDataHandle {
    /// The frames this handle has received, in arrival order.
    pub closed spec fn taken_frames(self) -> Seq<Seq<i64>> {
        self.taken@
    }

    /// Relies on `crossbeam_channel::Receiver::try_recv`: it never blocks,
    /// hands back the eldest queued message if one is there, and reports
    /// an error when the queue is empty or every sender is gone.
    #[verifier::external_body]
    pub fn try_recv(&mut self) -> (r: Option<Data>)
        ensures
            match r {
                Some(frame) => final(self).taken_frames() == old(self).taken_frames().push(
                    frame@,
                ),
                None => final(self).taken_frames() == old(self).taken_frames(),
            },
    {
        self.inner.try_recv().ok()
    }

    /// Relies on `crossbeam_channel::Receiver::recv_timeout`: it blocks at
    /// most for the given time, and hands back the eldest queued message
    /// if one arrives before that.
    #[verifier::external_body]
    pub fn recv_timeout_ms(&mut self, millis: u64) -> (r: Option<Data>)
        ensures
            match r {
                Some(frame) => final(self).taken_frames() == old(self).taken_frames().push(
                    frame@,
                ),
                None => final(self).taken_frames() == old(self).taken_frames(),
            },
    {
        self.inner.recv_timeout(core::time::Duration::from_millis(millis)).ok()
    }

    /// Relies on `crossbeam_channel::Receiver::len`: the number of messages
    /// waiting in the queue at some moment during the call.
    #[verifier::external_body]
    pub(crate) fn queued_len(&self) -> usize {
        self.inner.len()
    }
}

/// The controller's end of the cancellation channel. `requested` is the
/// log of every control message handed to this handle, whether or not a
/// worker was still listening — a send to a gone worker owes nothing.
pub struct ControlSender {
    inner: crossbeam::channel::Sender<ThreadControlMessage>,
    requested: Ghost<Seq<ThreadControlMessage>>,
}

impl ControlSender {
    /// The control messages issued through this handle, oldest first.
    pub closed spec fn requested(self) -> Seq<ThreadControlMessage> {
        self.requested@
    }

    /// Relies on `crossbeam_channel::Sender::send`: on an unbounded channel
    /// it never blocks and fails exactly when the receiver has been
    /// dropped — in which case no worker is listening and nothing is owed.
    #[verifier::external_body]
    pub fn send(&mut self, message: ThreadControlMessage) -> (ok: bool)
        ensures
            final(self).requested() == old(self).requested().push(message),
    {
        self.inner.send(message).is_ok()
    }
}

/// The worker's end of the cancellation channel. `observed` is the log
/// of every poll's outcome, oldest first, so a contract can say what the
/// worker saw when its run ended.
pub struct ControlReceiver {
    inner: crossbeam::channel::Receiver<ThreadControlMessage>,
    observed: Ghost<Seq<ControlPoll>>,
}

impl ControlReceiver {
    /// The outcomes of the polls made through this handle, oldest first.
    pub closed spec fn observed(self) -> Seq<ControlPoll> {
        self.observed@
    }

    /// Relies on `crossbeam_channel::Receiver::try_recv`: it never blocks
    /// and tells a waiting message, an empty queue and a dropped sender
    /// apart.
    #[verifier::external_body]
    pub(crate) fn poll(&mut self) -> (r: ControlPoll)
        ensures
            final(self).observed() == old(self).observed().push(r),
    {
        match self.inner.try_recv() {
            Ok(message) => ControlPoll::Message(message),
            Err(crossbeam::channel::TryRecvError::Empty) => ControlPoll::Empty,
            Err(crossbeam::channel::TryRecvError::Disconnected) => ControlPoll::Disconnected,
        }
    }

    /// Relies on `crossbeam_channel::Receiver::recv_timeout`: it blocks at
    /// most for the given time, returning earlier if a message arrives or
    /// every sender is gone. This is the worker's cadence wait.
    #[verifier::external_body]
    pub(crate) fn wait_ms(&mut self, millis: u64) -> (r: ControlPoll)
        ensures
            final(self).observed() == old(self).observed().push(r),
    {
        match self.inner.recv_timeout(core::time::Duration::from_millis(millis)) {
            Ok(message) => ControlPoll::Message(message),
            Err(crossbeam::channel::RecvTimeoutError::Timeout) => ControlPoll::Empty,
            Err(crossbeam::channel::RecvTimeoutError::Disconnected) => ControlPoll::Disconnected,
        }
    }
}

/// A fire-and-forget handle that wakes the UI loop. `events` is the log
/// of the notifications issued through this handle, whether or not the
/// other end was still listening — failure of the underlying send is
/// deliberately ignored.
pub struct EventSender {
    inner: crossbeam::channel::Sender<CustomEvent>,
    log: Ghost<Seq<CustomEvent>>,
}

impl EventSender {
    /// The notifications issued through this handle, oldest first.
    pub closed spec fn events(self) -> Seq<CustomEvent> {
        self.log@
    }

    /// Relies on `crossbeam_channel::Sender::send`: on an unbounded channel
    /// it never blocks; a failure means the UI loop is gone and is
    /// silently ignored.
    #[verifier::external_body]
    pub(crate) fn notify(&mut self, event: CustomEvent)
        ensures
            final(self).events() == old(self).events().push(event),
    {
        let _ = self.inner.send(event);
    }

    /// Relies on `crossbeam_channel::Sender::clone`: the clone feeds the
    /// same queue. Its own log starts empty.
    #[verifier::external_body]
    pub fn duplicate(&self) -> (r: EventSender)
        ensures
            r.events() == Seq::<CustomEvent>::empty(),
    {
        EventSender { inner: self.inner.clone(), log: Ghost(Seq::empty()) }
    }
}

/// The UI loop's end of the event channel.
pub struct EventReceiver {
    inner: crossbeam::channel::Receiver<CustomEvent>,
}

impl EventReceiver {
    /// Relies on `crossbeam_channel::Receiver::try_recv`: it never blocks
    /// and hands back the eldest queued event, if any.
    #[verifier::external_body]
    pub fn try_recv(&mut self) -> (r: Option<CustomEvent>) {
        self.inner.try_recv().ok()
    }
}

/// Relies on `crossbeam_channel::unbounded`: the two ends of one fresh,
/// empty, unbounded FIFO queue.
#[verifier::external_body]
pub fn frame_channel() -> (r: (FrameSender, ProcessedDataHandle))
    ensures
        r.0.sent_frames() == Seq::<Seq<i64>>::empty(),
        r.0.attempted_sends() == 0,
        r.1.taken_frames() == Seq::<Seq<i64>>::empty(),
{
    let (sender, receiver) = crossbeam::channel::unbounded();
    (
        FrameSender { inner: sender, sent: Ghost(Seq::empty()), attempted: Ghost(0) },
        ProcessedDataHandle { inner: receiver, taken: Ghost(Seq::empty()) },
    )
}

/// Relies on `crossbeam_channel::unbounded`: the two ends of one fresh,
/// empty, unbounded FIFO queue.
#[verifier::external_body]
pub fn control_channel() -> (r: (ControlSender, ControlReceiver))
    ensures
        r.0.requested() == Seq::<ThreadControlMessage>::empty(),
        r.1.observed() == Seq::<ControlPoll>::empty(),
{
    let (sender, receiver) = crossbeam::channel::unbounded();
    (
        ControlSender { inner: sender, requested: Ghost(Seq::empty()) },
        ControlReceiver { inner: receiver, observed: Ghost(Seq::empty()) },
    )
}

/// Relies on `crossbeam_channel::unbounded`: the two ends of one fresh,
/// empty, unbounded FIFO queue.
#[verifier::external_body]
pub fn event_channel() -> (r: (EventSender, EventReceiver))
    ensures
        r.0.events() == Seq::<CustomEvent>::empty(),
{
    let (sender, receiver) = crossbeam::channel::unbounded();
    (EventSender { inner: sender, log: Ghost(Seq::empty()) }, EventReceiver { inner: receiver })
}

} // verus!
