//! Lifecycle of the background simulation worker: starting a generation
//! thread, the generation loop itself, and the stop-and-join teardown.
//!
//! At most one worker thread is ever alive per controller: the
//! [`WorkerContext`] — which owns the only sender of the frame channel —
//! is moved into the thread at start and only comes back by joining it,
//! so a second start must retire the first thread before it can spawn.

use vstd::prelude::*;

use crate::algorithm::{frame_at, frames_upto, generate_seed, next_frame, seed_wf, TICK_LIMIT};
use crate::application::{CustomEvent, SharedContext};
use crate::channel::{
    control_channel, frame_channel, poll_ends_run, ControlPoll, ControlReceiver, ControlSender,
    EventSender, FrameSender, ProcessedDataHandle,
};

verus! {

/// Milliseconds between successive frame generations.
pub const CADENCE_MS: u64 = 40;

/// A message on the cancellation channel.
pub enum ThreadControlMessage {
    /// Ask the worker thread to exit at its next poll point.
    Stop,
}

/// Everything one generation run owns: moved into the worker thread at
/// start, handed back whole when the thread is joined.
pub struct WorkerContext {
    /// The worker's end of the cancellation channel.
    pub controller_listener: ControlReceiver,
    /// The only sender of the frame channel.
    pub sender: FrameSender,
    /// Wakes the UI loop after each frame.
    pub event_proxy: EventSender,
}

/// What one generation run leaves behind: the frames sent through the
/// context's sender extend its log with the frames of ticks
/// `0, 1, ..., n - 1` for one well-formed seed field, and each frame was
/// followed by exactly one redraw notification. A run shorter than a
/// whole session ended for a reason: its last poll of the cancellation
/// channel turned up a stop request or a disconnect, or one send beyond
/// the `n` delivered frames failed because the receiver was gone.
pub open spec fn run_extends(
    before: WorkerContext,
    after: WorkerContext,
    seed: Seq<i64>,
    n: u64,
) -> bool {
    &&& n <= TICK_LIMIT
    &&& seed_wf(seed)
    &&& after.sender.sent_frames() == before.sender.sent_frames() + frames_upto(seed, n as int)
    &&& after.event_proxy.events() == before.event_proxy.events() + Seq::new(
        n as nat,
        |k: int| CustomEvent::RequestRedraw,
    )
    &&& n < TICK_LIMIT ==> {
        ||| after.controller_listener.observed().len() > before.controller_listener.observed().len()
            && poll_ends_run(after.controller_listener.observed().last())
        ||| after.sender.attempted_sends() == before.sender.attempted_sends() + n + 1
    }
}

/// The generation loop of one worker run.
///
/// It reads the lattice dimensions once from the shared configuration,
/// seeds a random per-cell field of that size, and then, once per cadence
/// tick until it observes a stop request (or the frame channel's receiver
/// is gone, or the tick counter reaches `TICK_LIMIT`): computes the next
/// frame, sends it, and wakes the UI loop. It returns the context it was
/// given, whose logs then show the whole run, as `run_extends` states.
pub fn worker_run(ctx: WorkerContext, shared_ctx: SharedContext) -> (r: WorkerContext)
    ensures
        exists|seed: Seq<i64>, n: u64|
            #[trigger] run_extends(ctx, r, seed, n) && 0 < seed.len() <= crate::MAX_CELLS,
{
    let params = shared_ctx.read();
    let rows = params.lattice_dimension.0;
    let cols = params.lattice_dimension.1;
    let size = rows * cols;
    proof {
        assert(0 < (rows as int) * (cols as int)) by (nonlinear_arith)
            requires
                0 < rows as int,
                0 < cols as int,
        ;
    }
    let seed = generate_seed(size);
    let ghost gseed = seed@;
    let ghost ctx0 = ctx;
    let mut count: u64 = 0;
    let mut ctx = ctx;
    let ghost sent0 = ctx.sender.sent_frames();
    let ghost events0 = ctx.event_proxy.events();
    let ghost attempted0 = ctx.sender.attempted_sends();
    let ghost observed0 = ctx.controller_listener.observed();
    while count < TICK_LIMIT
        invariant_except_break
            ctx.sender.attempted_sends() == attempted0 + count,
        invariant
            count <= TICK_LIMIT,
            seed@ == gseed,
            seed_wf(gseed),
            gseed.len() == size,
            ctx.sender.sent_frames() == sent0 + frames_upto(gseed, count as int),
            ctx.event_proxy.events() == events0 + Seq::new(
                count as nat,
                |k: int| CustomEvent::RequestRedraw,
            ),
            observed0.len() <= ctx.controller_listener.observed().len(),
        ensures
            count <= TICK_LIMIT,
            ctx.sender.sent_frames() == sent0 + frames_upto(gseed, count as int),
            ctx.event_proxy.events() == events0 + Seq::new(
                count as nat,
                |k: int| CustomEvent::RequestRedraw,
            ),
            count < TICK_LIMIT ==> {
                ||| ctx.controller_listener.observed().len() > observed0.len()
                    && poll_ends_run(ctx.controller_listener.observed().last())
                ||| ctx.sender.attempted_sends() == attempted0 + count + 1
            },
        decreases TICK_LIMIT - count,
    {
        let polled = ctx.controller_listener.poll();
        let stop_now = match polled {
            ControlPoll::Message(_) => true,
            ControlPoll::Disconnected => true,
            ControlPoll::Empty => false,
        };
        if stop_now {
            break ;
        }
        let frame = next_frame(&seed, count);
        let delivered = ctx.sender.send(frame);
        if !delivered {
            // The receiver is gone: nobody will ever drain this channel,
            // so the run ends here instead of filling it further.
            break ;
        }
        ctx.event_proxy.notify(CustomEvent::RequestRedraw);
        proof {
            assert(frames_upto(gseed, count + 1 as int) =~= frames_upto(
                gseed,
                count as int,
            ).push(frame_at(gseed, count as int)));
            assert((sent0 + frames_upto(gseed, count as int)).push(
                frame_at(gseed, count as int),
            ) =~= sent0 + frames_upto(gseed, count + 1 as int));
            assert(Seq::new((count + 1) as nat, |k: int| CustomEvent::RequestRedraw) =~= Seq::new(
                count as nat,
                |k: int| CustomEvent::RequestRedraw,
            ).push(CustomEvent::RequestRedraw));
            assert((events0 + Seq::new(count as nat, |k: int| CustomEvent::RequestRedraw)).push(
                CustomEvent::RequestRedraw,
            ) =~= events0 + Seq::new((count + 1) as nat, |k: int| CustomEvent::RequestRedraw));
        }
        count = count + 1;
        let waited = ctx.controller_listener.wait_ms(CADENCE_MS);
        let stop_during_wait = match waited {
            ControlPoll::Message(_) => true,
            ControlPoll::Disconnected => true,
            ControlPoll::Empty => false,
        };
        if stop_during_wait {
            break ;
        }
    }
    proof {
        assert(run_extends(ctx0, ctx, gseed, count));
    }
    ctx
}

/// The one action this library cannot perform itself: carrying a
/// generation run on an OS thread. The shell around the library
/// implements it — `spawn_worker` starts a thread whose body is one call
/// to [`worker_run`] on the given context, and `join_worker` blocks until
/// that run has ended, handing back the context the run returned, or
/// nothing if the thread was lost. The controller's guarantees rest only
/// on its own ownership of the context, never on what an implementation
/// of this trait does.
pub trait ThreadPort: Sized {
    /// Names one running worker thread.
    type Handle;

    /// Starts a thread that runs `worker_run(ctx, shared_ctx)`.
    fn spawn_worker(&mut self, ctx: WorkerContext, shared_ctx: SharedContext) -> Self::Handle;

    /// Blocks until the thread behind `handle` has ended, returning the
    /// context its run handed back.
    fn join_worker(&mut self, handle: Self::Handle) -> Option<WorkerContext>;
}

/// Controls the lifecycle of the one background worker thread.
pub struct AlgorithmProcessor<P: ThreadPort> {
    ctx: Option<WorkerContext>,
    worker: Option<P::Handle>,
    worker_controller: ControlSender,
    shared_ctx: SharedContext,
    started: Ghost<int>,
    joined: Ghost<int>,
}

impl<P: ThreadPort> AlgorithmProcessor<P> {
    /// No worker thread is alive for this controller.
    pub open spec fn is_idle(self) -> bool {
        !self.is_running()
    }

    /// A worker thread has been spawned and not yet joined.
    pub closed spec fn is_running(self) -> bool {
        self.worker is Some
    }

    /// The worker context, when no thread holds it.
    pub closed spec fn context_view(self) -> Option<WorkerContext> {
        self.ctx
    }

    /// Worker threads this controller has spawned over its lifetime.
    pub closed spec fn started_runs(self) -> int {
        self.started@
    }

    /// Worker threads this controller has joined over its lifetime.
    pub closed spec fn joined_runs(self) -> int {
        self.joined@
    }

    /// Worker threads alive now: spawned and not yet joined.
    pub open spec fn live_workers(self) -> int {
        self.started_runs() - self.joined_runs()
    }

    /// The notifications the controller has issued on its own handle of
    /// the shared configuration.
    pub closed spec fn shared_events(self) -> Seq<CustomEvent> {
        self.shared_ctx.events()
    }

    /// The control messages issued on the current run's cancellation
    /// channel. Every start replaces the channel, so the log speaks only
    /// of the run at hand.
    pub closed spec fn stop_requests(self) -> Seq<ThreadControlMessage> {
        self.worker_controller.requested()
    }

    /// The controller's structural invariant. At most one worker thread
    /// is ever alive — exactly one while running, none while idle — and
    /// while one is alive it holds the context, so a second start can
    /// only spawn after joining the first thread to get the context back.
    pub open spec fn wf(self) -> bool {
        &&& self.is_running() ==> self.context_view() is None
        &&& self.live_workers() == if self.is_running() {
            1int
        } else {
            0int
        }
    }

    /// A fresh controller with no active thread, paired with the receiver
    /// of its frame channel so a consumer can be wired up before the
    /// worker ever starts.
    pub fn new(shared_ctx: SharedContext) -> (r: (ProcessedDataHandle, AlgorithmProcessor<P>))
        ensures
            r.1.wf(),
            r.1.is_idle(),
            r.1.started_runs() == 0,
            r.1.joined_runs() == 0,
            r.1.context_view() is Some,
            r.0.taken_frames() == Seq::<Seq<i64>>::empty(),
    {
        let (sender, receiver) = frame_channel();
        let (worker_controller, controller_listener) = control_channel();
        let event_proxy = shared_ctx.event_proxy_duplicate();
        (
            receiver,
            AlgorithmProcessor {
                ctx: Some(WorkerContext { controller_listener, sender, event_proxy }),
                worker: None,
                worker_controller,
                shared_ctx,
                started: Ghost(0),
                joined: Ghost(0),
            },
        )
    }

    /// Starts a generation run. If a worker is still running, it is fully
    /// stopped and joined first, so two generation loops never feed the
    /// same channel. The new run gets a cancellation channel of its own,
    /// so a stop aimed at an earlier run — or sent while idle — can never
    /// cancel it. A controller that is idle and holds its context always
    /// comes out running; the flag in the shared configuration is set
    /// afterwards, under its lock, with a status notification.
    pub fn start(&mut self, port: &mut P, shared_ctx: SharedContext)
        requires
            old(self).wf(),
        ensures
            final(self).wf(),
            old(self).is_running() ==> final(self).joined_runs() == old(self).joined_runs() + 1,
            final(self).is_running() ==> final(self).started_runs() == old(self).started_runs()
                + 1,
            old(self).context_view() is Some && !old(self).is_running()
                ==> final(self).is_running(),
            final(self).is_running() ==> final(self).stop_requests() == Seq::<
                ThreadControlMessage,
            >::empty(),
            // The running flag is written under the lock, with one status
            // notification each time: once by the stop of the old worker,
            // once by the start itself.
            final(self).is_running() && old(self).is_running() ==> final(self).shared_events()
                == old(self).shared_events().push(CustomEvent::UpdateSharedData).push(
                CustomEvent::UpdateSharedData,
            ),
            final(self).is_running() && !old(self).is_running() ==> final(self).shared_events()
                == old(self).shared_events().push(CustomEvent::UpdateSharedData),
            !final(self).is_running() && old(self).is_running() ==> final(self).shared_events()
                == old(self).shared_events().push(CustomEvent::UpdateSharedData),
            !final(self).is_running() && !old(self).is_running() && old(self).context_view()
                is Some ==> final(self).shared_events() == old(self).shared_events(),
            !final(self).is_running() && !old(self).is_running() && old(self).context_view()
                is None ==> final(self).shared_events() == old(self).shared_events().push(
                CustomEvent::UpdateSharedData,
            ),
    {
        if self.ctx.is_none() {
            self.shutdown(port);
        }
        let taken = self.ctx.take();
        match taken {
            None => {
                // The previous thread was lost on join; without the
                // context — and with it the frame sender — no new run
                // can be started.
            },
            Some(ctx) => {
                let mut ctx = ctx;
                ctx.event_proxy.notify(CustomEvent::UpdateSharedData);
                // A fresh cancellation channel for this run: whatever an
                // earlier run left unconsumed dies with the old channel.
                let (worker_controller, controller_listener) = control_channel();
                self.worker_controller = worker_controller;
                ctx.controller_listener = controller_listener;
                proof {
                    self.started@ = self.started@ + 1;
                }
                self.worker = Some(port.spawn_worker(ctx, shared_ctx));
                self.shared_ctx.set_running(true);
            },
        }
    }

    /// Requests cancellation, joins the worker thread if one is alive,
    /// and clears the running flag under the shared lock, with a status
    /// notification. After it returns, no worker thread for this
    /// controller is alive. On an already-idle controller nothing is
    /// joined and no state changes beyond the flag write: the redundant
    /// stop message goes to a channel no worker will ever listen on — the
    /// next start opens a fresh one — so it has no residual effect.
    pub fn shutdown(&mut self, port: &mut P)
        ensures
            final(self).is_idle(),
            old(self).wf() ==> final(self).wf(),
            final(self).started_runs() == old(self).started_runs(),
            old(self).is_running() ==> final(self).joined_runs() == old(self).joined_runs() + 1,
            !old(self).is_running() ==> final(self).joined_runs() == old(self).joined_runs()
                && final(self).context_view() == old(self).context_view(),
            // Cancellation was requested on the run's channel, and the
            // cleared flag was announced with one status notification.
            final(self).stop_requests() == old(self).stop_requests().push(
                ThreadControlMessage::Stop,
            ),
            final(self).shared_events() == old(self).shared_events().push(
                CustomEvent::UpdateSharedData,
            ),
    {
        let _ = self.worker_controller.send(ThreadControlMessage::Stop);
        let taken = self.worker.take();
        match taken {
            None => {},
            Some(handle) => {
                proof {
                    self.joined@ = self.joined@ + 1;
                }
                match port.join_worker(handle) {
                    Option::Some(recovered) => {
                        self.ctx = Some(recovered);
                    },
                    Option::None => {
                        // The worker thread was lost; the context — and the
                        // frame sender with it — is gone, so the controller
                        // stays idle for good.
                    },
                }
            },
        }
        self.shared_ctx.set_running(false);
    }

    /// The start/stop control action from the interface: `showing_running`
    /// is the state the button showed when pressed. Pressed while running
    /// it stops; pressed while idle it reconfigures the lattice to an
    /// `edge` by `edge` grid and starts. When the new dimensions are
    /// refused — unusable, or a worker is somehow still flagged running —
    /// the start is refused too and no worker is spawned: never a partial
    /// state.
    pub fn on_start_stop(&mut self, port: &mut P, showing_running: bool, edge: usize)
        requires
            old(self).wf(),
        ensures
            final(self).wf(),
            showing_running ==> final(self).is_idle(),
            !showing_running && !(0 < edge && edge * edge <= crate::MAX_CELLS) ==> {
                &&& final(self).is_running() == old(self).is_running()
                &&& final(self).started_runs() == old(self).started_runs()
                &&& final(self).joined_runs() == old(self).joined_runs()
                &&& final(self).context_view() == old(self).context_view()
            },
    {
        if showing_running {
            self.shutdown(port);
        } else {
            let reconfigured = self.shared_ctx.set_dimensions((edge, edge));
            match reconfigured {
                Some(_) => {
                    let shared_for_run = self.shared_ctx.clone();
                    self.start(port, shared_for_run);
                },
                None => {
                    // The reconfiguration was refused; leave the worker
                    // alone and the running flag as it is.
                },
            }
        }
    }
}

/// One transition of the controller's lifecycle, as `start` and
/// `shutdown` drive it.
pub enum LifecycleOp {
    /// A call to `start`: on a running controller it first retires the
    /// old thread, then spawns a new one.
    Start,
    /// A call to `shutdown`: joins the thread if one is alive.
    Stop,
}

/// The abstract lifecycle machine: from a state — whether a worker is
/// running, how many were started, how many were joined — what one
/// transition leaves behind.
pub open spec fn lifecycle_step(s: (bool, int, int), op: LifecycleOp) -> (bool, int, int) {
    match op {
        LifecycleOp::Start => if s.0 {
            (true, s.1 + 1, s.2 + 1)
        } else {
            (true, s.1 + 1, s.2)
        },
        LifecycleOp::Stop => if s.0 {
            (false, s.1, s.2 + 1)
        } else {
            (false, s.1, s.2)
        },
    }
}

/// The lifecycle state after a whole sequence of transitions, starting
/// idle with nothing started or joined.
pub open spec fn lifecycle_run(ops: Seq<LifecycleOp>) -> (bool, int, int)
    decreases ops.len(),
{
    if ops.len() == 0 {
        (false, 0, 0)
    } else {
        lifecycle_step(lifecycle_run(ops.drop_last()), ops.last())
    }
}

/// For every sequence of start/stop transitions: at most one worker is
/// alive — exactly one while running, none while idle — and after any
/// sequence that ends in a stop, no worker is alive at all.
pub proof fn lemma_lifecycle_invariant(ops: Seq<LifecycleOp>)
    ensures
        ({
            let s = lifecycle_run(ops);
            &&& s.1 - s.2 == if s.0 {
                1int
            } else {
                0int
            }
            &&& ops.len() > 0 && ops.last() == LifecycleOp::Stop ==> !s.0 && s.1 == s.2
        }),
    decreases ops.len(),
{
    if ops.len() > 0 {
        lemma_lifecycle_invariant(ops.drop_last());
    }
}

/// A well-formed controller never has two worker threads alive — and so
/// never two threads sending on one frame channel: the context, which
/// owns the channel's only sender, is either held by the controller
/// (idle) or lent to the single live thread (running), never both.
pub proof fn lemma_at_most_one_worker<P: ThreadPort>(processor: AlgorithmProcessor<P>)
    requires
        processor.wf(),
    ensures
        0 <= processor.live_workers() <= 1,
        processor.live_workers() == 1 <==> processor.is_running(),
        processor.is_running() ==> processor.context_view() is None,
{
}

} // verus!
