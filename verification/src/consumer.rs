//! The consumer side of the pipeline: draining every frame that has
//! arrived on the frame channel, without blocking, and applying each to
//! the visualization target in arrival order.

use vstd::prelude::*;
use vstd::seq_lib::*;

use crate::algorithm::Data;
use crate::channel::ProcessedDataHandle;

verus! {

/// The visualization target: whatever consumes the drained frames. The
/// rendering layer supplies the real one (an upload to the GPU);
/// `applied` is the sequence of frames it has been given, oldest first.
pub trait FrameSink {
    /// The frames this sink has been given, oldest first.
    spec fn applied(&self) -> Seq<Seq<i64>>;

    /// Takes ownership of one frame.
    fn apply(&mut self, frame: Data)
        ensures
            final(self).applied() == old(self).applied().push(frame@),
    ;
}

/// A sink that simply keeps every frame it is given, in order.
pub struct FrameLog {
    /// The frames applied so far, oldest first.
    pub frames: Vec<Data>,
}

impl FrameLog {
    /// An empty log.
    pub fn new() -> (r: FrameLog)
        ensures
            r.applied() == Seq::<Seq<i64>>::empty(),
    {
        FrameLog { frames: Vec::new() }
    }
}

impl FrameSink for FrameLog {
    open spec fn applied(&self) -> Seq<Seq<i64>> {
        self.frames.deep_view()
    }

    fn apply(&mut self, frame: Data) {
        let ghost frame_view = frame.deep_view();
        proof {
            assert(frame_view =~= frame@);
        }
        self.frames.push(frame);
        proof {
            assert(self.frames.deep_view() =~= old(self).frames.deep_view().push(frame@));
        }
    }
}

/// Drains every frame that is currently available from the channel,
/// without blocking, applying each to the target in arrival order — and
/// the channel delivers in send order — with no omissions and no
/// duplicates. Returns whether at least one frame was applied, so the
/// caller knows whether an upload to the screen is warranted this tick.
pub fn drain_and_apply<S: FrameSink>(handle: &mut ProcessedDataHandle, target: &mut S) -> (did_work:
    bool)
    ensures
        old(handle).taken_frames().is_prefix_of(final(handle).taken_frames()),
        final(target).applied() == old(target).applied() + final(handle).taken_frames().skip(
            old(handle).taken_frames().len() as int,
        ),
        did_work <==> final(handle).taken_frames().len() > old(handle).taken_frames().len(),
{
    let ghost taken0 = handle.taken_frames();
    let ghost applied0 = target.applied();
    let mut did_work = false;
    let available = handle.queued_len();
    let mut i: usize = 0;
    while i < available
        invariant
            taken0.is_prefix_of(handle.taken_frames()),
            target.applied() == applied0 + handle.taken_frames().skip(taken0.len() as int),
            did_work <==> handle.taken_frames().len() > taken0.len(),
        ensures
            taken0.is_prefix_of(handle.taken_frames()),
            target.applied() == applied0 + handle.taken_frames().skip(taken0.len() as int),
            did_work <==> handle.taken_frames().len() > taken0.len(),
        decreases available - i,
    {
        let ghost taken_before = handle.taken_frames();
        let received = handle.try_recv();
        match received {
            Some(frame) => {
                let ghost frame_view = frame@;
                target.apply(frame);
                did_work = true;
                proof {
                    assert(taken_before.push(frame_view).skip(taken0.len() as int)
                        =~= taken_before.skip(taken0.len() as int).push(frame_view));
                    assert((applied0 + taken_before.skip(taken0.len() as int)).push(frame_view)
                        =~= applied0 + taken_before.push(frame_view).skip(taken0.len() as int));
                    assert(taken0.is_prefix_of(taken_before.push(frame_view))) by {
                        assert(taken_before.push(frame_view).subrange(0, taken0.len() as int)
                            =~= taken_before.subrange(0, taken0.len() as int));
                    }
                }
            },
            None => {
                break ;
            },
        }
        i = i + 1;
    }
    did_work
}

/// FIFO delivery, end to end: a worker run produced the frames of ticks
/// `0, 1, ..., n - 1` in that order; the channel handed the receiver
/// exactly what was sent, in send order; and a drain applied what the
/// receiver took. Then the target saw exactly those frames, in
/// generation order — none omitted, none duplicated, none reordered.
pub proof fn lemma_fifo_delivery(
    before: crate::algorithm_processor::WorkerContext,
    after: crate::algorithm_processor::WorkerContext,
    seed: Seq<i64>,
    n: u64,
    taken0: Seq<Seq<i64>>,
    taken1: Seq<Seq<i64>>,
    applied0: Seq<Seq<i64>>,
    applied1: Seq<Seq<i64>>,
)
    requires
        crate::algorithm_processor::run_extends(before, after, seed, n),
        taken0 == before.sender.sent_frames(),
        taken1 == after.sender.sent_frames(),
        applied1 == applied0 + taken1.skip(taken0.len() as int),
    ensures
        applied1 == applied0 + crate::algorithm::frames_upto(seed, n as int),
        applied1.len() == applied0.len() + n,
        forall|k: int|
            0 <= k < n ==> applied1[applied0.len() + k] == crate::algorithm::frame_at(seed, k),
{
    let run = crate::algorithm::frames_upto(seed, n as int);
    assert((taken0 + run).skip(taken0.len() as int) =~= run);
    assert(applied1 =~= applied0 + run);
}

} // verus!
