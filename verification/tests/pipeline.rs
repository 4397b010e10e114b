//! End-to-end scenarios: a real worker thread generating frames at
//! cadence, a consumer draining them, and the stop protocol.

use simula::algorithm_processor::{worker_run, ThreadControlMessage, WorkerContext};
use simula::application::SharedContext;
use simula::channel::{control_channel, event_channel, frame_channel};
use simula::consumer::{drain_and_apply, FrameLog};

/// Builds a worker context plus the consumer-side handles for the given
/// lattice dimensions.
fn rig(
    dimensions: (usize, usize),
) -> (
    WorkerContext,
    simula::channel::ProcessedDataHandle,
    simula::channel::ControlSender,
    simula::channel::EventReceiver,
    SharedContext,
) {
    let (event_tx, event_rx) = event_channel();
    let shared = SharedContext::new(event_tx, dimensions);
    let (frame_tx, frame_rx) = frame_channel();
    let (ctl_tx, ctl_rx) = control_channel();
    let ctx = WorkerContext {
        controller_listener: ctl_rx,
        sender: frame_tx,
        event_proxy: shared.event_proxy_duplicate(),
    };
    (ctx, frame_rx, ctl_tx, event_rx, shared)
}

/// Frames within one run are the seed scaled by the tick index: frame 0
/// is all zeros and frame k is k times frame 1, cell for cell.
fn assert_one_generation_sequence(frames: &[Vec<i64>]) {
    if frames.is_empty() {
        return;
    }
    for v in &frames[0] {
        assert_eq!(*v, 0, "frame 0 must be the zero frame");
    }
    if frames.len() < 2 {
        return;
    }
    let seed = &frames[1];
    for (k, frame) in frames.iter().enumerate() {
        assert_eq!(frame.len(), seed.len());
        for (i, v) in frame.iter().enumerate() {
            assert_eq!(*v, seed[i] * (k as i64), "frame {} breaks the rotation law", k);
        }
    }
}

#[test]
fn scenario_lattice_run() {
    let (ctx, mut frame_rx, mut ctl_tx, _event_rx, shared) = rig((4, 4));
    let shared_for_worker = shared.clone();
    crossbeam::scope(|s| {
        let worker = s.spawn(move |_| worker_run(ctx, shared_for_worker));
        let mut frames: Vec<Vec<i64>> = Vec::new();
        while frames.len() < 3 {
            match frame_rx.recv_timeout_ms(2000) {
                Some(frame) => frames.push(frame),
                None => panic!("no frame arrived within its cadence"),
            }
        }
        assert!(ctl_tx.send(ThreadControlMessage::Stop));
        worker.join().unwrap();
        while let Some(frame) = frame_rx.try_recv() {
            frames.push(frame);
        }
        assert!(frames.len() >= 3);
        for (k, frame) in frames.iter().enumerate() {
            assert_eq!(frame.len(), 16, "a 4 x 4 lattice has 16 cells");
            for v in frame {
                assert!(v.abs() <= 1000 * (k as i64), "cell out of the seeded range");
            }
        }
        assert_one_generation_sequence(&frames);
    })
    .unwrap();
}

#[test]
fn scenario_immediate_stop() {
    let (ctx, mut frame_rx, mut ctl_tx, _event_rx, shared) = rig((4, 4));
    let shared_for_worker = shared.clone();
    crossbeam::scope(|s| {
        assert!(ctl_tx.send(ThreadControlMessage::Stop));
        let worker = s.spawn(move |_| worker_run(ctx, shared_for_worker));
        worker.join().unwrap();
        let mut count = 0usize;
        while let Some(frame) = frame_rx.try_recv() {
            assert_eq!(frame.len(), 16);
            count += 1;
        }
        // Race-tolerant: zero or more frames, but a clean exit.
        assert!(count <= 1);
    })
    .unwrap();
}

#[test]
fn scenario_stop_latency() {
    let (ctx, mut frame_rx, mut ctl_tx, _event_rx, shared) = rig((2, 3));
    let shared_for_worker = shared.clone();
    crossbeam::scope(|s| {
        let worker = s.spawn(move |_| worker_run(ctx, shared_for_worker));
        assert!(frame_rx.recv_timeout_ms(2000).is_some(), "worker produced no frame");
        let asked = std::time::Instant::now();
        assert!(ctl_tx.send(ThreadControlMessage::Stop));
        worker.join().unwrap();
        assert!(
            asked.elapsed() < std::time::Duration::from_millis(500),
            "worker took more than one generous cadence to stop"
        );
    })
    .unwrap();
}

#[test]
fn scenario_drain_after_stop() {
    let (ctx, mut frame_rx, mut ctl_tx, _event_rx, shared) = rig((4, 4));
    let shared_for_worker = shared.clone();
    crossbeam::scope(|s| {
        let worker = s.spawn(move |_| worker_run(ctx, shared_for_worker));
        assert!(frame_rx.recv_timeout_ms(2000).is_some(), "worker produced no frame");
        assert!(ctl_tx.send(ThreadControlMessage::Stop));
        worker.join().unwrap();

        let mut log = FrameLog::new();
        drain_and_apply(&mut frame_rx, &mut log);
        let after_first = log.frames.len();
        let second = drain_and_apply(&mut frame_rx, &mut log);
        assert!(!second, "a drained channel reports no work");
        assert_eq!(log.frames.len(), after_first);
    })
    .unwrap();
}

#[test]
fn scenario_restart() {
    let (ctx, mut frame_rx, mut ctl_tx, _event_rx, shared) = rig((3, 3));
    let shared_for_worker = shared.clone();
    let shared_for_second = shared.clone();
    crossbeam::scope(|s| {
        // First run.
        let worker = s.spawn(move |_| worker_run(ctx, shared_for_worker));
        let mut first: Vec<Vec<i64>> = Vec::new();
        while first.len() < 2 {
            match frame_rx.recv_timeout_ms(2000) {
                Some(frame) => first.push(frame),
                None => panic!("no frame arrived within its cadence"),
            }
        }
        // Restart: retire the old thread completely before the new one.
        assert!(ctl_tx.send(ThreadControlMessage::Stop));
        let recovered = worker.join().unwrap();
        while let Some(frame) = frame_rx.try_recv() {
            first.push(frame);
        }
        assert_one_generation_sequence(&first);

        // Second run reuses the recovered context: same channel, fresh seed.
        let worker = s.spawn(move |_| worker_run(recovered, shared_for_second));
        let mut second: Vec<Vec<i64>> = Vec::new();
        while second.len() < 2 {
            match frame_rx.recv_timeout_ms(2000) {
                Some(frame) => second.push(frame),
                None => panic!("no frame arrived within its cadence"),
            }
        }
        assert!(ctl_tx.send(ThreadControlMessage::Stop));
        worker.join().unwrap();
        while let Some(frame) = frame_rx.try_recv() {
            second.push(frame);
        }
        // All frames observed after the restart point form exactly one
        // generation sequence: tick counters never interleave.
        assert_one_generation_sequence(&second);
    })
    .unwrap();
}

#[test]
fn one_notification_per_frame() {
    let (ctx, mut frame_rx, mut ctl_tx, mut event_rx, shared) = rig((2, 2));
    let shared_for_worker = shared.clone();
    crossbeam::scope(|s| {
        let worker = s.spawn(move |_| worker_run(ctx, shared_for_worker));
        assert!(frame_rx.recv_timeout_ms(2000).is_some(), "worker produced no frame");
        assert!(ctl_tx.send(ThreadControlMessage::Stop));
        worker.join().unwrap();

        let mut frames = 1usize;
        while frame_rx.try_recv().is_some() {
            frames += 1;
        }
        let mut redraws = 0usize;
        while let Some(event) = event_rx.try_recv() {
            assert!(matches!(event, simula::application::CustomEvent::RequestRedraw));
            redraws += 1;
        }
        assert_eq!(redraws, frames, "exactly one notification per frame");
    })
    .unwrap();
}

#[test]
fn worker_exits_when_the_receiver_is_dropped() {
    let (ctx, frame_rx, _ctl_tx, _event_rx, shared) = rig((2, 2));
    let shared_for_worker = shared.clone();
    crossbeam::scope(|s| {
        drop(frame_rx);
        // With the consumer gone, the first failed send ends the run —
        // no stop message is ever sent, and the join still completes.
        let worker = s.spawn(move |_| worker_run(ctx, shared_for_worker));
        worker.join().unwrap();
    })
    .unwrap();
}
