//! Draining the frame channel: FIFO order, completeness, and the
//! did-work report.

use simula::channel::frame_channel;
use simula::consumer::{drain_and_apply, FrameLog};

#[test]
fn drain_applies_in_send_order() {
    let (mut sender, mut receiver) = frame_channel();
    let first = vec![1i64, 2, 3];
    let second = vec![4i64, 5, 6];
    let third = vec![7i64, 8, 9];
    assert!(sender.send(first.clone()));
    assert!(sender.send(second.clone()));
    assert!(sender.send(third.clone()));

    let mut log = FrameLog::new();
    let did_work = drain_and_apply(&mut receiver, &mut log);
    assert!(did_work);
    assert_eq!(log.frames, vec![first, second, third]);
}

#[test]
fn drain_applies_every_queued_frame() {
    let (mut sender, mut receiver) = frame_channel();
    for k in 0..5i64 {
        assert!(sender.send(vec![k, 10 * k]));
    }
    let mut log = FrameLog::new();
    assert!(drain_and_apply(&mut receiver, &mut log));
    assert_eq!(log.frames.len(), 5, "all queued frames are applied, not just the latest");
    for (k, frame) in log.frames.iter().enumerate() {
        assert_eq!(frame, &vec![k as i64, 10 * k as i64]);
    }
}

#[test]
fn drain_on_empty_channel_reports_no_work() {
    let (_sender, mut receiver) = frame_channel();
    let mut log = FrameLog::new();
    assert!(!drain_and_apply(&mut receiver, &mut log));
    assert_eq!(log.frames.len(), 0);
}

#[test]
fn second_drain_after_emptying_reports_no_work() {
    let (mut sender, mut receiver) = frame_channel();
    assert!(sender.send(vec![42i64]));
    let mut log = FrameLog::new();
    assert!(drain_and_apply(&mut receiver, &mut log));
    assert!(!drain_and_apply(&mut receiver, &mut log));
    assert_eq!(log.frames, vec![vec![42i64]]);
}
