use frame_capture::capture::{CaptureLoop, LoopAction, ReadResult, BACKOFF_DELAY_MS, PACE_DELAY_MS};
use frame_capture::frame::Frame;
use frame_capture::mailbox::FrameManager;
use frame_capture::selector::{Backend, OpenedDevice};

fn device() -> OpenedDevice {
    OpenedDevice { backend: Backend::V4l2Index, width: 4, height: 2 }
}

fn frame_of(width: u32, height: u32, fill: u8) -> Frame {
    Frame::new(width, height, 1, vec![fill; (width * height) as usize]).unwrap()
}

#[test]
fn capture_publishes_and_paces() {
    let mailbox = FrameManager::new();
    let mut lp = CaptureLoop::new(&device());
    assert!(lp.begin_iteration(false));
    let action = lp.step(&mailbox, ReadResult::Captured(frame_of(4, 2, 3)), false);
    assert_eq!(action, LoopAction::Sleep(PACE_DELAY_MS));
    assert_eq!(PACE_DELAY_MS, 5);
    assert_eq!(lp.published(), 1);
    assert_eq!(lp.failures(), 0);
    assert_eq!(lp.resolution_mismatches(), 0);
    assert_eq!(mailbox.get().unwrap().data(), &[3u8; 8][..]);
}

#[test]
fn capture_backoff_not_crash() {
    let mailbox = FrameManager::new();
    let mut lp = CaptureLoop::new(&device());
    for _ in 0..1000 {
        assert!(lp.begin_iteration(false));
        assert_eq!(lp.step(&mailbox, ReadResult::Failed, false), LoopAction::Sleep(BACKOFF_DELAY_MS));
    }
    assert_eq!(BACKOFF_DELAY_MS, 50);
    assert_eq!(lp.failures(), 1000);
    assert_eq!(lp.published(), 0);
    assert!(!lp.is_stopped());
    assert!(mailbox.get().is_none());
}

#[test]
fn capture_recovers_after_failures() {
    let mailbox = FrameManager::new();
    let mut lp = CaptureLoop::new(&device());
    lp.step(&mailbox, ReadResult::Failed, false);
    lp.step(&mailbox, ReadResult::Failed, false);
    let action = lp.step(&mailbox, ReadResult::Captured(frame_of(4, 2, 1)), false);
    assert_eq!(action, LoopAction::Sleep(PACE_DELAY_MS));
    assert_eq!(lp.failures(), 2);
    assert_eq!(lp.published(), 1);
    assert!(mailbox.get().is_some());
}

#[test]
fn capture_counts_resolution_mismatch() {
    let mailbox = FrameManager::new();
    let mut lp = CaptureLoop::new(&device());
    lp.step(&mailbox, ReadResult::Captured(frame_of(2, 2, 0)), false);
    lp.step(&mailbox, ReadResult::Captured(frame_of(4, 2, 0)), false);
    assert_eq!(lp.published(), 2);
    assert_eq!(lp.resolution_mismatches(), 1);
    assert_eq!(mailbox.get().unwrap().width(), 4);
}

#[test]
fn capture_cancel_at_head_stops_for_good() {
    let mailbox = FrameManager::new();
    let mut lp = CaptureLoop::new(&device());
    assert!(!lp.begin_iteration(true));
    assert!(lp.is_stopped());
    assert!(!lp.begin_iteration(false));
    assert_eq!(lp.step(&mailbox, ReadResult::Captured(frame_of(4, 2, 1)), false), LoopAction::Stop);
    assert_eq!(lp.published(), 0);
    assert!(mailbox.get().is_none());
}

#[test]
fn capture_cancel_before_sleep() {
    let mailbox = FrameManager::new();
    let mut lp = CaptureLoop::new(&device());
    assert_eq!(lp.step(&mailbox, ReadResult::Captured(frame_of(4, 2, 6)), true), LoopAction::Stop);
    assert_eq!(lp.published(), 1);
    assert!(lp.is_stopped());
    assert_eq!(mailbox.get().unwrap().data()[0], 6);
    let mut other = CaptureLoop::new(&device());
    assert_eq!(other.step(&mailbox, ReadResult::Failed, true), LoopAction::Stop);
    assert_eq!(other.failures(), 1);
    assert!(!other.begin_iteration(false));
}
