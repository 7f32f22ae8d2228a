use crate::frame::Frame;
use crate::mailbox::FrameManager;
use crate::selector::OpenedDevice;
use vstd::prelude::*;

verus! {

/// Pause after a published frame, so that capture does not monopolise the CPU.
pub const PACE_DELAY_MS: u64 = 5;

/// Pause after a failed read, before the next attempt.
pub const BACKOFF_DELAY_MS: u64 = 50;

/// What one read of the device gave.
pub enum ReadResult {
    Captured(Frame),
    Failed,
}

/// What the capture thread does next.
#[derive(PartialEq, Eq, Structural, Clone, Copy, Debug)]
pub enum LoopAction {
    /// Sleep this many milliseconds, then read again.
    Sleep(u64),
    /// Leave the loop.
    Stop,
}

pub ghost struct LoopView {
    pub published: u64,
    pub failures: u64,
    pub mismatches: u64,
    pub stopped: bool,
    pub width: u32,
    pub height: u32,
}

/// One more, held at the largest value once it is reached.
pub open spec fn bump(n: u64) -> u64 {
    if n < u64::MAX {
        (n + 1) as u64
    } else {
        n
    }
}

/// The resolution of a read frame, or `None` for a failed read.
pub open spec fn read_dims(read: ReadResult) -> Option<(nat, nat)> {
    match read {
        ReadResult::Captured(f) => Some((f@.width, f@.height)),
        ReadResult::Failed => None,
    }
}

/// Whether the loop goes on at an iteration's head.
pub open spec fn loop_continues(s: LoopView, cancel_requested: bool) -> bool {
    !s.stopped && !cancel_requested
}

/// The state after handling one read: a frame counts as published (and as a
/// mismatch when its resolution differs from the one asked of the device), a
/// failure counts as a failure, and a cancellation stops the loop.
pub open spec fn next_state(s: LoopView, dims: Option<(nat, nat)>, cancel_requested: bool) -> LoopView {
    if s.stopped {
        s
    } else {
        match dims {
            Some((w, h)) => LoopView {
                published: bump(s.published),
                mismatches: if w == s.width as nat && h == s.height as nat {
                    s.mismatches
                } else {
                    bump(s.mismatches)
                },
                stopped: cancel_requested,
                ..s
            },
            None => LoopView { failures: bump(s.failures), stopped: cancel_requested, ..s },
        }
    }
}

/// The action after handling one read: a short pause after a frame, a longer
/// backoff after a failure, and a stop once cancelled. No number of failures
/// ends the loop.
pub open spec fn action_of(s: LoopView, dims: Option<(nat, nat)>, cancel_requested: bool) -> LoopAction {
    if s.stopped || cancel_requested {
        LoopAction::Stop
    } else {
        match dims {
            Some(_) => LoopAction::Sleep(PACE_DELAY_MS),
            None => LoopAction::Sleep(BACKOFF_DELAY_MS),
        }
    }
}

/// The state after `n` failed reads without cancellation.
pub open spec fn after_failures(s: LoopView, n: nat) -> LoopView
    decreases n,
{
    if n == 0 {
        s
    } else {
        next_state(after_failures(s, (n - 1) as nat), None, false)
    }
}

/// The decisions of the capture loop; the caller reads the device, sleeps
/// and checks for cancellation, and this publishes frames and keeps count.
pub struct CaptureLoop {
    published: u64,
    failures: u64,
    mismatches: u64,
    stopped: bool,
    width: u32,
    height: u32,
}

impl View for CaptureLoop {
    type V = LoopView;

    closed spec fn view(&self) -> LoopView {
        LoopView {
            published: self.published,
            failures: self.failures,
            mismatches: self.mismatches,
            stopped: self.stopped,
            width: self.width,
            height: self.height,
        }
    }
}

fn saturating_bump(n: u64) -> (r: u64)
    ensures
        r == bump(n),
{
    if n < u64::MAX {
        n + 1
    } else {
        n
    }
}

impl CaptureLoop {
    /// A running loop for a device the selector opened; there is none for a
    /// selection that failed.
    pub fn new(device: &OpenedDevice) -> (r: CaptureLoop)
        ensures
            r@ == (LoopView {
                published: 0,
                failures: 0,
                mismatches: 0,
                stopped: false,
                width: device.width,
                height: device.height,
            }),
    {
        CaptureLoop {
            published: 0,
            failures: 0,
            mismatches: 0,
            stopped: false,
            width: device.width,
            height: device.height,
        }
    }

    /// Checked at the head of each iteration: whether to read again. A
    /// cancellation stops the loop for good.
    pub fn begin_iteration(&mut self, cancel_requested: bool) -> (r: bool)
        ensures
            r == loop_continues(old(self)@, cancel_requested),
            final(self)@ == (LoopView { stopped: !r, ..old(self)@ }),
    {
        if self.stopped || cancel_requested {
            self.stopped = true;
            false
        } else {
            true
        }
    }

    /// Handles one read: publishes a captured frame to `mailbox`, counts a
    /// failure, and says how long to pause; `cancel_requested` is checked
    /// before any pause.
    pub fn step(&mut self, mailbox: &FrameManager, read: ReadResult, cancel_requested: bool) -> (r:
        LoopAction)
        ensures
            final(self)@ == next_state(old(self)@, read_dims(read), cancel_requested),
            r == action_of(old(self)@, read_dims(read), cancel_requested),
    {
        if self.stopped {
            return LoopAction::Stop;
        }
        match read {
            ReadResult::Captured(frame) => {
                let matching = frame.has_resolution(self.width, self.height);
                mailbox.update(frame);
                self.published = saturating_bump(self.published);
                if !matching {
                    self.mismatches = saturating_bump(self.mismatches);
                }
                if cancel_requested {
                    self.stopped = true;
                    LoopAction::Stop
                } else {
                    LoopAction::Sleep(PACE_DELAY_MS)
                }
            },
            ReadResult::Failed => {
                self.failures = saturating_bump(self.failures);
                if cancel_requested {
                    self.stopped = true;
                    LoopAction::Stop
                } else {
                    LoopAction::Sleep(BACKOFF_DELAY_MS)
                }
            },
        }
    }

    /// Frames published so far.
    pub fn published(&self) -> (r: u64)
        ensures
            r == self@.published,
    {
        self.published
    }

    /// Failed reads so far.
    pub fn failures(&self) -> (r: u64)
        ensures
            r == self@.failures,
    {
        self.failures
    }

    /// Published frames whose resolution differed from the one asked of the device.
    pub fn resolution_mismatches(&self) -> (r: u64)
        ensures
            r == self@.mismatches,
    {
        self.mismatches
    }

    pub fn is_stopped(&self) -> (r: bool)
        ensures
            r == self@.stopped,
    {
        self.stopped
    }
}

/// A device whose reads always fail never ends a running loop: after any
/// number of failures it is still running, goes on to read again, and answers
/// the next failure with the backoff pause; the failure count only grows.
pub proof fn lemma_backoff_not_crash(s: LoopView, n: nat)
    requires
        !s.stopped,
    ensures
        !after_failures(s, n).stopped,
        loop_continues(after_failures(s, n), false),
        action_of(after_failures(s, n), None, false) == LoopAction::Sleep(BACKOFF_DELAY_MS),
        after_failures(s, n).failures == if s.failures + n <= u64::MAX {
            s.failures + n
        } else {
            u64::MAX as int
        },
        after_failures(s, n).published == s.published,
    decreases n,
{
    if n > 0 {
        lemma_backoff_not_crash(s, (n - 1) as nat);
    }
}

} // verus!
