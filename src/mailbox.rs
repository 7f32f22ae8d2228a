use crate::frame::{frame_len_ok, Frame, FrameView};
use vstd::prelude::*;
use vstd::rwlock::{RwLock, RwLockPredicate};

verus! {

/// The content of an optional frame.
pub open spec fn frame_opt_view(o: Option<Frame>) -> Option<FrameView> {
    match o {
        Some(f) => Some(f@),
        None => None,
    }
}

/// What the slot holds after a frame is published: that frame, whatever was there.
pub open spec fn after_update(held: Option<FrameView>, f: FrameView) -> Option<FrameView> {
    Some(f)
}

/// What a read hands out: the held frame, or nothing before the first write.
pub open spec fn read_result(held: Option<FrameView>) -> Option<FrameView> {
    held
}

/// A single slot holding the most recent frame, if any: latest value wins.
pub struct Mailbox {
    slot: Option<Frame>,
}

impl View for Mailbox {
    type V = Option<FrameView>;

    closed spec fn view(&self) -> Option<FrameView> {
        frame_opt_view(self.slot)
    }
}

impl Mailbox {
    /// An empty slot.
    pub fn new() -> (r: Mailbox)
        ensures
            r@ == None::<FrameView>,
    {
        Mailbox { slot: None }
    }

    /// Replaces the held frame unconditionally.
    pub fn update(&mut self, frame: Frame)
        ensures
            final(self)@ == after_update(old(self)@, frame@),
    {
        self.slot = Some(frame);
    }

    /// An independent copy of the held frame, or `None` before the first write.
    pub fn get(&self) -> (r: Option<Frame>)
        ensures
            frame_opt_view(r) == read_result(self@),
            r matches Some(f) ==> frame_len_ok(f@),
    {
        match &self.slot {
            Some(f) => Some(f.deep_copy()),
            None => None,
        }
    }
}

/// A read right after a write returns the frame written.
pub proof fn lemma_fresh_value(held: Option<FrameView>, f: FrameView)
    ensures
        read_result(after_update(held, f)) == Some(f),
{
}

/// A slot that was never written reads as empty.
pub proof fn lemma_empty_before_first_write()
    ensures
        read_result(None) == None::<FrameView>,
{
}

/// The lock admits any mailbox: every frame already keeps its own
/// byte-count invariant.
pub struct AnyMailbox;

impl RwLockPredicate<Mailbox> for AnyMailbox {
    open spec fn inv(self, v: Mailbox) -> bool {
        true
    }
}

/// A mailbox shared between one producer and any number of readers: each
/// access holds the lock only for one move or one copy of a frame.
pub struct FrameManager {
    raw_frame: RwLock<Mailbox, AnyMailbox>,
}

impl FrameManager {
    pub fn new() -> (r: FrameManager) {
        FrameManager { raw_frame: RwLock::new(Mailbox::new(), Ghost(AnyMailbox)) }
    }

    /// Publishes `frame`, replacing whatever was held.
    pub fn update(&self, frame: Frame) {
        let (mut slot, handle) = self.raw_frame.acquire_write();
        slot.update(frame);
        handle.release_write(slot);
    }

    /// A copy of the most recently published frame, or `None` if none was
    /// published yet; the copy is well formed and owned by the caller.
    pub fn get(&self) -> (r: Option<Frame>)
        ensures
            r matches Some(f) ==> frame_len_ok(f@),
    {
        let handle = self.raw_frame.acquire_read();
        let r = handle.borrow().get();
        handle.release_read();
        r
    }
}

} // verus!
