use crate::framebuffer::{dark_frame, frame_ok, LedMatrixDisplay};
use vstd::prelude::*;

verus! {

/// Names one of the two frame buffers of an exchange.
#[derive(Clone, Copy, Debug, PartialEq, Eq, Structural)]
pub enum BufferId {
    A,
    B,
}

/// The buffer that is not `id`.
pub open spec fn other(id: BufferId) -> BufferId {
    match id {
        BufferId::A => BufferId::B,
        BufferId::B => BufferId::A,
    }
}

/// Two frame buffers and the reference to the one the scan side reads.
///
/// Until the first frame is published no buffer is active, and the scan side
/// has nothing to read. The render side only ever draws into the buffer that
/// is not active; publishing it is one assignment of the active reference.
pub struct BufferExchange {
    a: LedMatrixDisplay,
    b: LedMatrixDisplay,
    active: Option<BufferId>,
}

impl BufferExchange {
    /// The packed frame held by buffer `id`.
    pub closed spec fn frame(&self, id: BufferId) -> Seq<u8> {
        match id {
            BufferId::A => self.a@,
            BufferId::B => self.b@,
        }
    }

    /// The buffer the scan side reads, once one has been published.
    pub closed spec fn active_spec(&self) -> Option<BufferId> {
        self.active
    }

    /// The buffer the render side draws into: the one that is not active
    /// (buffer A before anything has been published).
    pub open spec fn inactive_spec(&self) -> BufferId {
        match self.active_spec() {
            Some(id) => other(id),
            None => BufferId::A,
        }
    }

    pub open spec fn wf(&self) -> bool {
        frame_ok(self.frame(BufferId::A)) && frame_ok(self.frame(BufferId::B))
    }

    /// Two dark buffers, none of them published yet.
    pub fn new() -> (e: BufferExchange)
        ensures
            e.wf(),
            e.active_spec() is None,
            e.frame(BufferId::A) == dark_frame(),
            e.frame(BufferId::B) == dark_frame(),
    {
        BufferExchange { a: LedMatrixDisplay::new(), b: LedMatrixDisplay::new(), active: None }
    }

    pub fn active_id(&self) -> (id: Option<BufferId>)
        ensures
            id == self.active_spec(),
    {
        self.active
    }

    pub fn inactive_id(&self) -> (id: BufferId)
        ensures
            id == self.inactive_spec(),
    {
        match self.active {
            Some(BufferId::A) => BufferId::B,
            _ => BufferId::A,
        }
    }

    /// The active buffer for the scan side to read, or `None` before the
    /// first publish.
    pub fn active(&self) -> (d: Option<&LedMatrixDisplay>)
        requires
            self.wf(),
        ensures
            self.active_spec() is None ==> d is None,
            self.active_spec() matches Some(id) ==> d matches Some(f) && f@ == self.frame(id)
                && f.wf(),
    {
        match self.active {
            Some(BufferId::A) => Some(&self.a),
            Some(BufferId::B) => Some(&self.b),
            None => None,
        }
    }

    /// Lends the inactive buffer to the render side. Whatever is drawn into
    /// it lands in that buffer; the active buffer and the active reference
    /// stay as they are.
    pub fn acquire_inactive(&mut self) -> ((id, target): (BufferId, &mut LedMatrixDisplay))
        requires
            old(self).wf(),
        ensures
            id == old(self).inactive_spec(),
            Some(id) != old(self).active_spec(),
            target@ == old(self).frame(id),
            target.wf(),
            final(self).active_spec() == old(self).active_spec(),
            final(self).frame(id) == final(target)@,
            final(self).frame(other(id)) == old(self).frame(other(id)),
    {
        match self.active {
            Some(BufferId::A) => (BufferId::B, &mut self.b),
            _ => (BufferId::A, &mut self.a),
        }
    }

    /// Makes buffer `id` the active one and returns the buffer that was
    /// active before, if any, for reuse. Only the active reference changes,
    /// in one assignment: a reader sees the earlier frame or the new one,
    /// each whole.
    pub fn publish(&mut self, id: BufferId) -> (previous: Option<BufferId>)
        requires
            old(self).wf(),
            old(self).active_spec() != Some(id),
        ensures
            final(self).wf(),
            previous == old(self).active_spec(),
            final(self).active_spec() == Some(id),
            final(self).frame(BufferId::A) == old(self).frame(BufferId::A),
            final(self).frame(BufferId::B) == old(self).frame(BufferId::B),
    {
        let previous = self.active;
        self.active = Some(id);
        previous
    }
}

/// The buffer lent to the render side is never the active one.
pub proof fn lemma_inactive_never_active(e: BufferExchange)
    ensures
        e.active_spec() != Some(e.inactive_spec()),
{
}

/// Buffers alternate: once the inactive buffer is published, the buffer that
/// was active becomes the inactive one.
pub proof fn lemma_publish_alternates(before: BufferExchange, after: BufferExchange)
    requires
        before.active_spec() is Some,
        after.active_spec() == Some(before.inactive_spec()),
    ensures
        after.inactive_spec() == before.active_spec().unwrap(),
{
}

/// Publishing changes only which buffer is active. Of the state before a
/// publish and the state after it, each exposes a whole, well-formed frame as
/// active (if any): the earlier active frame before, exactly the frame drawn
/// into the published buffer after. No buffer's contents change in between.
/// This relates two states in sequence; how a reader on another core samples
/// the active reference is outside the library.
pub proof fn lemma_publish_atomic(before: BufferExchange, after: BufferExchange, id: BufferId)
    requires
        before.wf(),
        before.active_spec() != Some(id),
        after.active_spec() == Some(id),
        after.frame(BufferId::A) == before.frame(BufferId::A),
        after.frame(BufferId::B) == before.frame(BufferId::B),
    ensures
        before.active_spec() matches Some(p) ==> frame_ok(before.frame(p)) && after.frame(p)
            == before.frame(p),
        frame_ok(after.frame(id)),
        after.frame(id) == before.frame(id),
{
}

} // verus!
