//! The ordered collection of frames waiting to be sent.

use vstd::prelude::*;
use crate::frame_data::{FrameData, Payload};

verus! {

/// Pending outbound frames, oldest first.
///
/// The queue itself is a plain value. A program that fills it from one thread
/// and drains it from another holds it behind one lock and calls `append` and
/// `drain_all` with the lock held; each call is then one step of a history.
#[derive(Debug)]
pub struct FrameQueue {
    frames: Vec<FrameData>,
}

/// The payloads of a sequence of frames, in the same order.
pub open spec fn payloads(frames: Seq<FrameData>) -> Seq<Payload> {
    frames.map_values(|frame: FrameData| frame@)
}

impl View for FrameQueue {
    type V = Seq<Payload>;

    closed spec fn view(&self) -> Seq<Payload> {
        payloads(self.frames@)
    }
}

impl FrameQueue {
    /// An empty queue.
    pub fn new() -> (queue: FrameQueue)
        ensures
            queue@ == Seq::<Payload>::empty(),
    {
        let queue = FrameQueue { frames: Vec::new() };
        assert(queue@ =~= Seq::<Payload>::empty());
        queue
    }

    /// The number of frames waiting.
    pub fn len(&self) -> (count: usize)
        ensures
            count == self@.len(),
    {
        self.frames.len()
    }

    /// Whether no frame is waiting.
    pub fn is_empty(&self) -> (empty: bool)
        ensures
            empty == (self@.len() == 0),
    {
        self.frames.len() == 0
    }

    /// Puts `frame` behind every frame already waiting.
    pub fn append(&mut self, frame: FrameData)
        ensures
            final(self)@ == old(self)@.push(frame@),
    {
        self.frames.push(frame);
        assert(self@ =~= old(self)@.push(frame@));
    }

    /// Takes out every frame that is waiting, oldest first, and leaves the
    /// queue empty.
    pub fn drain_all(&mut self) -> (drained: Vec<FrameData>)
        ensures
            payloads(drained@) == old(self)@,
            final(self)@ == Seq::<Payload>::empty(),
    {
        let mut drained: Vec<FrameData> = Vec::new();
        core::mem::swap(&mut self.frames, &mut drained);
        assert(self@ =~= Seq::<Payload>::empty());
        drained
    }
}

/// One step in the life of a queue: a producer appends a frame, or the
/// consumer drains the queue.
pub enum QueueOp {
    /// `append` with a frame of this payload.
    Append(Payload),
    /// `drain_all`.
    DrainAll,
}

/// What is waiting in a queue that started empty and went through `ops`.
pub open spec fn pending_after(ops: Seq<QueueOp>) -> Seq<Payload>
    decreases ops.len(),
{
    if ops.len() == 0 {
        Seq::empty()
    } else {
        match ops.last() {
            QueueOp::Append(payload) => pending_after(ops.drop_last()).push(payload),
            QueueOp::DrainAll => Seq::empty(),
        }
    }
}

/// Everything that the drains among `ops` handed out, drain after drain.
pub open spec fn drained_after(ops: Seq<QueueOp>) -> Seq<Payload>
    decreases ops.len(),
{
    if ops.len() == 0 {
        Seq::empty()
    } else {
        match ops.last() {
            QueueOp::Append(_) => drained_after(ops.drop_last()),
            QueueOp::DrainAll => drained_after(ops.drop_last()) + pending_after(ops.drop_last()),
        }
    }
}

/// The payloads that the appends among `ops` put in, in the order of the
/// appends.
pub open spec fn appended(ops: Seq<QueueOp>) -> Seq<Payload>
    decreases ops.len(),
{
    if ops.len() == 0 {
        Seq::empty()
    } else {
        match ops.last() {
            QueueOp::Append(payload) => appended(ops.drop_last()).push(payload),
            QueueOp::DrainAll => appended(ops.drop_last()),
        }
    }
}

/// However appends and drains interleave, no frame is lost and none is
/// duplicated: what the drains returned, followed by what is still waiting,
/// is exactly what was appended, in the order in which it was appended.
pub proof fn lemma_drains_keep_every_frame_in_order(ops: Seq<QueueOp>)
    ensures
        drained_after(ops) + pending_after(ops) == appended(ops),
    decreases ops.len(),
{
    if ops.len() == 0 {
        assert(drained_after(ops) + pending_after(ops) =~= appended(ops));
    } else {
        let before = ops.drop_last();
        lemma_drains_keep_every_frame_in_order(before);
        match ops.last() {
            QueueOp::Append(payload) => {
                assert(drained_after(before) + pending_after(before).push(payload) =~= (
                drained_after(before) + pending_after(before)).push(payload));
            },
            QueueOp::DrainAll => {
                assert(drained_after(ops) + Seq::<Payload>::empty() =~= drained_after(ops));
            },
        }
    }
}

} // verus!
