use vstd::prelude::*;

use crate::frame::Frame;

verus! {

/// Declares std::sync::mpsc::Sender, the producer half of the standard
/// multi-producer single-consumer queue, so that it can stand in signatures
/// and fields; the value itself is opaque here.
#[verifier::external_type_specification]
#[verifier::external_body]
#[verifier::reject_recursive_types(T)]
pub struct ExSender<T>(std::sync::mpsc::Sender<T>);

/// Relies on std::sync::mpsc::Sender::send: it moves the value into the
/// channel's queue for the receiver, and fails only when the receiving half
/// has been dropped. The producer side never blocks, and a failed send only
/// means no consumer is left to observe the frame, so the result is dropped
/// here as the capture pipeline has no use for it.
#[verifier::external_body]
fn channel_send(tx: &std::sync::mpsc::Sender<Frame>, frame: Frame) {
    let _ = tx.send(frame);
}

/// The producer half of the frame channel, together with the history of
/// every frame that has been pushed through it. The view of a sink is that
/// history, in production order: the channel delivers frames to the
/// consumer first-in first-out, so the view is also what the consumer can
/// observe.
pub struct FrameSink {
    tx: std::sync::mpsc::Sender<Frame>,
    history: Ghost<Seq<Frame>>,
}

impl View for FrameSink {
    type V = Seq<Frame>;

    closed spec fn view(&self) -> Seq<Frame> {
        self.history@
    }
}

impl FrameSink {
    /// Wraps a fresh producer handle; nothing has been delivered yet.
    pub fn new(tx: std::sync::mpsc::Sender<Frame>) -> (sink: FrameSink)
        ensures
            sink@ == Seq::<Frame>::empty(),
    {
        FrameSink { tx, history: Ghost(Seq::empty()) }
    }

    /// Pushes one frame into the channel, extending the delivery history by
    /// exactly that frame.
    pub fn send(&mut self, frame: Frame)
        ensures
            final(self)@ == old(self)@.push(frame),
    {
        let ghost h = self.history@.push(frame);
        channel_send(&self.tx, frame);
        self.history = Ghost(h);
    }
}

} // verus!
