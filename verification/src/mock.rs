use vstd::prelude::*;
use vstd::string::*;

use crate::backend::Backend;
use crate::channel::FrameSink;
use crate::frame::Frame;
use crate::options::Options;

verus! {

/// Which configurations the deterministic backend accepts: a named target
/// source and a non-degenerate geometry.
pub open spec fn valid_options(options: Options) -> bool {
    options.target@.len() > 0 && options.width > 0 && options.height > 0
}

/// A deterministic backend for exercising the engine without any native
/// capture subsystem. It accepts exactly the configurations with a named
/// target and non-zero geometry, answers the size query with the configured
/// geometry, and produces a frame only on an explicit request while
/// started.
pub struct MockBackend {
    options: Options,
    sink: FrameSink,
    running: bool,
}

impl MockBackend {
    /// The configuration this backend was constructed against.
    pub closed spec fn config(&self) -> Options {
        self.options
    }

    /// Whether the backend is currently producing frames.
    pub fn is_started(&self) -> (r: bool)
        ensures
            r == self.started(),
    {
        self.running
    }

    /// Produces one frame carrying the given sequence number, timestamp and
    /// payload — but only while started: a backend that has not started, or
    /// has stopped, delivers nothing and is left untouched.
    pub fn produce_frame(&mut self, seq: u64, timestamp_ms: u64, data: Vec<u8>)
        requires
            old(self).inv(),
        ensures
            final(self).inv(),
            final(self).started() == old(self).started(),
            final(self).config() == old(self).config(),
            final(self).delivered() == delivery_after(
                *old(self),
                mock_frame(*old(self), seq, timestamp_ms, data),
            ),
            !old(self).started() ==> *final(self) == *old(self),
    {
        if self.running {
            let frame = Frame {
                seq,
                timestamp_ms,
                width: self.options.width,
                height: self.options.height,
                data,
            };
            self.sink.send(frame);
        }
    }
}

/// The frame the deterministic backend produces for a request carrying the
/// given sequence number, timestamp and payload.
pub open spec fn mock_frame(b: MockBackend, seq: u64, timestamp_ms: u64, data: Vec<u8>) -> Frame {
    Frame {
        seq,
        timestamp_ms,
        width: b.config().width,
        height: b.config().height,
        data,
    }
}

/// The delivery history after one production request: extended by the
/// requested frame while the backend is started, unchanged otherwise.
pub open spec fn delivery_after(b: MockBackend, frame: Frame) -> Seq<Frame> {
    if b.started() {
        b.delivered().push(frame)
    } else {
        b.delivered()
    }
}

/// No frame is ever delivered once capture is not running: a production
/// request against a backend that is not started leaves the delivery
/// history exactly as it was.
pub proof fn lemma_silent_when_stopped(b: MockBackend, frame: Frame)
    requires
        !b.started(),
    ensures
        delivery_after(b, frame) == b.delivered(),
{
}

/// While capture is running every production request delivers exactly one
/// more frame, the requested one, and the frames already delivered keep
/// their order in front of it.
pub proof fn lemma_delivers_while_started(b: MockBackend, frame: Frame)
    requires
        b.started(),
    ensures
        delivery_after(b, frame).len() == b.delivered().len() + 1,
        delivery_after(b, frame).last() == frame,
        delivery_after(b, frame).take(b.delivered().len() as int) == b.delivered(),
{
    assert(delivery_after(b, frame).take(b.delivered().len() as int) =~= b.delivered());
}

impl Backend for MockBackend {
    closed spec fn inv(&self) -> bool {
        valid_options(self.options)
    }

    closed spec fn started(&self) -> bool {
        self.running
    }

    closed spec fn delivered(&self) -> Seq<Frame> {
        self.sink@
    }

    open spec fn accepts(options: Options) -> bool {
        valid_options(options)
    }

    open spec fn can_query_size() -> bool {
        true
    }

    open spec fn output_size(options: Options) -> (u32, u32) {
        (options.width, options.height)
    }

    fn create(options: &Options, sink: FrameSink) -> (r: Result<Self, String>) {
        if options.target.as_str().is_empty() {
            Err(String::from_str("no capture target was named"))
        } else if options.width == 0 || options.height == 0 {
            Err(String::from_str("the requested geometry is empty"))
        } else {
            Ok(MockBackend { options: options.clone(), sink, running: false })
        }
    }

    fn start_capture(&mut self) -> (r: Result<(), String>) {
        self.running = true;
        Ok(())
    }

    fn stop_capture(&mut self) -> (r: Result<(), String>) {
        self.running = false;
        Ok(())
    }

    fn query_output_size(&self, options: &Options) -> (r: (u32, u32)) {
        (options.width, options.height)
    }
}

/// A backend whose platform offers no output-size introspection: the size
/// query structurally cannot be answered and returns the `(0, 0)` sentinel.
/// Construction cannot fail and capture produces no observable frames.
pub struct SizelessBackend {
    sink: FrameSink,
    running: bool,
}

impl Backend for SizelessBackend {
    closed spec fn inv(&self) -> bool {
        true
    }

    closed spec fn started(&self) -> bool {
        self.running
    }

    closed spec fn delivered(&self) -> Seq<Frame> {
        self.sink@
    }

    open spec fn accepts(options: Options) -> bool {
        true
    }

    open spec fn can_query_size() -> bool {
        false
    }

    open spec fn output_size(options: Options) -> (u32, u32) {
        (0u32, 0u32)
    }

    fn create(options: &Options, sink: FrameSink) -> (r: Result<Self, String>) {
        Ok(SizelessBackend { sink, running: false })
    }

    fn start_capture(&mut self) -> (r: Result<(), String>) {
        self.running = true;
        Ok(())
    }

    fn stop_capture(&mut self) -> (r: Result<(), String>) {
        self.running = false;
        Ok(())
    }

    fn query_output_size(&self, options: &Options) -> (r: (u32, u32)) {
        (0u32, 0u32)
    }
}

} // verus!
