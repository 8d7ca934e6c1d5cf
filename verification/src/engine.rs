use vstd::prelude::*;

use crate::backend::Backend;
use crate::channel::FrameSink;
use crate::error::ErrorKind;
use crate::frame::Frame;
use crate::options::Options;

verus! {

/// The lifecycle of one engine instance. The lifecycle only ever moves
/// forward: `Stopped` is terminal and a new capture requires a new engine.
#[derive(Clone, Copy, Debug, PartialEq, Eq, Structural)]
pub enum EngineState {
    /// Constructed; capture has not been requested yet.
    Constructed,
    /// Capture has been requested; frames may be arriving on the channel.
    Started,
    /// Capture has been terminated; no further frame will be delivered.
    Stopped,
}

/// Where a start request leaves the lifecycle: it begins capture exactly
/// once, out of the freshly constructed state, and is ignored afterwards —
/// restart of a stopped session is unsupported.
pub open spec fn state_after_start(s: EngineState) -> EngineState {
    if s == EngineState::Constructed {
        EngineState::Started
    } else {
        s
    }
}

/// Where a stop request leaves the lifecycle: always in `Stopped`, from any
/// state.
pub open spec fn state_after_stop(s: EngineState) -> EngineState {
    EngineState::Stopped
}

/// Stopping before any start is already a complete, safe transition to the
/// terminal state.
pub proof fn lemma_stop_without_start()
    ensures
        state_after_stop(EngineState::Constructed) == EngineState::Stopped,
{
}

/// Stopping is idempotent: a second stop request finds the lifecycle where
/// the first one left it.
pub proof fn lemma_stop_idempotent(s: EngineState)
    ensures
        state_after_stop(state_after_stop(s)) == state_after_stop(s),
{
}

/// The public facade over exactly one platform backend. The engine owns its
/// backend and a private copy of the configuration for its whole lifetime,
/// translates the uniform calls into backend calls, and normalizes the
/// backend's divergent behaviours into one lifecycle and one error model:
/// only construction fails with a typed error, while start and stop
/// failures are absorbed into a diagnostic.
pub struct Engine<B: Backend> {
    options: Options,
    backend: B,
    state: EngineState,
    diagnostic: Option<ErrorKind>,
}

impl<B: Backend> Engine<B> {
    /// Well-formedness of an engine: its backend is well-formed and was
    /// constructed against the held configuration, the backend produces
    /// only while the engine is started, and no diagnostic predates the
    /// first start request.
    pub closed spec fn inv(&self) -> bool {
        &&& self.backend.inv()
        &&& B::accepts(self.options)
        &&& self.backend.started() ==> self.state == EngineState::Started
        &&& self.state == EngineState::Constructed ==> self.diagnostic is None
    }

    /// Where this engine stands in its lifecycle.
    pub closed spec fn state(&self) -> EngineState {
        self.state
    }

    /// The configuration this engine was constructed against; it never
    /// changes for the engine's lifetime.
    pub closed spec fn config(&self) -> Options {
        self.options
    }

    /// The frames this engine's backend has delivered into the channel, in
    /// production order.
    pub closed spec fn delivered(&self) -> Seq<Frame> {
        self.backend.delivered()
    }

    /// Whether the backend is actually producing frames. Implies the
    /// engine is started; the converse may fail when the backend's native
    /// start failed and was absorbed.
    pub closed spec fn capturing(&self) -> bool {
        self.backend.started()
    }

    /// The absorbed start or stop failure, if any.
    pub closed spec fn diagnostic(&self) -> Option<ErrorKind> {
        self.diagnostic
    }

    /// Constructs the one compiled-in backend against `options`, handing it
    /// the producer half of the frame channel. Succeeds exactly on the
    /// configurations the backend accepts, and fails with
    /// `BackendInitError` otherwise, leaving no partially constructed
    /// engine behind and no activity on the channel.
    pub fn new(options: &Options, tx: std::sync::mpsc::Sender<Frame>) -> (r: Result<
        Engine<B>,
        ErrorKind,
    >)
        ensures
            r is Ok <==> B::accepts(*options),
            r matches Ok(e) ==> {
                &&& e.inv()
                &&& e.state() == EngineState::Constructed
                &&& e.config() == *options
                &&& e.delivered() == Seq::<Frame>::empty()
                &&& e.diagnostic() is None
            },
            r matches Err(k) ==> k is BackendInitError,
    {
        let sink = FrameSink::new(tx);
        match B::create(options, sink) {
            Ok(backend) => Ok(
                Engine {
                    options: options.clone(),
                    backend,
                    state: EngineState::Constructed,
                    diagnostic: None,
                },
            ),
            Err(m) => Err(ErrorKind::BackendInitError(m)),
        }
    }

    /// Requests that the backend begin producing frames. Effective exactly
    /// once, out of the freshly constructed state; afterwards the engine is
    /// left untouched. The call returns without waiting for a frame, so
    /// nothing new stands in the delivery history. A native start failure
    /// is absorbed: the engine still counts as started — only no frames
    /// will arrive — and the failure is kept as a diagnostic.
    pub fn start(&mut self)
        requires
            old(self).inv(),
        ensures
            final(self).inv(),
            final(self).state() == state_after_start(old(self).state()),
            final(self).config() == old(self).config(),
            final(self).delivered() == old(self).delivered(),
            old(self).state() != EngineState::Constructed ==> *final(self) == *old(self),
            old(self).state() == EngineState::Constructed
                ==> (final(self).capturing() <==> final(self).diagnostic() is None),
            old(self).state() == EngineState::Constructed
                ==> (final(self).diagnostic() matches Some(k) ==> k is CaptureStartError),
    {
        match self.state {
            EngineState::Constructed => {
                let r = self.backend.start_capture();
                self.state = EngineState::Started;
                if let Err(m) = r {
                    self.diagnostic = Some(ErrorKind::CaptureStartError(m));
                }
            },
            _ => {},
        }
    }

    /// Requests that the backend terminate capture, deterministically. Safe
    /// from every state: before any start it is a silent no-op transition,
    /// and on an already stopped engine it changes nothing at all. Once
    /// this returns the backend is quiesced — no further frame enters the
    /// channel — whatever the native layer reported; a native stop failure
    /// is absorbed into a diagnostic and the engine still counts as
    /// stopped.
    pub fn stop(&mut self)
        requires
            old(self).inv(),
        ensures
            final(self).inv(),
            final(self).state() == state_after_stop(old(self).state()),
            final(self).config() == old(self).config(),
            final(self).delivered() == old(self).delivered(),
            !final(self).capturing(),
            old(self).state() == EngineState::Stopped ==> *final(self) == *old(self),
            old(self).state() != EngineState::Started
                ==> final(self).diagnostic() == old(self).diagnostic(),
            final(self).diagnostic() == old(self).diagnostic()
                || (final(self).diagnostic() matches Some(k) && k is CaptureStopError),
    {
        match self.state {
            EngineState::Constructed => {
                self.state = EngineState::Stopped;
            },
            EngineState::Started => {
                let r = self.backend.stop_capture();
                self.state = EngineState::Stopped;
                if let Err(m) = r {
                    self.diagnostic = Some(ErrorKind::CaptureStopError(m));
                }
            },
            EngineState::Stopped => {},
        }
    }

    /// The effective output resolution for the held configuration,
    /// independent of whether capture has started. A backend that is
    /// structurally incapable of answering yields the `(0, 0)` sentinel —
    /// and only such a backend does; every other answer is the real,
    /// non-degenerate resolution.
    pub fn get_output_frame_size(&mut self) -> (r: (u32, u32))
        requires
            old(self).inv(),
        ensures
            *final(self) == *old(self),
            r == B::output_size(old(self).config()),
            (r == (0u32, 0u32)) <==> !B::can_query_size(),
    {
        self.backend.query_output_size(&self.options)
    }

    /// Where this engine stands in its lifecycle.
    pub fn current_state(&self) -> (s: EngineState)
        ensures
            s == self.state(),
    {
        self.state
    }

    /// The absorbed start or stop failure, if any.
    pub fn last_diagnostic(&self) -> (r: &Option<ErrorKind>)
        ensures
            *r == self.diagnostic(),
    {
        &self.diagnostic
    }
}

} // verus!
