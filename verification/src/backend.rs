use vstd::prelude::*;

use crate::channel::FrameSink;
use crate::frame::Frame;
use crate::options::Options;

verus! {

/// The capability set the engine requires from a platform backend,
/// independent of the operating system underneath: construct against a
/// configuration and a producer handle, begin and end capture, and answer
/// (or decline to answer) the output-size query.
///
/// A backend owns the producer half of the frame channel from construction
/// on; `delivered` is the history of frames it has pushed through it. The
/// engine never touches frame data itself.
pub trait Backend: Sized {
    /// Well-formedness of a backend value.
    spec fn inv(&self) -> bool;

    /// Whether the backend is currently producing frames.
    spec fn started(&self) -> bool;

    /// The frames this backend has pushed into its channel, in production
    /// order.
    spec fn delivered(&self) -> Seq<Frame>;

    /// Which configurations this backend can be constructed against.
    spec fn accepts(options: Options) -> bool;

    /// Whether this backend is capable of answering the output-size query
    /// at all. Capability is a property of the platform, not of a call.
    spec fn can_query_size() -> bool;

    /// The answer of the output-size query for a given configuration:
    /// the effective output resolution, or the `(0, 0)` sentinel for a
    /// backend that cannot answer.
    spec fn output_size(options: Options) -> (u32, u32);

    /// Constructs the backend, taking ownership of the producer half of the
    /// frame channel. Succeeds exactly on the configurations this backend
    /// accepts; on success nothing has been captured yet and the delivery
    /// history is whatever the handed-in sink already carried.
    fn create(options: &Options, sink: FrameSink) -> (r: Result<Self, String>)
        ensures
            r is Ok <==> Self::accepts(*options),
            r matches Ok(b) ==> b.inv() && !b.started() && b.delivered() == sink@,
    ;

    /// Requests that the backend begin producing frames. Returns without
    /// waiting for the first frame, so the delivery history is unchanged
    /// here; on a native failure the backend is not producing and the
    /// diagnostic is returned for the caller to absorb.
    fn start_capture(&mut self) -> (r: Result<(), String>)
        requires
            old(self).inv(),
            !old(self).started(),
        ensures
            final(self).inv(),
            final(self).delivered() == old(self).delivered(),
            r is Ok ==> final(self).started(),
            r is Err ==> !final(self).started(),
    ;

    /// Requests that the backend terminate capture. Whatever the native
    /// layer reports, once this returns the backend is quiesced: it is no
    /// longer producing and has delivered nothing further.
    fn stop_capture(&mut self) -> (r: Result<(), String>)
        requires
            old(self).inv(),
        ensures
            final(self).inv(),
            !final(self).started(),
            final(self).delivered() == old(self).delivered(),
    ;

    /// Answers the output-size query for an accepted configuration. A
    /// backend that is capable answers with the effective resolution, which
    /// is never the sentinel; one that is incapable answers `(0, 0)`.
    fn query_output_size(&self, options: &Options) -> (r: (u32, u32))
        requires
            self.inv(),
            Self::accepts(*options),
        ensures
            r == Self::output_size(*options),
            (r == (0u32, 0u32)) <==> !Self::can_query_size(),
    ;
}

} // verus!
