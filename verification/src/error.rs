use vstd::prelude::*;

verus! {

/// The uniform error model of the engine.
///
/// Construction failures are typed and fatal to the engine instance being
/// built. Start and stop failures are never propagated as return values:
/// they are absorbed at the engine boundary and kept as a diagnostic, with
/// the native detail preserved in the message.
#[derive(Debug)]
pub enum ErrorKind {
    /// The native capture subsystem could not be initialized at
    /// construction time (permission denial, missing or invalid target
    /// source, unsupported platform feature).
    BackendInitError(String),
    /// The backend could not begin producing frames. Diagnostic only: the
    /// engine still reaches the started state and `stop` remains safe.
    CaptureStartError(String),
    /// The native stop call failed. Diagnostic only: the engine is still
    /// considered stopped.
    CaptureStopError(String),
}

impl ErrorKind {
    /// The preserved native diagnostic message.
    pub fn message(&self) -> &String {
        match self {
            ErrorKind::BackendInitError(m) => m,
            ErrorKind::CaptureStartError(m) => m,
            ErrorKind::CaptureStopError(m) => m,
        }
    }
}

} // verus!
