//! Errors the engine reports.
use vstd::prelude::*;

verus! {

/// What went wrong.
#[derive(Debug, Clone, Copy, PartialEq, Eq, Structural)]
pub enum HciErrorKind {
    /// The controller refused a command with a nonzero status.
    CommandFailed { op_code: u16, status: u8 },
    /// The transport failed to take or hand over bytes.
    Transport,
    /// A packet type byte that names no packet arrived; framing cannot be recovered.
    Desynchronized { packet_type: u8 },
    /// Another waiter already holds the registration that was asked for.
    Busy,
    /// The correlation entry of a command in flight is gone.
    ResponseLost,
    /// A firmware chunk runs past the end of the blob.
    MalformedFirmware { offset: usize },
}

/// An error of the host controller interface.
#[derive(Debug, Clone, Copy, PartialEq, Eq, Structural)]
pub struct HciError {
    pub kind: HciErrorKind,
}

impl HciError {
    pub fn new(kind: HciErrorKind) -> (r: Self)
        ensures
            r.kind == kind,
    {
        HciError { kind }
    }
}

} // verus!
