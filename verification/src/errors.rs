//! The error kinds of the capture engine and the rules that map the result
//! codes of the graphics stack onto them.

use vstd::prelude::*;

verus! {

/// `E_INVALIDARG` (0x80070057): the device and output do not belong together.
pub const E_INVALIDARG: i32 = -2147024809;

/// `E_ACCESSDENIED` (0x80070005): duplication is refused, as on the secure desktop.
pub const E_ACCESSDENIED: i32 = -2147024891;

/// `DXGI_ERROR_INVALID_CALL` (0x887A0001): the previous frame was never released.
pub const DXGI_ERROR_INVALID_CALL: i32 = -2005270527;

/// `DXGI_ERROR_MORE_DATA` (0x887A0003): the buffer handed in was too small.
pub const DXGI_ERROR_MORE_DATA: i32 = -2005270525;

/// `DXGI_ERROR_UNSUPPORTED` (0x887A0004): none of the accepted pixel formats is available.
pub const DXGI_ERROR_UNSUPPORTED: i32 = -2005270524;

/// `DXGI_ERROR_ACCESS_LOST` (0x887A0026): the output was invalidated.
pub const DXGI_ERROR_ACCESS_LOST: i32 = -2005270490;

/// `DXGI_ERROR_WAIT_TIMEOUT` (0x887A0027): no frame arrived within the wait.
pub const DXGI_ERROR_WAIT_TIMEOUT: i32 = -2005270489;

/// `DXGI_ERROR_SESSION_DISCONNECTED` (0x887A0028): the user session is disconnected.
pub const DXGI_ERROR_SESSION_DISCONNECTED: i32 = -2005270488;

/// `DXGI_ERROR_ACCESS_DENIED` (0x887A002B): access to the output is refused for now.
pub const DXGI_ERROR_ACCESS_DENIED: i32 = -2005270485;

/// Everything that can go wrong while duplicating a desktop.
#[derive(Debug)]
pub enum DDApiError {
    Disconnected,
    Unsupported,
    AccessDenied,
    AccessLost,
    TimeOut,
    CursorNotAvailable,
    BadParam(String),
    Unexpected(String),
}

pub type Result<T> = core::result::Result<T, DDApiError>;

impl DDApiError {
    /// Recoverable errors are answered by rebuilding the session; the caller
    /// simply asks again.
    pub open spec fn is_recoverable(self) -> bool {
        self is AccessLost || self is AccessDenied
    }

    /// Whether the caller may retry the same engine after this error.
    pub fn recoverable(&self) -> (r: bool)
        ensures
            r == self.is_recoverable(),
    {
        match self {
            DDApiError::AccessLost => true,
            DDApiError::AccessDenied => true,
            _ => false,
        }
    }

    /// Fatal errors end the life of the engine that reported them.
    pub open spec fn is_fatal(self) -> bool {
        self is Unexpected
    }

    /// Whether the engine must be discarded after this error.
    pub fn fatal(&self) -> (r: bool)
        ensures
            r == self.is_fatal(),
    {
        match self {
            DDApiError::Unexpected(_) => true,
            _ => false,
        }
    }
}

/// The error that a refused session creation stands for, by result code.
pub open spec fn session_error_of(code: i32, detail: String) -> DDApiError {
    if code == E_INVALIDARG {
        DDApiError::BadParam(detail)
    } else if code == E_ACCESSDENIED {
        DDApiError::AccessDenied
    } else if code == DXGI_ERROR_UNSUPPORTED {
        DDApiError::Unsupported
    } else if code == DXGI_ERROR_SESSION_DISCONNECTED {
        DDApiError::Disconnected
    } else {
        DDApiError::Unexpected(detail)
    }
}

/// Classifies the result code of a refused session creation. `detail` is the
/// text that accompanies the code; it is kept where the error kind carries one.
pub fn session_error(code: i32, detail: String) -> (e: DDApiError)
    ensures
        e == session_error_of(code, detail),
{
    if code == E_INVALIDARG {
        DDApiError::BadParam(detail)
    } else if code == E_ACCESSDENIED {
        DDApiError::AccessDenied
    } else if code == DXGI_ERROR_UNSUPPORTED {
        DDApiError::Unsupported
    } else if code == DXGI_ERROR_SESSION_DISCONNECTED {
        DDApiError::Disconnected
    } else {
        DDApiError::Unexpected(detail)
    }
}

/// What a failed frame acquisition means for the session.
#[derive(Clone, Copy, Debug, PartialEq, Eq, Structural)]
pub enum AcquireFailure {
    /// The output was invalidated; the session has to be rebuilt.
    AccessLost,
    /// Access is refused for now; the session has to be rebuilt.
    AccessDenied,
    /// The previous frame was not released; handled like a lost output.
    InvalidCall,
    /// Nothing arrived before the wait expired. Not an error.
    WaitTimeout,
    /// Anything else: fatal for this session.
    Other,
}

impl AcquireFailure {
    /// The meaning of an acquisition result code.
    pub open spec fn of(code: i32) -> AcquireFailure {
        if code == DXGI_ERROR_ACCESS_LOST {
            AcquireFailure::AccessLost
        } else if code == DXGI_ERROR_ACCESS_DENIED {
            AcquireFailure::AccessDenied
        } else if code == DXGI_ERROR_INVALID_CALL {
            AcquireFailure::InvalidCall
        } else if code == DXGI_ERROR_WAIT_TIMEOUT {
            AcquireFailure::WaitTimeout
        } else {
            AcquireFailure::Other
        }
    }

    /// Classifies the result code of a failed frame acquisition.
    pub fn classify(code: i32) -> (f: AcquireFailure)
        ensures
            f == AcquireFailure::of(code),
    {
        if code == DXGI_ERROR_ACCESS_LOST {
            AcquireFailure::AccessLost
        } else if code == DXGI_ERROR_ACCESS_DENIED {
            AcquireFailure::AccessDenied
        } else if code == DXGI_ERROR_INVALID_CALL {
            AcquireFailure::InvalidCall
        } else if code == DXGI_ERROR_WAIT_TIMEOUT {
            AcquireFailure::WaitTimeout
        } else {
            AcquireFailure::Other
        }
    }

    /// Whether the failure is answered by rebuilding the session.
    pub open spec fn rebuilds_session(self) -> bool {
        self is AccessLost || self is AccessDenied || self is InvalidCall
    }
}

} // verus!
