//! The errors of registration and the status codes handed to the engine.

use vstd::prelude::*;

verus! {

/// A status code as the engine reads and returns it.
pub type OSStatus = i32;

/// The status that reports success.
pub const NO_ERROR: OSStatus = 0;

/// The status that reports an error without saying which.
pub const UNSPECIFIED_ERROR: OSStatus = -1500;

/// Why a render callback could not be registered.
#[derive(Copy, Clone, Debug, PartialEq, Eq, Structural)]
pub enum Error {
    /// An error of which nothing more is known.
    Unspecified,
    /// The callback's buffer type cannot view the engine's stream format.
    RenderCallbackBufferFormatDoesNotMatchAudioUnitStreamFormat,
    /// The engine refused a request with this status.
    Unknown(OSStatus),
}

impl Error {
    /// The error that a status of the engine stands for, if it stands for
    /// one.
    pub open spec fn of_os_status(os_status: OSStatus) -> Result<(), Error> {
        if os_status == NO_ERROR {
            Ok(())
        } else if os_status == UNSPECIFIED_ERROR {
            Err(Error::Unspecified)
        } else {
            Err(Error::Unknown(os_status))
        }
    }

    /// Reads a status of the engine: success, or the error it stands for.
    pub fn from_os_status(os_status: OSStatus) -> (result: Result<(), Error>)
        ensures
            result == Error::of_os_status(os_status),
    {
        if os_status == NO_ERROR {
            Ok(())
        } else if os_status == UNSPECIFIED_ERROR {
            Err(Error::Unspecified)
        } else {
            Err(Error::Unknown(os_status))
        }
    }
}

/// The status that the engine is given for the outcome of a callback:
/// success for `Ok`, the unspecified error for `Err`.
pub open spec fn status_of(outcome: Result<(), ()>) -> OSStatus {
    match outcome {
        Ok(_) => NO_ERROR,
        Err(_) => UNSPECIFIED_ERROR,
    }
}

/// Translates the outcome of a callback into the status for the engine.
pub fn os_status(outcome: Result<(), ()>) -> (status: OSStatus)
    ensures
        status == status_of(outcome),
{
    match outcome {
        Ok(_) => NO_ERROR,
        Err(_) => UNSPECIFIED_ERROR,
    }
}

} // verus!
