//! What the outcome of a time-bounded D-Bus call means to the caller.

use vstd::prelude::*;
use vstd::string::StringExecFns;

use crate::error::WasError;

verus! {

/// Why a time-bounded call produced no result.
#[derive(Debug, Clone, Copy, PartialEq, Eq)]
pub enum TimeoutError {
    /// The call did not finish in time.
    Elapsed,
    /// The thread making the call ended without a result.
    WorkerPanicked,
}

/// Turns the outcome of a time-bounded D-Bus call into its result: the
/// value when the call succeeded, else an error naming `server` (timeout,
/// dead worker) or giving `context`, the call's error text and `hint`.
pub fn dbus_call_result<T>(
    outcome: Result<Result<T, String>, TimeoutError>,
    server: &str,
    context: &str,
    hint: Option<&str>,
) -> (r: Result<T, WasError>)
    ensures
        match outcome {
            Ok(Ok(v)) => r == Ok::<T, WasError>(v),
            Ok(Err(detail)) => r matches Err(WasError::CallFailed { context: c, detail: d, hint: h })
                && c@ == context@ && d@ == detail@ && match hint {
                    Some(x) => h matches Some(y) && y@ == x@,
                    None => h is None,
                },
            Err(TimeoutError::Elapsed) => r matches Err(WasError::NotResponding { server: s })
                && s@ == server@,
            Err(TimeoutError::WorkerPanicked) => r matches Err(WasError::WorkerPanicked { server: s })
                && s@ == server@,
        },
{
    match outcome {
        Ok(Ok(v)) => Ok(v),
        Ok(Err(detail)) => {
            let h = match hint {
                Some(x) => Some(String::from_str(x)),
                None => None,
            };
            Err(WasError::CallFailed { context: String::from_str(context), detail, hint: h })
        },
        Err(TimeoutError::Elapsed) => Err(WasError::NotResponding { server: String::from_str(server) }),
        Err(TimeoutError::WorkerPanicked) => Err(
            WasError::WorkerPanicked { server: String::from_str(server) },
        ),
    }
}

} // verus!
