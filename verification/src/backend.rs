//! What running the version-control backend gives back, and how that is
//! read as success or failure.

use crate::error::{Error, Step};
use vstd::prelude::*;

verus! {

/// How one run of the backend ended.
#[derive(Debug, PartialEq, Eq)]
pub enum BackendReply {
    /// The process could not be started; the text says why.
    Unavailable(String),
    /// The process ran and ended with this exit status, or by a signal and
    /// without one.
    Exited(Option<i32>),
}

/// Tells whether a run ended well: the process ran and its exit status is 0.
pub open spec fn succeeded(reply: BackendReply) -> bool {
    reply == BackendReply::Exited(Some(0i32))
}

/// Reads the end of the run of `step` as success or as the failure to
/// report: that the backend could not be started, or the exit status it
/// failed with.
pub fn check_backend(step: Step, reply: BackendReply) -> (r: Result<(), Error>)
    ensures
        match reply {
            BackendReply::Unavailable(detail) => r == Err::<(), Error>(
                Error::BackendUnavailable { step, detail },
            ),
            BackendReply::Exited(exit_status) => if exit_status == Some(0i32) {
                r is Ok
            } else {
                r == Err::<(), Error>(Error::BackendFailed { step, exit_status })
            },
        },
        r is Ok <==> succeeded(reply),
{
    match reply {
        BackendReply::Unavailable(detail) => Err(Error::BackendUnavailable { step, detail }),
        BackendReply::Exited(exit_status) => {
            match exit_status {
                Some(code) => {
                    if code == 0 {
                        Ok(())
                    } else {
                        Err(Error::BackendFailed { step, exit_status })
                    }
                },
                None => Err(Error::BackendFailed { step, exit_status }),
            }
        },
    }
}

} // verus!
