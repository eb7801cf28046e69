//! Rebasing onto a chosen commit.

use crate::backend::{check_backend, succeeded, BackendReply};
use crate::error::{Error, Step};
use crate::history::CommitRecord;
use crate::text::texts;
use vstd::prelude::*;
use vstd::string::*;

verus! {

/// The arguments of the rebase onto the commit `hash`: squashing of fixup
/// commits is always asked for, the interactive mode only on request.
pub open spec fn rebase_arguments_of(interactive: bool, hash: Seq<char>) -> Seq<Seq<char>> {
    if interactive {
        seq!["rebase"@, "--autosquash"@, "--interactive"@, hash]
    } else {
        seq!["rebase"@, "--autosquash"@, hash]
    }
}

/// The arguments with which the backend rebases onto `record`.
pub fn rebase_arguments(interactive: bool, record: &CommitRecord) -> (r: Vec<String>)
    ensures
        texts(r@) == rebase_arguments_of(interactive, record.hash@),
{
    let mut arguments = vec![String::from_str("rebase"), String::from_str("--autosquash")];
    if interactive {
        arguments.push(String::from_str("--interactive"));
    }
    arguments.push(record.hash.clone());
    assert(texts(arguments@) =~= rebase_arguments_of(interactive, record.hash@));
    arguments
}

/// What the end of the rebase amounts to: success, or the failure of the
/// backend as it was reported, which is never tried again.
pub fn rebase_outcome(reply: BackendReply) -> (r: Result<(), Error>)
    ensures
        r is Ok <==> succeeded(reply),
        match reply {
            BackendReply::Unavailable(detail) => r == Err::<(), Error>(
                Error::BackendUnavailable { step: Step::Rebase, detail },
            ),
            BackendReply::Exited(exit_status) => exit_status != Some(0i32) ==> r == Err::<
                (),
                Error,
            >(Error::BackendFailed { step: Step::Rebase, exit_status }),
        },
{
    check_backend(Step::Rebase, reply)
}

} // verus!
