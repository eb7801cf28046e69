//! Reverting a chosen commit: the message of the new commit, and the order
//! of the steps, each of which runs only when the one before it went well.

use crate::backend::{check_backend, succeeded, BackendReply};
use crate::confirm::{confirm_answer, framed, render_box};
use crate::error::{Error, Step};
use crate::history::{CommitRecord, RecordView};
use crate::select::PromptReply;
use crate::text::texts;
use vstd::prelude::*;
use vstd::string::*;

verus! {

/// The message of the commit that reverts `record`.
pub open spec fn revert_message_of(record: RecordView) -> Seq<char> {
    "revert: \""@ + record.subject + "\"\nThis reverts commit: "@ + record.hash
}

/// The arguments that apply the inverse of the commit `hash` without
/// committing.
pub open spec fn revert_arguments_of(hash: Seq<char>) -> Seq<Seq<char>> {
    seq!["revert"@, "--no-commit"@, hash]
}

/// The arguments that commit with `message`.
pub open spec fn commit_arguments_of(message: Seq<char>) -> Seq<Seq<char>> {
    seq!["commit"@, "-m"@, message]
}

/// The message of the commit that reverts `record`.
pub fn revert_message(record: &CommitRecord) -> (r: String)
    ensures
        r@ == revert_message_of(record@),
{
    let mut message = String::from_str("revert: \"");
    message.append(record.subject.as_str());
    message.append("\"\nThis reverts commit: ");
    message.append(record.hash.as_str());
    message
}

/// The arguments with which the backend applies the inverse of `record`
/// without committing.
pub fn revert_arguments(record: &CommitRecord) -> (r: Vec<String>)
    ensures
        texts(r@) == revert_arguments_of(record.hash@),
{
    let arguments = vec![
        String::from_str("revert"),
        String::from_str("--no-commit"),
        record.hash.clone(),
    ];
    assert(texts(arguments@) =~= revert_arguments_of(record.hash@));
    arguments
}

/// The arguments with which the backend commits with `message`.
pub fn commit_arguments(message: &str) -> (r: Vec<String>)
    ensures
        texts(r@) == commit_arguments_of(message@),
{
    let arguments = vec![
        String::from_str("commit"),
        String::from_str("-m"),
        String::from_str(message),
    ];
    assert(texts(arguments@) =~= commit_arguments_of(message@));
    arguments
}

/// How far a revert has come.
#[derive(Debug, Clone, Copy, PartialEq, Eq, Structural)]
pub enum RevertState {
    /// The user is being asked whether to go on.
    Confirming,
    /// The backend is applying the inverse of the commit.
    Reverting,
    /// The backend is committing.
    Committing,
    /// The revert is over, one way or the other.
    Finished,
}

/// What happened while a revert was waiting.
#[derive(Debug, PartialEq, Eq)]
pub enum RevertEvent {
    /// The question came back.
    Confirmation(PromptReply<Option<bool>>),
    /// The backend's run ended.
    Backend(BackendReply),
}

/// How a revert that did not fail ended.
#[derive(Debug, Clone, Copy, PartialEq, Eq, Structural)]
pub enum RevertOutcome {
    /// The commit was reverted and the revert committed.
    Reverted,
    /// The user said no. Nothing was changed.
    Declined,
}

/// What the revert asks to be done next.
#[derive(Debug, PartialEq, Eq)]
pub enum RevertAction {
    /// Show the rows of the preview, then ask the question.
    Ask { preview: Vec<String>, question: String, default_answer: bool },
    /// Run this step of the backend with these arguments.
    Run { step: Step, arguments: Vec<String> },
    /// Report how the revert ended.
    Finish(Result<RevertOutcome, Error>),
    /// Keep waiting: what happened is not what the state waits for.
    Wait,
}

/// Tells whether a confirmation says yes; an answer that says neither does.
pub open spec fn accepted(reply: PromptReply<Option<bool>>) -> bool {
    reply == PromptReply::Answered(Some(true)) || reply == PromptReply::<Option<bool>>::Answered(
        None,
    )
}

/// The state that follows `state` when `event` happens. A step is entered
/// only from the one before it and only when that one went well; every
/// refusal and every failure ends the revert; an event that the state does
/// not wait for changes nothing.
pub open spec fn revert_next_state(state: RevertState, event: RevertEvent) -> RevertState {
    match (state, event) {
        (RevertState::Confirming, RevertEvent::Confirmation(reply)) => if accepted(reply) {
            RevertState::Reverting
        } else {
            RevertState::Finished
        },
        (RevertState::Reverting, RevertEvent::Backend(reply)) => if succeeded(reply) {
            RevertState::Committing
        } else {
            RevertState::Finished
        },
        (RevertState::Committing, RevertEvent::Backend(_)) => RevertState::Finished,
        _ => state,
    }
}

/// Tells whether `event` is the end of a run of the backend that went well.
pub open spec fn went_well(event: RevertEvent) -> bool {
    event matches RevertEvent::Backend(reply) && succeeded(reply)
}

/// Tells whether `event` is a confirmation that says yes.
pub open spec fn said_yes(event: RevertEvent) -> bool {
    event matches RevertEvent::Confirmation(reply) && accepted(reply)
}

/// The steps run in order and only after success: the commit is entered
/// only from a revert that went well, the revert only from a yes, a revert
/// that did not go well ends everything, and a revert that is over stays
/// over, so that nothing runs after a failure or a refusal.
pub proof fn lemma_revert_steps_in_order(state: RevertState, event: RevertEvent)
    ensures
        revert_next_state(RevertState::Finished, event) == RevertState::Finished,
        state != RevertState::Committing && revert_next_state(state, event)
            == RevertState::Committing ==> state == RevertState::Reverting && went_well(event),
        state != RevertState::Reverting && revert_next_state(state, event)
            == RevertState::Reverting ==> state == RevertState::Confirming && said_yes(event),
        state == RevertState::Reverting && event is Backend && !went_well(event)
            ==> revert_next_state(state, event) == RevertState::Finished,
{
}

/// Begins the revert of `record`: the preview of the commit message in its
/// frame, and the question, to which yes is the default.
pub fn revert_start(record: &CommitRecord) -> (r: (RevertState, RevertAction))
    ensures
        r.0 == RevertState::Confirming,
        r.1 matches RevertAction::Ask { preview, question, default_answer } && texts(preview@)
            == framed(revert_message_of(record@)) && question@ == "Revert?"@ && default_answer,
{
    let message = revert_message(record);
    let preview = render_box(message.as_str());
    (
        RevertState::Confirming,
        RevertAction::Ask { preview, question: String::from_str("Revert?"), default_answer: true },
    )
}

/// Takes the revert of `record` one event further and says what to do
/// next.
///
/// After a yes the backend applies the inverse of the commit; once that
/// went well it commits with the revert message; once that went well too
/// the revert is reported as done. A no ends the revert with nothing run
/// and is no failure. A failure of any step ends the revert at once, with
/// the error that names the step, and nothing more is run.
pub fn revert_advance(record: &CommitRecord, state: RevertState, event: RevertEvent) -> (r: (
    RevertState,
    RevertAction,
))
    ensures
        r.0 == revert_next_state(state, event),
        match (state, event) {
            (RevertState::Confirming, RevertEvent::Confirmation(reply)) => match reply {
                PromptReply::Answered(answer) => if answer == Some(false) {
                    r.1 == RevertAction::Finish(Ok(RevertOutcome::Declined))
                } else {
                    r.1 matches RevertAction::Run { step, arguments } && step == Step::Revert
                        && texts(arguments@) == revert_arguments_of(record.hash@)
                },
                PromptReply::Cancelled => r.1 == RevertAction::Finish(Err(Error::Cancelled)),
                PromptReply::Failed(detail) => r.1 matches RevertAction::Finish(
                    Err(Error::IoFailure(text)),
                ) && text@ == "Failed to get confirmation: "@ + detail@,
            },
            (RevertState::Reverting, RevertEvent::Backend(reply)) => match reply {
                BackendReply::Unavailable(detail) => r.1 == RevertAction::Finish(
                    Err(Error::BackendUnavailable { step: Step::Revert, detail }),
                ),
                BackendReply::Exited(exit_status) => if exit_status == Some(0i32) {
                    r.1 matches RevertAction::Run { step, arguments } && step == Step::Commit
                        && texts(arguments@) == commit_arguments_of(revert_message_of(record@))
                } else {
                    r.1 == RevertAction::Finish(
                        Err(Error::BackendFailed { step: Step::Revert, exit_status }),
                    )
                },
            },
            (RevertState::Committing, RevertEvent::Backend(reply)) => match reply {
                BackendReply::Unavailable(detail) => r.1 == RevertAction::Finish(
                    Err(Error::BackendUnavailable { step: Step::Commit, detail }),
                ),
                BackendReply::Exited(exit_status) => if exit_status == Some(0i32) {
                    r.1 == RevertAction::Finish(Ok(RevertOutcome::Reverted))
                } else {
                    r.1 == RevertAction::Finish(
                        Err(Error::BackendFailed { step: Step::Commit, exit_status }),
                    )
                },
            },
            _ => r.1 == RevertAction::Wait,
        },
{
    match (state, event) {
        (RevertState::Confirming, RevertEvent::Confirmation(reply)) => {
            match confirm_answer(reply, true) {
                Ok(true) => (
                    RevertState::Reverting,
                    RevertAction::Run { step: Step::Revert, arguments: revert_arguments(record) },
                ),
                Ok(false) => (
                    RevertState::Finished,
                    RevertAction::Finish(Ok(RevertOutcome::Declined)),
                ),
                Err(e) => (RevertState::Finished, RevertAction::Finish(Err(e))),
            }
        },
        (RevertState::Reverting, RevertEvent::Backend(reply)) => {
            match check_backend(Step::Revert, reply) {
                Ok(()) => {
                    let message = revert_message(record);
                    (
                        RevertState::Committing,
                        RevertAction::Run {
                            step: Step::Commit,
                            arguments: commit_arguments(message.as_str()),
                        },
                    )
                },
                Err(e) => (RevertState::Finished, RevertAction::Finish(Err(e))),
            }
        },
        (RevertState::Committing, RevertEvent::Backend(reply)) => {
            match check_backend(Step::Commit, reply) {
                Ok(()) => (RevertState::Finished, RevertAction::Finish(Ok(RevertOutcome::Reverted))),
                Err(e) => (RevertState::Finished, RevertAction::Finish(Err(e))),
            }
        },
        (state, _) => (state, RevertAction::Wait),
    }
}

} // verus!
