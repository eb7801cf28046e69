use gitquick::backend::BackendReply;
use gitquick::error::{ConfigKeyError, Error, Step};
use gitquick::history::CommitRecord;
use gitquick::rebase::{rebase_arguments, rebase_outcome};
use gitquick::revert::{
    commit_arguments, revert_advance, revert_arguments, revert_message, revert_start,
    RevertAction, RevertEvent, RevertOutcome, RevertState,
};
use gitquick::select::PromptReply;

fn owned(items: &[&str]) -> Vec<String> {
    items.iter().map(|s| s.to_string()).collect()
}

fn chosen() -> CommitRecord {
    CommitRecord { hash: "abc123".to_string(), subject: "fix bug".to_string() }
}

fn yes() -> RevertEvent {
    RevertEvent::Confirmation(PromptReply::Answered(Some(true)))
}

fn exited(code: i32) -> RevertEvent {
    RevertEvent::Backend(BackendReply::Exited(Some(code)))
}

#[test]
fn revert_message_names_subject_and_hash() {
    assert_eq!(revert_message(&chosen()), "revert: \"fix bug\"\nThis reverts commit: abc123");
}

#[test]
fn revert_message_of_an_empty_subject() {
    let record = CommitRecord { hash: "f00".to_string(), subject: "".to_string() };
    assert_eq!(revert_message(&record), "revert: \"\"\nThis reverts commit: f00");
}

#[test]
fn revert_and_commit_arguments() {
    assert_eq!(revert_arguments(&chosen()), owned(&["revert", "--no-commit", "abc123"]));
    assert_eq!(commit_arguments("a message"), owned(&["commit", "-m", "a message"]));
}

#[test]
fn rebase_arguments_always_squash() {
    assert_eq!(rebase_arguments(false, &chosen()), owned(&["rebase", "--autosquash", "abc123"]));
    assert_eq!(
        rebase_arguments(true, &chosen()),
        owned(&["rebase", "--autosquash", "--interactive", "abc123"])
    );
}

#[test]
fn rebase_outcome_reports_the_backend() {
    assert_eq!(rebase_outcome(BackendReply::Exited(Some(0))), Ok(()));
    assert_eq!(
        rebase_outcome(BackendReply::Exited(Some(1))),
        Err(Error::BackendFailed { step: Step::Rebase, exit_status: Some(1) })
    );
    assert_eq!(
        rebase_outcome(BackendReply::Exited(None)),
        Err(Error::BackendFailed { step: Step::Rebase, exit_status: None })
    );
    assert_eq!(
        rebase_outcome(BackendReply::Unavailable("missing".to_string())),
        Err(Error::BackendUnavailable { step: Step::Rebase, detail: "missing".to_string() })
    );
}

#[test]
fn revert_starts_by_asking_with_the_preview() {
    let (state, action) = revert_start(&chosen());
    assert_eq!(state, RevertState::Confirming);
    assert_eq!(
        action,
        RevertAction::Ask {
            preview: owned(&[
                "┌─────────────────────────────┐",
                "│ revert: \"fix bug\"           │",
                "│ This reverts commit: abc123 │",
                "└─────────────────────────────┘",
            ]),
            question: "Revert?".to_string(),
            default_answer: true,
        }
    );
}

#[test]
fn revert_accepted_runs_revert_then_commit() {
    let record = chosen();
    let (state, action) = revert_advance(&record, RevertState::Confirming, yes());
    assert_eq!(state, RevertState::Reverting);
    assert_eq!(
        action,
        RevertAction::Run {
            step: Step::Revert,
            arguments: owned(&["revert", "--no-commit", "abc123"])
        }
    );
    let (state, action) = revert_advance(&record, state, exited(0));
    assert_eq!(state, RevertState::Committing);
    assert_eq!(
        action,
        RevertAction::Run {
            step: Step::Commit,
            arguments: owned(&[
                "commit",
                "-m",
                "revert: \"fix bug\"\nThis reverts commit: abc123"
            ])
        }
    );
    let (state, action) = revert_advance(&record, state, exited(0));
    assert_eq!(state, RevertState::Finished);
    assert_eq!(action, RevertAction::Finish(Ok(RevertOutcome::Reverted)));
}

#[test]
fn revert_with_the_default_answer_goes_on() {
    let (state, action) = revert_advance(
        &chosen(),
        RevertState::Confirming,
        RevertEvent::Confirmation(PromptReply::Answered(None)),
    );
    assert_eq!(state, RevertState::Reverting);
    assert!(matches!(action, RevertAction::Run { step: Step::Revert, .. }));
}

#[test]
fn revert_declined_runs_nothing() {
    let (state, action) = revert_advance(
        &chosen(),
        RevertState::Confirming,
        RevertEvent::Confirmation(PromptReply::Answered(Some(false))),
    );
    assert_eq!(state, RevertState::Finished);
    assert_eq!(action, RevertAction::Finish(Ok(RevertOutcome::Declined)));
}

#[test]
fn revert_cancelled_or_failed_at_the_question() {
    let (state, action) = revert_advance(
        &chosen(),
        RevertState::Confirming,
        RevertEvent::Confirmation(PromptReply::Cancelled),
    );
    assert_eq!(state, RevertState::Finished);
    assert_eq!(action, RevertAction::Finish(Err(Error::Cancelled)));
    let (state, action) = revert_advance(
        &chosen(),
        RevertState::Confirming,
        RevertEvent::Confirmation(PromptReply::Failed("closed".to_string())),
    );
    assert_eq!(state, RevertState::Finished);
    assert_eq!(
        action,
        RevertAction::Finish(Err(Error::IoFailure(
            "Failed to get confirmation: closed".to_string()
        )))
    );
}

#[test]
fn revert_that_fails_is_not_committed() {
    let record = chosen();
    let (state, action) = revert_advance(&record, RevertState::Reverting, exited(1));
    assert_eq!(state, RevertState::Finished);
    assert_eq!(
        action,
        RevertAction::Finish(Err(Error::BackendFailed {
            step: Step::Revert,
            exit_status: Some(1)
        }))
    );
    let (state, action) = revert_advance(&record, state, exited(0));
    assert_eq!(state, RevertState::Finished);
    assert_eq!(action, RevertAction::Wait);
}

#[test]
fn revert_whose_commit_fails_names_the_commit() {
    let record = chosen();
    let (state, action) = revert_advance(&record, RevertState::Committing, exited(128));
    assert_eq!(state, RevertState::Finished);
    assert_eq!(
        action,
        RevertAction::Finish(Err(Error::BackendFailed {
            step: Step::Commit,
            exit_status: Some(128)
        }))
    );
    let (state, action) = revert_advance(
        &record,
        RevertState::Committing,
        RevertEvent::Backend(BackendReply::Unavailable("gone".to_string())),
    );
    assert_eq!(state, RevertState::Finished);
    assert_eq!(
        action,
        RevertAction::Finish(Err(Error::BackendUnavailable {
            step: Step::Commit,
            detail: "gone".to_string()
        }))
    );
}

#[test]
fn revert_whose_backend_is_missing_or_killed() {
    let record = chosen();
    let (state, action) = revert_advance(
        &record,
        RevertState::Reverting,
        RevertEvent::Backend(BackendReply::Unavailable("no git".to_string())),
    );
    assert_eq!(state, RevertState::Finished);
    assert_eq!(
        action,
        RevertAction::Finish(Err(Error::BackendUnavailable {
            step: Step::Revert,
            detail: "no git".to_string()
        }))
    );
    let (state, action) = revert_advance(
        &record,
        RevertState::Reverting,
        RevertEvent::Backend(BackendReply::Exited(None)),
    );
    assert_eq!(state, RevertState::Finished);
    assert_eq!(
        action,
        RevertAction::Finish(Err(Error::BackendFailed { step: Step::Revert, exit_status: None }))
    );
}

#[test]
fn revert_ignores_events_it_does_not_wait_for() {
    let record = chosen();
    assert_eq!(
        revert_advance(&record, RevertState::Confirming, exited(0)),
        (RevertState::Confirming, RevertAction::Wait)
    );
    assert_eq!(
        revert_advance(&record, RevertState::Reverting, yes()),
        (RevertState::Reverting, RevertAction::Wait)
    );
    assert_eq!(
        revert_advance(&record, RevertState::Committing, yes()),
        (RevertState::Committing, RevertAction::Wait)
    );
    assert_eq!(
        revert_advance(&record, RevertState::Finished, yes()),
        (RevertState::Finished, RevertAction::Wait)
    );
}

#[test]
fn error_messages() {
    assert_eq!(Error::Cancelled.message(), "Canceled");
    assert!(Error::Cancelled.is_cancellation());
    assert!(!Error::NothingToSelect.is_cancellation());
    assert!(!Error::IoFailure("Canceled".to_string()).is_cancellation());
    assert_eq!(Error::NothingToSelect.message(), "There is no commit to select");
    assert_eq!(Error::IoFailure("the cause".to_string()).message(), "the cause");
    assert_eq!(
        Error::MalformedRecord { line: 0 }.message(),
        "Malformed history record on line 1"
    );
    assert_eq!(
        Error::MalformedRecord { line: 41 }.message(),
        "Malformed history record on line 42"
    );
    assert_eq!(
        Error::BackendUnavailable { step: Step::Revert, detail: "No such file".to_string() }
            .message(),
        "Failed to revert: No such file"
    );
    assert_eq!(
        Error::BackendFailed { step: Step::Commit, exit_status: Some(1) }.message(),
        "Failed to commit: git exited with status 1"
    );
    assert_eq!(
        Error::BackendFailed { step: Step::Rebase, exit_status: Some(-2) }.message(),
        "Failed to rebase: git exited with status -2"
    );
    assert_eq!(
        Error::BackendFailed { step: Step::History, exit_status: None }.message(),
        "Failed to read history: git was stopped by a signal"
    );
    assert_eq!(
        Error::ConfigParse("expected `=`".to_string()).message(),
        "Failed to parse config: expected `=`"
    );
}

#[test]
fn config_key_error_messages() {
    assert_eq!(ConfigKeyError::MalformedKey.message(), "Key format must be <section>.<field>");
    assert_eq!(
        ConfigKeyError::UnknownSection { section: "tag".to_string() }.message(),
        "Unknown section 'tag'"
    );
    assert_eq!(
        ConfigKeyError::UnknownField { section: "commit".to_string(), field: "scope".to_string() }
            .message(),
        "Unknown commit setting 'scope'"
    );
    assert_eq!(ConfigKeyError::InvalidValue.message(), "Value must be boolean");
    assert_eq!(
        Error::ConfigKey(ConfigKeyError::UnknownSection { section: "x".to_string() }).message(),
        "Unknown section 'x'"
    );
    assert_eq!(Step::History.name(), "read history");
    assert_eq!(Step::Revert.name(), "revert");
    assert_eq!(Step::Commit.name(), "commit");
    assert_eq!(Step::Rebase.name(), "rebase");
}
