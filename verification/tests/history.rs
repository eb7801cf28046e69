use gitquick::backend::{check_backend, BackendReply};
use gitquick::error::{Error, Step};
use gitquick::history::{
    history_arguments, parse_history, parse_record, read_history, CommitRecord, FIELD_SEPARATOR,
};
use gitquick::select::{select_commit, selection_labels, PromptReply};

fn record(hash: &str, subject: &str) -> CommitRecord {
    CommitRecord { hash: hash.to_string(), subject: subject.to_string() }
}

fn three() -> Vec<CommitRecord> {
    vec![record("c3", "third"), record("b2", ""), record("a1", "first")]
}

#[test]
fn history_arguments_ask_for_hash_and_subject() {
    assert_eq!(
        history_arguments(),
        vec!["log".to_string(), "--pretty=format:%H%x1f%s".to_string()]
    );
    assert_eq!(FIELD_SEPARATOR, '\x1f');
}

#[test]
fn parse_record_splits_at_the_separator() {
    assert_eq!(parse_record("abc123\x1ffix bug"), Some(record("abc123", "fix bug")));
    assert_eq!(parse_record("abc123\x1f"), Some(record("abc123", "")));
    assert_eq!(parse_record("abc123\x1f fix: a, b "), Some(record("abc123", " fix: a, b ")));
}

#[test]
fn parse_record_refuses_lines_that_are_no_record() {
    assert_eq!(parse_record(""), None);
    assert_eq!(parse_record("abc123"), None);
    assert_eq!(parse_record("abc123 fix bug"), None);
    assert_eq!(parse_record("\x1ffix bug"), None);
    assert_eq!(parse_record("\x1f"), None);
    assert_eq!(parse_record("abc123\x1ffix\x1fbug"), None);
}

#[test]
fn parse_history_keeps_the_order_of_the_lines() {
    assert_eq!(parse_history("c3\x1fthird\nb2\x1f\na1\x1ffirst"), Ok(three()));
    assert_eq!(parse_history("c3\x1fthird\nb2\x1f\na1\x1ffirst\n"), Ok(three()));
    assert_eq!(parse_history("c3\x1fthird\r\nb2\x1f\r\na1\x1ffirst\r\n"), Ok(three()));
}

#[test]
fn parse_history_of_nothing_is_empty() {
    assert_eq!(parse_history(""), Ok(vec![]));
}

#[test]
fn parse_history_keeps_repeated_lines() {
    assert_eq!(
        parse_history("a1\x1fsame\na1\x1fsame\n"),
        Ok(vec![record("a1", "same"), record("a1", "same")])
    );
}

#[test]
fn parse_history_reports_the_first_malformed_line() {
    assert_eq!(
        parse_history("c3\x1fthird\nb2\na1"),
        Err(Error::MalformedRecord { line: 1 })
    );
    assert_eq!(parse_history("c3"), Err(Error::MalformedRecord { line: 0 }));
    assert_eq!(parse_history("\n"), Err(Error::MalformedRecord { line: 0 }));
    assert_eq!(
        parse_history("c3\x1fthird\n\na1\x1ffirst\n"),
        Err(Error::MalformedRecord { line: 1 })
    );
    assert_eq!(
        parse_history("c3\x1fthird\nb2\x1f\n\x1fno hash\n"),
        Err(Error::MalformedRecord { line: 2 })
    );
}

#[test]
fn check_backend_accepts_exit_status_zero_only() {
    assert_eq!(check_backend(Step::Revert, BackendReply::Exited(Some(0))), Ok(()));
    assert_eq!(
        check_backend(Step::Revert, BackendReply::Exited(Some(1))),
        Err(Error::BackendFailed { step: Step::Revert, exit_status: Some(1) })
    );
    assert_eq!(
        check_backend(Step::Commit, BackendReply::Exited(Some(-1))),
        Err(Error::BackendFailed { step: Step::Commit, exit_status: Some(-1) })
    );
    assert_eq!(
        check_backend(Step::Rebase, BackendReply::Exited(None)),
        Err(Error::BackendFailed { step: Step::Rebase, exit_status: None })
    );
    assert_eq!(
        check_backend(Step::History, BackendReply::Unavailable("no git".to_string())),
        Err(Error::BackendUnavailable { step: Step::History, detail: "no git".to_string() })
    );
}

#[test]
fn read_history_reports_the_backend_before_the_output() {
    assert_eq!(read_history(BackendReply::Exited(Some(0)), "a1\x1ffirst\n"), Ok(vec![record(
        "a1", "first"
    )]));
    assert_eq!(
        read_history(BackendReply::Exited(Some(128)), "a1\x1ffirst\n"),
        Err(Error::BackendFailed { step: Step::History, exit_status: Some(128) })
    );
    assert_eq!(
        read_history(BackendReply::Exited(Some(128)), "garbage"),
        Err(Error::BackendFailed { step: Step::History, exit_status: Some(128) })
    );
    assert_eq!(
        read_history(BackendReply::Unavailable("not found".to_string()), ""),
        Err(Error::BackendUnavailable { step: Step::History, detail: "not found".to_string() })
    );
    assert_eq!(
        read_history(BackendReply::Exited(Some(0)), "garbage"),
        Err(Error::MalformedRecord { line: 0 })
    );
}

#[test]
fn selection_labels_are_the_subjects_in_order() {
    assert_eq!(
        selection_labels(&three()),
        Ok(vec!["third".to_string(), "".to_string(), "first".to_string()])
    );
}

#[test]
fn selection_labels_of_nothing_ask_nothing() {
    assert_eq!(selection_labels(&vec![]), Err(Error::NothingToSelect));
}

#[test]
fn select_commit_returns_the_chosen_record() {
    let records = three();
    for position in 0..records.len() {
        let chosen = select_commit(&records, PromptReply::Answered(position));
        assert_eq!(chosen.as_ref(), Ok(&records[position]));
        assert!(records.contains(&chosen.unwrap()));
    }
    assert_eq!(select_commit(&records, PromptReply::Answered(1)), Ok(record("b2", "")));
}

#[test]
fn select_commit_from_nothing_fails_whatever_the_reply() {
    let none: Vec<CommitRecord> = vec![];
    assert_eq!(select_commit(&none, PromptReply::Answered(0)), Err(Error::NothingToSelect));
    assert_eq!(select_commit(&none, PromptReply::Cancelled), Err(Error::NothingToSelect));
    assert_eq!(
        select_commit(&none, PromptReply::Failed("broken".to_string())),
        Err(Error::NothingToSelect)
    );
}

#[test]
fn select_commit_tells_cancelling_from_failing() {
    let records = three();
    assert_eq!(select_commit(&records, PromptReply::Cancelled), Err(Error::Cancelled));
    assert_eq!(
        select_commit(&records, PromptReply::Failed("not a terminal".to_string())),
        Err(Error::IoFailure("Failed to revert commit: not a terminal".to_string()))
    );
    assert_eq!(
        select_commit(&records, PromptReply::Answered(3)),
        Err(Error::IoFailure("Failed to revert commit: selection out of range".to_string()))
    );
}
