//! Commit records, and reading them from what the backend prints: one line
//! for each commit, newest first, the hash and the subject with a separator
//! between them.

use crate::backend::{check_backend, BackendReply};
use crate::error::{Error, Step};
use crate::text::{lines, lines_of, pieces, split, texts};
use vstd::prelude::*;
use vstd::string::*;

verus! {

/// One entry of the history.
#[derive(Debug, PartialEq, Eq)]
pub struct CommitRecord {
    /// What identifies the commit. It is not empty.
    pub hash: String,
    /// The first line of the commit message. It may be empty.
    pub subject: String,
}

/// What a `CommitRecord` holds.
pub struct RecordView {
    pub hash: Seq<char>,
    pub subject: Seq<char>,
}

impl View for CommitRecord {
    type V = RecordView;

    open spec fn view(&self) -> RecordView {
        RecordView { hash: self.hash@, subject: self.subject@ }
    }
}

impl Clone for CommitRecord {
    fn clone(&self) -> (r: Self)
        ensures
            r == *self,
    {
        CommitRecord { hash: self.hash.clone(), subject: self.subject.clone() }
    }
}

/// The views of the records of `v`, in order.
pub open spec fn record_views(v: Seq<CommitRecord>) -> Seq<RecordView> {
    v.map_values(|record: CommitRecord| record@)
}

/// The character between the hash and the subject of a line: the unit
/// separator, which no hash holds and no subject is expected to hold.
pub const FIELD_SEPARATOR: char = '\u{1f}';

/// The record that a line stands for. The line must hold the separator
/// exactly once, with a hash that is not empty before it; the subject after
/// it may be empty. A line without a separator is no record, even though a
/// commit may have an empty subject: the separator is printed all the same.
pub open spec fn record_of(line: Seq<char>) -> Option<RecordView> {
    let fields = pieces(line, FIELD_SEPARATOR);
    if fields.len() == 2 && fields[0].len() > 0 {
        Some(RecordView { hash: fields[0], subject: fields[1] })
    } else {
        None
    }
}

/// Tells whether `records` are the records of `output`, line by line.
pub open spec fn is_history(output: Seq<char>, records: Seq<RecordView>) -> bool {
    let all = lines_of(output);
    &&& records.len() == all.len()
    &&& forall|i: int| 0 <= i < all.len() ==> record_of(#[trigger] all[i]) == Some(records[i])
}

/// Tells whether line `line` of `output` is its first line that is no
/// record.
pub open spec fn is_first_malformed(output: Seq<char>, line: int) -> bool {
    let all = lines_of(output);
    &&& 0 <= line < all.len()
    &&& record_of(all[line]) is None
    &&& forall|i: int| 0 <= i < line ==> record_of(#[trigger] all[i]) is Some
}

/// The arguments that make the backend print the history in the form that
/// `parse_history` reads.
pub open spec fn history_arguments_spec() -> Seq<Seq<char>> {
    seq!["log"@, "--pretty=format:%H%x1f%s"@]
}

/// The arguments that make the backend print the history in the form that
/// `parse_history` reads.
pub fn history_arguments() -> (r: Vec<String>)
    ensures
        texts(r@) == history_arguments_spec(),
{
    let r = vec![String::from_str("log"), String::from_str("--pretty=format:%H%x1f%s")];
    assert(texts(r@) =~= history_arguments_spec());
    r
}

/// Reads one line as a record.
pub fn parse_record(line: &str) -> (r: Option<CommitRecord>)
    ensures
        match r {
            Some(record) => record_of(line@) == Some(record@),
            None => record_of(line@) is None,
        },
{
    let mut fields = split(line, FIELD_SEPARATOR);
    if fields.len() != 2 {
        return None;
    }
    assert(texts(fields@)[0] == fields@[0]@);
    assert(texts(fields@)[1] == fields@[1]@);
    let subject = fields.pop().unwrap();
    let hash = fields.pop().unwrap();
    if hash.as_str().unicode_len() == 0 {
        return None;
    }
    Some(CommitRecord { hash, subject })
}

/// Reads what the backend printed as the history, in the order printed.
/// Every line must be a record; otherwise the first that is none is
/// reported.
pub fn parse_history(output: &str) -> (r: Result<Vec<CommitRecord>, Error>)
    ensures
        match r {
            Ok(records) => is_history(output@, record_views(records@)),
            Err(e) => e matches Error::MalformedRecord { line } && is_first_malformed(
                output@,
                line as int,
            ),
        },
{
    let all = lines(output);
    let mut records: Vec<CommitRecord> = Vec::new();
    let mut i: usize = 0;
    while i < all.len()
        invariant
            i <= all.len(),
            texts(all@) == lines_of(output@),
            records.len() == i,
            forall|j: int|
                0 <= j < i ==> record_of(#[trigger] lines_of(output@)[j]) == Some(records@[j]@),
        decreases all.len() - i,
    {
        assert(texts(all@)[i as int] == all@[i as int]@);
        match parse_record(all[i].as_str()) {
            Some(record) => {
                records.push(record);
            },
            None => {
                return Err(Error::MalformedRecord { line: i });
            },
        }
        i += 1;
    }
    Ok(records)
}

/// Reads the end of the run that printed the history, and then what it
/// printed. A run that failed is reported before anything is read.
pub fn read_history(reply: BackendReply, output: &str) -> (r: Result<Vec<CommitRecord>, Error>)
    ensures
        match reply {
            BackendReply::Unavailable(detail) => r == Err::<Vec<CommitRecord>, Error>(
                Error::BackendUnavailable { step: Step::History, detail },
            ),
            BackendReply::Exited(exit_status) => if exit_status == Some(0i32) {
                match r {
                    Ok(records) => is_history(output@, record_views(records@)),
                    Err(e) => e matches Error::MalformedRecord { line } && is_first_malformed(
                        output@,
                        line as int,
                    ),
                }
            } else {
                r == Err::<Vec<CommitRecord>, Error>(
                    Error::BackendFailed { step: Step::History, exit_status },
                )
            },
        },
{
    match check_backend(Step::History, reply) {
        Ok(()) => parse_history(output),
        Err(e) => Err(e),
    }
}

} // verus!
