//! Choosing one commit from the history: what is shown to the user, and what
//! the user's answer selects.

use crate::error::Error;
use crate::history::CommitRecord;
use crate::text::texts;
use vstd::prelude::*;
use vstd::string::*;

verus! {

/// What a prompt on the terminal came back with.
#[derive(Debug, PartialEq, Eq)]
pub enum PromptReply<T> {
    /// The user answered.
    Answered(T),
    /// The user backed out, by the cancel key or by an interrupt.
    Cancelled,
    /// The terminal failed; the text says how.
    Failed(String),
}

/// The subjects of `records`, in order.
pub open spec fn subjects(records: Seq<CommitRecord>) -> Seq<Seq<char>> {
    records.map_values(|record: CommitRecord| record.subject@)
}

/// The text shown for each record of the list to choose from: its subject,
/// in the order of `records`. With no record there is nothing to show and
/// nothing to ask.
pub fn selection_labels(records: &Vec<CommitRecord>) -> (r: Result<Vec<String>, Error>)
    ensures
        match r {
            Ok(labels) => records.len() > 0 && texts(labels@) == subjects(records@),
            Err(e) => records.len() == 0 && e == Error::NothingToSelect,
        },
{
    if records.len() == 0 {
        return Err(Error::NothingToSelect);
    }
    let mut labels: Vec<String> = Vec::new();
    let mut i: usize = 0;
    while i < records.len()
        invariant
            i <= records.len(),
            texts(labels@) == subjects(records@).take(i as int),
        decreases records.len() - i,
    {
        let label = records[i].subject.clone();
        proof {
            assert(texts(labels@.push(label)) =~= texts(labels@).push(label@));
            assert(subjects(records@).take(i + 1) =~= subjects(records@).take(i as int).push(
                label@,
            ));
        }
        labels.push(label);
        i += 1;
    }
    assert(subjects(records@).take(records.len() as int) =~= subjects(records@));
    Ok(labels)
}

/// The record that the user chose from `records`: the answer is its
/// position in the list shown. What is returned is that record itself, hash
/// and subject. With no record there is nothing to select, whatever the
/// reply; else a user who backed out and a terminal that failed are told
/// apart. A position outside the list counts as a fault of the terminal.
pub fn select_commit(records: &Vec<CommitRecord>, reply: PromptReply<usize>) -> (r: Result<
    CommitRecord,
    Error,
>)
    ensures
        records.len() == 0 ==> r == Err::<CommitRecord, Error>(Error::NothingToSelect),
        records.len() > 0 ==> match reply {
            PromptReply::Answered(position) => if position < records.len() {
                r == Ok::<CommitRecord, Error>(records@[position as int])
            } else {
                r matches Err(Error::IoFailure(text)) && text@
                    == "Failed to revert commit: selection out of range"@
            },
            PromptReply::Cancelled => r == Err::<CommitRecord, Error>(Error::Cancelled),
            PromptReply::Failed(detail) => r matches Err(Error::IoFailure(text)) && text@
                == "Failed to revert commit: "@ + detail@,
        },
        r matches Ok(record) ==> records@.contains(record),
{
    if records.len() == 0 {
        return Err(Error::NothingToSelect);
    }
    match reply {
        PromptReply::Answered(position) => {
            if position < records.len() {
                Ok(records[position].clone())
            } else {
                Err(
                    Error::IoFailure(
                        String::from_str("Failed to revert commit: selection out of range"),
                    ),
                )
            }
        },
        PromptReply::Cancelled => Err(Error::Cancelled),
        PromptReply::Failed(detail) => {
            let mut text = String::from_str("Failed to revert commit: ");
            text.append(detail.as_str());
            Err(Error::IoFailure(text))
        },
    }
}

} // verus!
