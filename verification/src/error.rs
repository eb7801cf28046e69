//! What can go wrong, and how each failure is worded for the user.

use crate::text::{decimal, signed_decimal, to_decimal, to_signed_decimal};
use vstd::prelude::*;
use vstd::string::*;

verus! {

/// An operation of the version-control backend.
#[derive(Debug, Clone, Copy, PartialEq, Eq, Structural)]
pub enum Step {
    /// Listing the commit history.
    History,
    /// Applying the inverse of a commit without committing.
    Revert,
    /// Committing with a message.
    Commit,
    /// Rebasing onto a commit.
    Rebase,
}

/// Why a `section.field` key or its value was refused.
#[derive(Debug, PartialEq, Eq)]
pub enum ConfigKeyError {
    /// The key is not made of exactly two parts around one dot.
    MalformedKey,
    /// No section has this name.
    UnknownSection { section: String },
    /// The section has no field of this name.
    UnknownField { section: String, field: String },
    /// The value cannot be read as what the field holds.
    InvalidValue,
}

/// A failure of one of the workflows.
#[derive(Debug, PartialEq, Eq)]
pub enum Error {
    /// The backend process could not be started.
    BackendUnavailable { step: Step, detail: String },
    /// A line of the history, counted from zero, is not a record.
    MalformedRecord { line: usize },
    /// There is no commit to choose from.
    NothingToSelect,
    /// The user backed out. This is an expected outcome, not a fault.
    Cancelled,
    /// The terminal failed; the text says how.
    IoFailure(String),
    /// The backend ran and reported a failure. There is no exit status where
    /// a signal ended it.
    BackendFailed { step: Step, exit_status: Option<i32> },
    /// The stored configuration could not be read as a configuration.
    ConfigParse(String),
    /// A setting was refused.
    ConfigKey(ConfigKeyError),
}

/// The verb that names `step` in a message.
pub open spec fn step_name(step: Step) -> Seq<char> {
    match step {
        Step::History => "read history"@,
        Step::Revert => "revert"@,
        Step::Commit => "commit"@,
        Step::Rebase => "rebase"@,
    }
}

/// The wording of a refused setting.
pub open spec fn key_error_text(e: ConfigKeyError) -> Seq<char> {
    match e {
        ConfigKeyError::MalformedKey => "Key format must be <section>.<field>"@,
        ConfigKeyError::UnknownSection { section } => "Unknown section '"@ + section@ + "'"@,
        ConfigKeyError::UnknownField { section, field } => "Unknown "@ + section@ + " setting '"@
            + field@ + "'"@,
        ConfigKeyError::InvalidValue => "Value must be boolean"@,
    }
}

/// The wording of a failure.
pub open spec fn error_text(e: Error) -> Seq<char> {
    match e {
        Error::BackendUnavailable { step, detail } => "Failed to "@ + step_name(step) + ": "@
            + detail@,
        Error::MalformedRecord { line } => "Malformed history record on line "@ + decimal(
            line as nat + 1,
        ),
        Error::NothingToSelect => "There is no commit to select"@,
        Error::Cancelled => "Canceled"@,
        Error::IoFailure(detail) => detail@,
        Error::BackendFailed { step, exit_status } => "Failed to "@ + step_name(step) + (
        match exit_status {
            Some(code) => ": git exited with status "@ + signed_decimal(code as int),
            None => ": git was stopped by a signal"@,
        }),
        Error::ConfigParse(detail) => "Failed to parse config: "@ + detail@,
        Error::ConfigKey(e) => key_error_text(e),
    }
}

impl Step {
    /// The verb that names this step in a message.
    pub fn name(&self) -> (r: &'static str)
        ensures
            r@ == step_name(*self),
    {
        match self {
            Step::History => "read history",
            Step::Revert => "revert",
            Step::Commit => "commit",
            Step::Rebase => "rebase",
        }
    }
}

impl ConfigKeyError {
    /// The wording of this refusal.
    pub fn message(&self) -> (r: String)
        ensures
            r@ == key_error_text(*self),
    {
        match self {
            ConfigKeyError::MalformedKey => String::from_str("Key format must be <section>.<field>"),
            ConfigKeyError::UnknownSection { section } => {
                let mut out = String::from_str("Unknown section '");
                out.append(section.as_str());
                out.append("'");
                out
            },
            ConfigKeyError::UnknownField { section, field } => {
                let mut out = String::from_str("Unknown ");
                out.append(section.as_str());
                out.append(" setting '");
                out.append(field.as_str());
                out.append("'");
                out
            },
            ConfigKeyError::InvalidValue => String::from_str("Value must be boolean"),
        }
    }
}

impl Error {
    /// Tells whether this is the user backing out rather than a fault.
    pub fn is_cancellation(&self) -> (r: bool)
        ensures
            r == (*self is Cancelled),
    {
        match self {
            Error::Cancelled => true,
            _ => false,
        }
    }

    /// The wording of this failure.
    pub fn message(&self) -> (r: String)
        ensures
            r@ == error_text(*self),
    {
        match self {
            Error::BackendUnavailable { step, detail } => {
                let mut out = String::from_str("Failed to ");
                out.append(step.name());
                out.append(": ");
                out.append(detail.as_str());
                out
            },
            Error::MalformedRecord { line } => {
                let mut out = String::from_str("Malformed history record on line ");
                let number = to_decimal(*line as u128 + 1);
                out.append(number.as_str());
                out
            },
            Error::NothingToSelect => String::from_str("There is no commit to select"),
            Error::Cancelled => String::from_str("Canceled"),
            Error::IoFailure(detail) => detail.clone(),
            Error::BackendFailed { step, exit_status } => {
                let mut out = String::from_str("Failed to ");
                out.append(step.name());
                match exit_status {
                    Some(code) => {
                        out.append(": git exited with status ");
                        let number = to_signed_decimal(*code);
                        out.append(number.as_str());
                    },
                    None => {
                        out.append(": git was stopped by a signal");
                    },
                }
                out
            },
            Error::ConfigParse(detail) => {
                let mut out = String::from_str("Failed to parse config: ");
                out.append(detail.as_str());
                out
            },
            Error::ConfigKey(e) => e.message(),
        }
    }
}

} // verus!
