//! The ways a run can be given up, and the diagnostic of each.

use vstd::prelude::*;
use crate::text::joined;

verus! {

/// Why a run was given up before anything was put to the endpoint.
#[derive(Debug)]
pub enum RunError {
    /// No policy document at the path held.
    MissingPolicyDocument(String),
    /// No test document at the path held.
    MissingSpecDocument(String),
    /// The policy document is there but could not be read as text; holds the
    /// cause.
    UnreadablePolicyDocument(String),
    /// The test document could not be read or decoded; holds the
    /// whole description.
    MalformedInput(String),
}

/// Mathematical value of a [`RunError`].
pub ghost enum ErrorModel {
    MissingPolicyDocument(Seq<char>),
    MissingSpecDocument(Seq<char>),
    UnreadablePolicyDocument(Seq<char>),
    MalformedInput(Seq<char>),
}

impl View for RunError {
    type V = ErrorModel;

    open spec fn view(&self) -> ErrorModel {
        match self {
            RunError::MissingPolicyDocument(path) => ErrorModel::MissingPolicyDocument(path@),
            RunError::MissingSpecDocument(path) => ErrorModel::MissingSpecDocument(path@),
            RunError::UnreadablePolicyDocument(cause) => ErrorModel::UnreadablePolicyDocument(
                cause@,
            ),
            RunError::MalformedInput(description) => ErrorModel::MalformedInput(description@),
        }
    }
}

/// The diagnostic shown for an error.
pub open spec fn error_message(error: ErrorModel) -> Seq<char> {
    match error {
        ErrorModel::MissingPolicyDocument(path) => "ERROR: Missing protocol markdown file: "@
            + path,
        ErrorModel::MissingSpecDocument(path) => "ERROR: Missing protocol JSON file: "@ + path,
        ErrorModel::UnreadablePolicyDocument(cause) => "Failed to read protocol markdown file: "@
            + cause,
        ErrorModel::MalformedInput(description) => description,
    }
}

/// The description of a test document that could not be read.
pub open spec fn unreadable_spec_message(cause: Seq<char>) -> Seq<char> {
    "Failed to read protocol JSON file: "@ + cause
}

impl RunError {
    /// The diagnostic shown for this error.
    pub fn message(&self) -> (text: String)
        ensures
            text@ == error_message(self@),
    {
        match self {
            RunError::MissingPolicyDocument(path) => joined(
                "ERROR: Missing protocol markdown file: ",
                path.as_str(),
            ),
            RunError::MissingSpecDocument(path) => joined(
                "ERROR: Missing protocol JSON file: ",
                path.as_str(),
            ),
            RunError::UnreadablePolicyDocument(cause) => joined(
                "Failed to read protocol markdown file: ",
                cause.as_str(),
            ),
            RunError::MalformedInput(description) => description.clone(),
        }
    }
}

} // verus!
