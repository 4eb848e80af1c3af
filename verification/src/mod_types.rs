//! What can go wrong in a run.

use vstd::prelude::*;

verus! {

/// The errors of the engine. Errors from elsewhere are carried as their text.
#[derive(Debug, Clone, PartialEq, Eq)]
pub enum TtdError {
    /// The weights of a table do not add up to one; the sum is given with four decimals.
    InvalidWeightSum(String),
    /// Nothing was there to select from or to merge.
    NoCandidates,
    /// Retrieval for a gap came back empty.
    EmptyRetrieved,
    /// The executor failed.
    Executor(String),
    /// An artifact could not be written or read.
    Yaml(String),
    /// A dispatched task failed.
    SpawnFailed(String),
    /// An answer did not have the expected structure.
    ParseFailed(String),
}

/// An error as a value.
pub enum ErrorView {
    InvalidWeightSum(Seq<char>),
    NoCandidates,
    EmptyRetrieved,
    Executor(Seq<char>),
    Yaml(Seq<char>),
    SpawnFailed(Seq<char>),
    ParseFailed(Seq<char>),
}

impl View for TtdError {
    type V = ErrorView;

    open spec fn view(&self) -> ErrorView {
        match self {
            TtdError::InvalidWeightSum(sum) => ErrorView::InvalidWeightSum(sum@),
            TtdError::NoCandidates => ErrorView::NoCandidates,
            TtdError::EmptyRetrieved => ErrorView::EmptyRetrieved,
            TtdError::Executor(m) => ErrorView::Executor(m@),
            TtdError::Yaml(m) => ErrorView::Yaml(m@),
            TtdError::SpawnFailed(m) => ErrorView::SpawnFailed(m@),
            TtdError::ParseFailed(m) => ErrorView::ParseFailed(m@),
        }
    }
}

/// The message of an error.
pub open spec fn error_message(e: ErrorView) -> Seq<char> {
    match e {
        ErrorView::InvalidWeightSum(sum) => "weight table sum "@ + sum + " ≠ 1.0 (±0.001)"@,
        ErrorView::NoCandidates => "no candidates to select"@,
        ErrorView::EmptyRetrieved => "retrieval returned no results for gap query"@,
        ErrorView::Executor(m) => "executor error: "@ + m,
        ErrorView::Yaml(m) => "artifact YAML error: "@ + m,
        ErrorView::SpawnFailed(m) => "spawn failed: "@ + m,
        ErrorView::ParseFailed(m) => "parse failed: "@ + m,
    }
}

fn behind(label: &'static str, m: &str) -> (res: String)
    ensures
        res@ == label@ + m@,
{
    let mut s = label.to_string();
    s.append(m);
    s
}

impl TtdError {
    /// The message of the error.
    pub fn message(&self) -> (res: String)
        ensures
            res@ == error_message(self@),
    {
        match self {
            TtdError::InvalidWeightSum(sum) => {
                let mut s = behind("weight table sum ", sum.as_str());
                s.append(" ≠ 1.0 (±0.001)");
                s
            },
            TtdError::NoCandidates => "no candidates to select".to_string(),
            TtdError::EmptyRetrieved => "retrieval returned no results for gap query".to_string(),
            TtdError::Executor(m) => behind("executor error: ", m.as_str()),
            TtdError::Yaml(m) => behind("artifact YAML error: ", m.as_str()),
            TtdError::SpawnFailed(m) => behind("spawn failed: ", m.as_str()),
            TtdError::ParseFailed(m) => behind("parse failed: ", m.as_str()),
        }
    }
}

} // verus!
