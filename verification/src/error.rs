//! The ways an upgrade attempt can end without a new version installed.

use vstd::prelude::*;

verus! {

/// Why an upgrade attempt failed; each variant carries its message.
#[derive(Debug)]
pub enum UpgradeError {
    /// The requested local upgrade source path is not valid UTF-8.
    Configuration(String),
    /// The upgrade expression could not be written to the content-addressable
    /// store.
    Storage(String),
    /// The evaluator failed to produce the changelog value or the package
    /// build.
    Evaluation(String),
    /// The build succeeded, but the installer could not be launched or exited
    /// with a non-zero status.
    Install(String),
}

/// The mathematical value of an [`UpgradeError`]: its kind together with the
/// text of its message.
pub enum ErrorModel {
    Configuration(Seq<char>),
    Storage(Seq<char>),
    Evaluation(Seq<char>),
    Install(Seq<char>),
}

impl View for UpgradeError {
    type V = ErrorModel;

    open spec fn view(&self) -> ErrorModel {
        match self {
            UpgradeError::Configuration(m) => ErrorModel::Configuration(m@),
            UpgradeError::Storage(m) => ErrorModel::Storage(m@),
            UpgradeError::Evaluation(m) => ErrorModel::Evaluation(m@),
            UpgradeError::Install(m) => ErrorModel::Install(m@),
        }
    }
}

/// The message text carried by an error model.
pub open spec fn error_message(e: ErrorModel) -> Seq<char> {
    match e {
        ErrorModel::Configuration(m) => m,
        ErrorModel::Storage(m) => m,
        ErrorModel::Evaluation(m) => m,
        ErrorModel::Install(m) => m,
    }
}

impl UpgradeError {
    /// The human-readable message of the error.
    pub fn message(&self) -> (m: &str)
        ensures
            m@ == error_message(self@),
    {
        match self {
            UpgradeError::Configuration(m) => m.as_str(),
            UpgradeError::Storage(m) => m.as_str(),
            UpgradeError::Evaluation(m) => m.as_str(),
            UpgradeError::Install(m) => m.as_str(),
        }
    }
}

} // verus!
