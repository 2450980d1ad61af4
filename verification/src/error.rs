//! Error kinds shared by amount validation, connection and submission.

use vstd::prelude::*;

verus! {

/// Why an attempt failed.
#[derive(Clone, Copy, Debug, PartialEq, Eq, Structural)]
pub enum ErrorKind {
    /// The amount text is not a finite decimal number.
    NotANumber,
    /// The amount is a number, but not greater than zero.
    NonPositive,
    /// No compatible wallet object is present in the host environment.
    ProviderUnavailable,
    /// The user refused the connection request.
    UserRejected,
    /// The provider's connect call failed.
    ConnectFailed,
    /// The provider's burn call failed.
    BurnRejected,
}

impl ErrorKind {
    /// The text shown to the user for this kind of error.
    pub open spec fn description(self) -> Seq<char> {
        match self {
            ErrorKind::NotANumber => "Invalid amount"@,
            ErrorKind::NonPositive => "Amount must be greater than 0"@,
            ErrorKind::ProviderUnavailable => "Phantom wallet not found"@,
            ErrorKind::UserRejected => "Connection request rejected"@,
            ErrorKind::ConnectFailed => "Failed to connect wallet"@,
            ErrorKind::BurnRejected => "Failed to burn tokens"@,
        }
    }

    /// Returns the text shown to the user for this kind of error.
    pub fn describe(self) -> (text: String)
        ensures
            text@ == self.description(),
    {
        match self {
            ErrorKind::NotANumber => "Invalid amount".to_owned(),
            ErrorKind::NonPositive => "Amount must be greater than 0".to_owned(),
            ErrorKind::ProviderUnavailable => "Phantom wallet not found".to_owned(),
            ErrorKind::UserRejected => "Connection request rejected".to_owned(),
            ErrorKind::ConnectFailed => "Failed to connect wallet".to_owned(),
            ErrorKind::BurnRejected => "Failed to burn tokens".to_owned(),
        }
    }
}

/// An error kind together with its human-readable message.
#[derive(Debug, PartialEq, Eq)]
pub struct Failure {
    pub kind: ErrorKind,
    pub message: String,
}

/// The mathematical value of a [`Failure`].
pub ghost struct FailureView {
    pub kind: ErrorKind,
    pub message: Seq<char>,
}

impl View for Failure {
    type V = FailureView;

    open spec fn view(&self) -> FailureView {
        FailureView { kind: self.kind, message: self.message@ }
    }
}

impl Failure {
    /// The failure of the given kind with the kind's standard message.
    pub open spec fn standard(kind: ErrorKind) -> FailureView {
        FailureView { kind, message: kind.description() }
    }

    /// A failure of the given kind with the kind's standard message.
    pub fn of(kind: ErrorKind) -> (failure: Failure)
        ensures
            failure@ == Failure::standard(kind),
    {
        Failure { kind, message: kind.describe() }
    }

}

} // verus!
