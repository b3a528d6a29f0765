//! Errors of the use cases and of the application's setup.

use vstd::prelude::*;

verus! {

/// Error of a use case.
#[derive(Debug)]
pub enum DomainError {
    NotFound,
    InvalidInput(String),
    Unauthorized,
    Conflict(String),
    Other(String),
}

/// The contents of a `DomainError` as plain values.
pub enum DomainErrorView {
    NotFound,
    InvalidInput(Seq<char>),
    Unauthorized,
    Conflict(Seq<char>),
    Other(Seq<char>),
}

impl View for DomainError {
    type V = DomainErrorView;

    open spec fn view(&self) -> DomainErrorView {
        match self {
            DomainError::NotFound => DomainErrorView::NotFound,
            DomainError::InvalidInput(s) => DomainErrorView::InvalidInput(s@),
            DomainError::Unauthorized => DomainErrorView::Unauthorized,
            DomainError::Conflict(s) => DomainErrorView::Conflict(s@),
            DomainError::Other(s) => DomainErrorView::Other(s@),
        }
    }
}

/// `prefix` followed by `detail`.
fn prefixed(prefix: &str, detail: &String) -> (r: String)
    ensures
        r@ == prefix@ + detail@,
{
    let mut s = String::from_str(prefix);
    s.append(detail.as_str());
    s
}

impl DomainError {
    /// Passes on the value of a storage call; a failure of the storage becomes
    /// `Other(message)`, whatever the storage reported.
    pub fn from_storage<T>(result: Result<T, anyhow::Error>, message: &str) -> (r: Result<T, DomainError>)
        ensures
            result is Ok <==> r is Ok,
            r is Ok ==> r->Ok_0 == result->Ok_0,
            r is Err ==> r->Err_0@ == DomainErrorView::Other(message@),
    {
        match result {
            Ok(v) => Ok(v),
            Err(_) => Err(DomainError::Other(String::from_str(message))),
        }
    }

    /// The text of the message that describes the error.
    pub open spec fn message_text(&self) -> Seq<char> {
        match self {
            DomainError::NotFound => "Not found"@,
            DomainError::InvalidInput(s) => "Invalid input: "@ + s@,
            DomainError::Unauthorized => "Unauthorized"@,
            DomainError::Conflict(s) => "Conflict: "@ + s@,
            DomainError::Other(s) => "Error: "@ + s@,
        }
    }

    /// The message that describes the error.
    pub fn message(&self) -> (r: String)
        ensures
            r@ == self.message_text(),
    {
        match self {
            DomainError::NotFound => String::from_str("Not found"),
            DomainError::InvalidInput(s) => prefixed("Invalid input: ", s),
            DomainError::Unauthorized => String::from_str("Unauthorized"),
            DomainError::Conflict(s) => prefixed("Conflict: ", s),
            DomainError::Other(s) => prefixed("Error: ", s),
        }
    }
}

/// Error in the application's configuration.
#[derive(Debug)]
pub enum AppError {
    ConfigMissingError(String),
    ConfigRepoFileMissingError,
}

impl AppError {
    /// The message that describes the error.
    pub fn message(&self) -> (r: String)
        ensures
            r@ == match self {
                AppError::ConfigMissingError(s) => "Required "@ + s@ + " config is missing"@,
                AppError::ConfigRepoFileMissingError => "Required repo file config is missing"@,
            },
    {
        match self {
            AppError::ConfigMissingError(s) => {
                let mut r = prefixed("Required ", s);
                r.append(" config is missing");
                r
            },
            AppError::ConfigRepoFileMissingError => String::from_str("Required repo file config is missing"),
        }
    }
}

} // verus!
