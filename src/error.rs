use vstd::prelude::*;
use crate::jobs::SubmitError;
use crate::workspace::InvalidInput;

verus! {

/// Errors the service reports to its clients.
#[derive(Debug)]
pub enum Error {
    BadRequest(String),
    NotFound(String),
    Internal(String),
}

/// Message of a refused request that sent too many files.
pub const TOO_MANY_FILES: &'static str = "Exceeded maximum file amount(64)";

/// Message of a build that cannot be fetched.
pub const NOT_BUILT: &'static str = "Program is not built";

impl Error {
    /// The HTTP status of the error.
    pub fn status_code(&self) -> (r: u16)
        ensures
            r == match self {
                Error::BadRequest(_) => 400u16,
                Error::NotFound(_) => 404u16,
                Error::Internal(_) => 500u16,
            },
    {
        match self {
            Error::BadRequest(_) => 400,
            Error::NotFound(_) => 404,
            Error::Internal(_) => 500,
        }
    }

    /// The text shown to the client.
    pub fn message(&self) -> (r: String)
        ensures
            r@ == match self {
                Error::BadRequest(m) => "Invalid request: "@ + m@,
                Error::NotFound(m) => "Not found: "@ + m@,
                Error::Internal(m) => "Internal error: "@ + m@,
            },
    {
        let (prefix, m) = match self {
            Error::BadRequest(m) => ("Invalid request: ", m),
            Error::NotFound(m) => ("Not found: ", m),
            Error::Internal(m) => ("Internal error: ", m),
        };
        let mut s = String::from_str(prefix);
        s.append(m.as_str());
        s
    }

    /// The error for an artifact that no tier had.
    pub fn not_built() -> (r: Error)
        ensures
            r matches Error::NotFound(m) && m@ == NOT_BUILT@,
    {
        Error::NotFound(String::from_str(NOT_BUILT))
    }

    /// The error for a refused build request: it names the bad identifier, the
    /// limit exceeded or the offending path.
    pub fn from_submit_error(e: SubmitError) -> (r: Error)
        ensures
            r matches Error::BadRequest(m) && m@ == match e {
                SubmitError::InvalidJobId { job_id } => "Invalid UUID: "@ + job_id@,
                SubmitError::InvalidInput(InvalidInput::TooManyFiles { .. }) => TOO_MANY_FILES@,
                SubmitError::InvalidInput(InvalidInput::InvalidPath { path }) => "Invalid path: "@ + path@,
            },
    {
        let m = match e {
            SubmitError::InvalidJobId { job_id } => {
                let mut s = String::from_str("Invalid UUID: ");
                s.append(job_id.as_str());
                s
            },
            SubmitError::InvalidInput(InvalidInput::TooManyFiles { .. }) => String::from_str(TOO_MANY_FILES),
            SubmitError::InvalidInput(InvalidInput::InvalidPath { path }) => {
                let mut s = String::from_str("Invalid path: ");
                s.append(path.as_str());
                s
            },
        };
        Error::BadRequest(m)
    }
}

} // verus!
