use vstd::prelude::*;

verus! {

/// The failures a request can end in.
#[derive(Clone, Copy, Debug, PartialEq, Eq, Structural)]
pub enum ApiError {
    /// A malformed identifier or a missing required field.
    ClientInput,
    /// No record matches the identifier.
    NotFound,
    /// The database refused or failed the operation, or a stored document is malformed.
    Database,
    /// The configuration is missing or the first connection failed.
    Startup,
}

/// The HTTP status that each failure is answered with.
pub open spec fn status_of(e: ApiError) -> u16 {
    match e {
        ApiError::ClientInput => 400,
        ApiError::NotFound => 404,
        ApiError::Database => 500,
        ApiError::Startup => 500,
    }
}

impl ApiError {
    pub fn status(&self) -> (r: u16)
        ensures
            r == status_of(*self),
    {
        match self {
            ApiError::ClientInput => 400,
            ApiError::NotFound => 404,
            ApiError::Database => 500,
            ApiError::Startup => 500,
        }
    }
}

} // verus!
