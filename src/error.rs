use vstd::prelude::*;

verus! {

/// The closed set of failures a request can end in.
#[derive(Debug, Clone, Copy, PartialEq, Eq, Structural)]
pub enum ServiceError {
    /// The store's lock could not be taken.
    Db,
    /// No record is kept for the derived key.
    NotFound,
    /// Single-user mode is on and the caller's key is not the admin key.
    Unauthorized,
}

/// The one-line message that a response for `e` carries.
pub open spec fn error_message(e: ServiceError) -> Seq<char> {
    match e {
        ServiceError::Db => "Internal server error.\n"@,
        ServiceError::NotFound => "No IP found for that username–password pair.\n"@,
        ServiceError::Unauthorized => "Unauthorized request.\n"@,
    }
}

/// The HTTP status code that a response for `e` carries.
pub open spec fn error_status(e: ServiceError) -> u16 {
    match e {
        ServiceError::Db => 500,
        ServiceError::NotFound => 404,
        ServiceError::Unauthorized => 401,
    }
}

impl ServiceError {
    /// The response text for this error.
    pub fn message(&self) -> (r: String)
        ensures
            r@ == error_message(*self),
    {
        match self {
            ServiceError::Db => "Internal server error.\n".to_owned(),
            ServiceError::NotFound => "No IP found for that username–password pair.\n".to_owned(),
            ServiceError::Unauthorized => "Unauthorized request.\n".to_owned(),
        }
    }

    /// The HTTP status code for this error.
    pub fn status(&self) -> (r: u16)
        ensures
            r == error_status(*self),
    {
        match self {
            ServiceError::Db => 500,
            ServiceError::NotFound => 404,
            ServiceError::Unauthorized => 401,
        }
    }
}

} // verus!
