use vstd::prelude::*;

verus! {

/// A response body with a `data` field.
#[derive(Clone, Debug, PartialEq, Eq)]
pub struct GenericResponse<T> {
    pub data: T,
}

/// A response body that reports success with a message.
#[derive(Clone, Debug, PartialEq, Eq)]
pub struct SuccessResponse {
    pub message: String,
}

impl SuccessResponse {
    pub fn new(message: String) -> (r: SuccessResponse)
        ensures
            r.message == message,
    {
        SuccessResponse { message }
    }
}

impl From<String> for SuccessResponse {
    fn from(message: String) -> (r: SuccessResponse) {
        SuccessResponse { message }
    }
}

impl vstd::std_specs::convert::FromSpecImpl<String> for SuccessResponse {
    open spec fn obeys_from_spec() -> bool {
        true
    }

    open spec fn from_spec(message: String) -> SuccessResponse {
        SuccessResponse { message }
    }
}

/// A response body that reports an error with a message.
#[derive(Clone, Debug, PartialEq, Eq)]
pub struct ErrorResponse {
    pub error: String,
}

impl ErrorResponse {
    pub fn new(error: String) -> (r: ErrorResponse)
        ensures
            r.error == error,
    {
        ErrorResponse { error }
    }
}

impl From<String> for ErrorResponse {
    fn from(error: String) -> (r: ErrorResponse) {
        ErrorResponse { error }
    }
}

impl vstd::std_specs::convert::FromSpecImpl<String> for ErrorResponse {
    open spec fn obeys_from_spec() -> bool {
        true
    }

    open spec fn from_spec(error: String) -> ErrorResponse {
        ErrorResponse { error }
    }
}

/// The signed-in user's profile.
#[derive(Clone, Debug, PartialEq, Eq)]
pub struct Profile {
    pub username: String,
}

/// The body of the identity check.
#[derive(Clone, Debug, PartialEq, Eq)]
pub struct CheckAuthResponse {
    pub profile: Profile,
}

} // verus!
