use vstd::prelude::*;

verus! {

/// Errors of the library's own making.
#[derive(Debug, Clone, PartialEq, Eq)]
pub enum KickApiError {
    /// An argument was not acceptable.
    InvalidInput(String),
    /// The API answered with an error, or could not be used.
    ApiError(String),
    /// Something happened that the protocol does not allow.
    UnexpectedError(String),
}

impl KickApiError {
    /// The error's message, prefixed with its kind.
    pub fn message(&self) -> (r: String)
        ensures
            r@ == self.message_spec(),
    {
        let (head, body) = match self {
            KickApiError::InvalidInput(m) => ("Invalid input: ", m),
            KickApiError::ApiError(m) => ("API returned an error: ", m),
            KickApiError::UnexpectedError(m) => ("Unexpected error: ", m),
        };
        let mut r = String::from_str(head);
        r.append(body.as_str());
        r
    }

    pub open spec fn message_spec(&self) -> Seq<char> {
        match self {
            KickApiError::InvalidInput(m) => "Invalid input: "@ + m@,
            KickApiError::ApiError(m) => "API returned an error: "@ + m@,
            KickApiError::UnexpectedError(m) => "Unexpected error: "@ + m@,
        }
    }
}

} // verus!
