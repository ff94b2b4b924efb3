use vstd::prelude::*;

verus! {

/// The error taxonomy of the authentication service.  Every failure a
/// handler can report is one of these; internal detail (store or signing
/// errors) is collapsed into the generic variants and never leaks out.
#[derive(Clone, Copy, Debug, PartialEq, Eq, Structural)]
pub enum AuthError {
    WrongCredentials,
    MissingCredentials,
    TokenCreation,
    InvalidToken,
    NotAcceptable,
    InternalServerError,
}

impl AuthError {
    /// The HTTP status code this error maps to.
    pub open spec fn spec_status_code(self) -> u16 {
        match self {
            AuthError::WrongCredentials => 401,
            AuthError::MissingCredentials => 400,
            AuthError::TokenCreation => 500,
            AuthError::InvalidToken => 400,
            AuthError::NotAcceptable => 406,
            AuthError::InternalServerError => 500,
        }
    }

    /// The message carried in the uniform `{"error": ...}` response body.
    pub open spec fn spec_message(self) -> Seq<char> {
        match self {
            AuthError::WrongCredentials => "Wrong credentials"@,
            AuthError::MissingCredentials => "Missing credentials"@,
            AuthError::TokenCreation => "Token creation error"@,
            AuthError::InvalidToken => "Invalid token"@,
            AuthError::NotAcceptable => "Not Acceptable"@,
            AuthError::InternalServerError => "Internal server error"@,
        }
    }

    pub fn status_code(&self) -> (r: u16)
        ensures
            r == self.spec_status_code(),
    {
        match self {
            AuthError::WrongCredentials => 401,
            AuthError::MissingCredentials => 400,
            AuthError::TokenCreation => 500,
            AuthError::InvalidToken => 400,
            AuthError::NotAcceptable => 406,
            AuthError::InternalServerError => 500,
        }
    }

    pub fn error_message(&self) -> (r: String)
        ensures
            r@ == self.spec_message(),
    {
        match self {
            AuthError::WrongCredentials => "Wrong credentials".to_owned(),
            AuthError::MissingCredentials => "Missing credentials".to_owned(),
            AuthError::TokenCreation => "Token creation error".to_owned(),
            AuthError::InvalidToken => "Invalid token".to_owned(),
            AuthError::NotAcceptable => "Not Acceptable".to_owned(),
            AuthError::InternalServerError => "Internal server error".to_owned(),
        }
    }
}

} // verus!
