//! Requests to the planner's server: whether the stored identity token may
//! be sent, and what a failed request leads to.

use vstd::prelude::*;
use vstd::string::*;

verus! {

/// Why a request could not be made or failed. The texts say what the
/// storage, the token reader or the address parser reported.
pub enum CustomError {
    TokenNotFound(String),
    BadToken(String),
    TokenExpired,
    BadUrl(String),
    FailedRequest,
}

/// How the errors begin in the log.
pub const TOKEN_NOT_FOUND: &'static str = "TokenNotFound: ";
pub const BAD_TOKEN: &'static str = "BadToken: ";
pub const TOKEN_EXPIRED: &'static str = "TokenExpired";
pub const BAD_URL: &'static str = "BadUrl: ";
pub const FAILED_REQUEST: &'static str = "FailedRequest";

/// How an error is written in the log.
pub open spec fn custom_error_text(e: CustomError) -> Seq<char> {
    match e {
        CustomError::TokenNotFound(m) => TOKEN_NOT_FOUND@ + m@,
        CustomError::BadToken(m) => BAD_TOKEN@ + m@,
        CustomError::TokenExpired => TOKEN_EXPIRED@,
        CustomError::BadUrl(m) => BAD_URL@ + m@,
        CustomError::FailedRequest => FAILED_REQUEST@,
    }
}

impl CustomError {
    /// How the error is written in the log.
    pub fn message(&self) -> (m: String)
        ensures
            m@ == custom_error_text(*self),
    {
        match self {
            CustomError::TokenNotFound(e) => {
                let mut m = String::from_str(TOKEN_NOT_FOUND);
                m.append(e.as_str());
                m
            },
            CustomError::BadToken(e) => {
                let mut m = String::from_str(BAD_TOKEN);
                m.append(e.as_str());
                m
            },
            CustomError::TokenExpired => String::from_str(TOKEN_EXPIRED),
            CustomError::BadUrl(e) => {
                let mut m = String::from_str(BAD_URL);
                m.append(e.as_str());
                m
            },
            CustomError::FailedRequest => String::from_str(FAILED_REQUEST),
        }
    }
}

/// What reading the stored identity token gave.
pub enum TokenCheck {
    /// The token could not be read as a token; what the reader reported.
    Unreadable(String),
    /// The token's claims could not be read.
    ClaimsUnreadable,
    /// The token's claims were read; whether it has expired by now.
    Claims(bool),
}

/// Whether a request may carry the stored token: `Ok` with the token when
/// it was found, read and has not expired; else why not, and whether the
/// stored token is to be deleted (when it cannot be read or has expired).
pub fn check_auth_token(stored: Result<String, String>, check: TokenCheck) -> (r: (Result<String, CustomError>, bool))
    ensures
        match stored {
            Err(e) => r.0 matches Err(CustomError::TokenNotFound(m)) && m@ == e@ && !r.1,
            Ok(token) => match check {
                TokenCheck::Unreadable(e) => r.0 matches Err(CustomError::BadToken(m)) && m@ == e@ && r.1,
                TokenCheck::ClaimsUnreadable => r.0 matches Err(CustomError::TokenExpired) && !r.1,
                TokenCheck::Claims(expired) => if expired {
                    r.0 matches Err(CustomError::TokenExpired) && r.1
                } else {
                    r.0 matches Ok(t) && t@ == token@ && !r.1
                },
            },
        },
{
    match stored {
        Err(e) => (Err(CustomError::TokenNotFound(e)), false),
        Ok(token) => match check {
            TokenCheck::Unreadable(e) => (Err(CustomError::BadToken(e)), true),
            TokenCheck::ClaimsUnreadable => (Err(CustomError::TokenExpired), false),
            TokenCheck::Claims(expired) => if expired {
                (Err(CustomError::TokenExpired), true)
            } else {
                (Ok(token), false)
            },
        },
    }
}

/// What a failed request leads to.
pub enum ErrorResponse {
    /// Sign in again.
    Login,
    /// Write this in the log.
    Log(String),
}

/// A missing, unreadable or expired token sends the user to sign in again;
/// an address that cannot be parsed is logged with what the parser
/// reported, and a failed request as such.
pub fn handle_error(e: CustomError) -> (r: ErrorResponse)
    ensures
        match e {
            CustomError::TokenNotFound(_) | CustomError::BadToken(_) | CustomError::TokenExpired => r is Login,
            CustomError::BadUrl(m) => r matches ErrorResponse::Log(t) && t@ == m@,
            CustomError::FailedRequest => r matches ErrorResponse::Log(t) && t@ == "request failed"@,
        },
{
    match e {
        CustomError::TokenNotFound(_) | CustomError::BadToken(_) | CustomError::TokenExpired => {
            ErrorResponse::Login
        },
        CustomError::BadUrl(m) => ErrorResponse::Log(m),
        CustomError::FailedRequest => ErrorResponse::Log(String::from_str("request failed")),
    }
}

} // verus!
