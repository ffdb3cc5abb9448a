use vstd::prelude::*;
use vstd::string::StringExecFns;

verus! {

/// What can go wrong anywhere in the service. Most variants carry the
/// message of the component that failed.
#[derive(Clone, Debug)]
pub enum Error {
    LoginFail,
    DatabaseError(String),
    DataExist(String),
    DataNotAvaliable(String),
    TokenError(String),
    DecodeError(String),
    StringError(String),
    UserUnauthorized(String),
    SmtpProcessingError(String),
    UserNotVerified(String),
    UploadProcessingError(String),
    CloudAuthError(String),
    InvalidUserType(String),
}

impl Error {
    /// The HTTP status that the error is answered with.
    pub open spec fn status(self) -> u16 {
        match self {
            Error::LoginFail => 401,
            Error::DatabaseError(_) => 500,
            Error::DataExist(_) => 406,
            Error::DataNotAvaliable(_) => 404,
            Error::TokenError(_) => 401,
            Error::DecodeError(_) => 403,
            Error::StringError(_) => 403,
            Error::UserUnauthorized(_) => 401,
            Error::SmtpProcessingError(_) => 500,
            Error::UserNotVerified(_) => 406,
            Error::UploadProcessingError(_) => 500,
            Error::CloudAuthError(_) => 500,
            Error::InvalidUserType(_) => 403,
        }
    }

    /// The text that the error is answered with.
    pub open spec fn text(self) -> Seq<char> {
        match self {
            Error::LoginFail => "Login failed"@,
            Error::DatabaseError(m) => "There was a problem with the database: "@ + m@,
            Error::DataExist(m) => m@ + " already registered"@,
            Error::DataNotAvaliable(m) => m@ + " Not Available"@,
            Error::TokenError(m) => m@,
            Error::DecodeError(m) => m@,
            Error::StringError(m) => m@,
            Error::UserUnauthorized(m) => m@,
            Error::SmtpProcessingError(m) => m@,
            Error::UserNotVerified(m) => m@,
            Error::UploadProcessingError(m) => m@,
            Error::CloudAuthError(m) => m@,
            Error::InvalidUserType(m) => m@,
        }
    }

    /// The HTTP status that the error is answered with.
    pub fn status_code(&self) -> (code: u16)
        ensures
            code == self.status(),
    {
        match self {
            Error::LoginFail => 401,
            Error::DatabaseError(_) => 500,
            Error::DataExist(_) => 406,
            Error::DataNotAvaliable(_) => 404,
            Error::TokenError(_) => 401,
            Error::DecodeError(_) => 403,
            Error::StringError(_) => 403,
            Error::UserUnauthorized(_) => 401,
            Error::SmtpProcessingError(_) => 500,
            Error::UserNotVerified(_) => 406,
            Error::UploadProcessingError(_) => 500,
            Error::CloudAuthError(_) => 500,
            Error::InvalidUserType(_) => 403,
        }
    }

    /// The text that the error is answered with.
    pub fn message(&self) -> (out: String)
        ensures
            out@ == self.text(),
    {
        match self {
            Error::LoginFail => String::from_str("Login failed"),
            Error::DatabaseError(m) => String::from_str(
                "There was a problem with the database: ",
            ).concat(m.as_str()),
            Error::DataExist(m) => m.clone().concat(" already registered"),
            Error::DataNotAvaliable(m) => m.clone().concat(" Not Available"),
            Error::TokenError(m) => m.clone(),
            Error::DecodeError(m) => m.clone(),
            Error::StringError(m) => m.clone(),
            Error::UserUnauthorized(m) => m.clone(),
            Error::SmtpProcessingError(m) => m.clone(),
            Error::UserNotVerified(m) => m.clone(),
            Error::UploadProcessingError(m) => m.clone(),
            Error::CloudAuthError(m) => m.clone(),
            Error::InvalidUserType(m) => m.clone(),
        }
    }
}

/// The four ways in which a request can fail to authenticate.
#[derive(Clone, Copy, Debug, PartialEq, Eq, Structural)]
pub enum AuthError {
    /// No token was presented.
    NoCredential,
    /// The token failed verification, or disagrees with its session record.
    TokenInvalid,
    /// No live session record exists for the token.
    SessionRevoked,
    /// The session store could not be reached.
    StoreUnavailable,
}

impl AuthError {
    /// The HTTP status that a rejected request is answered with. It is the
    /// same for every reason, so that the answer does not tell which check
    /// failed.
    pub fn status_code(&self) -> (code: u16)
        ensures
            code == 401,
    {
        401
    }

    /// The text that a rejected request is answered with, the same for
    /// every reason.
    pub fn message(&self) -> (out: String)
        ensures
            out@ == "unauthenticated"@,
    {
        String::from_str("unauthenticated")
    }

    /// The error under which the failure is recorded inside the service.
    pub fn to_error(&self) -> (e: Error)
        ensures
            match *self {
                AuthError::NoCredential => e matches Error::TokenError(m) && m@
                    == "You are not logged in, please provide token"@,
                AuthError::TokenInvalid => e matches Error::TokenError(m) && m@
                    == "fail: Invalid token"@,
                AuthError::SessionRevoked => e matches Error::TokenError(m) && m@
                    == "fail: Token is invalid or session has expired"@,
                AuthError::StoreUnavailable => e matches Error::DatabaseError(m) && m@
                    == "Redis error"@,
            },
    {
        match self {
            AuthError::NoCredential => Error::TokenError(
                String::from_str("You are not logged in, please provide token"),
            ),
            AuthError::TokenInvalid => Error::TokenError(String::from_str("fail: Invalid token")),
            AuthError::SessionRevoked => Error::TokenError(
                String::from_str("fail: Token is invalid or session has expired"),
            ),
            AuthError::StoreUnavailable => Error::DatabaseError(String::from_str("Redis error")),
        }
    }
}

} // verus!
