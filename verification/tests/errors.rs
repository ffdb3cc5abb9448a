use authorization::errors::{AuthError, Error};

#[test]
fn every_error_has_its_status() {
    let m = || "x".to_string();
    assert_eq!(Error::LoginFail.status_code(), 401);
    assert_eq!(Error::DatabaseError(m()).status_code(), 500);
    assert_eq!(Error::DataExist(m()).status_code(), 406);
    assert_eq!(Error::DataNotAvaliable(m()).status_code(), 404);
    assert_eq!(Error::TokenError(m()).status_code(), 401);
    assert_eq!(Error::DecodeError(m()).status_code(), 403);
    assert_eq!(Error::StringError(m()).status_code(), 403);
    assert_eq!(Error::UserUnauthorized(m()).status_code(), 401);
    assert_eq!(Error::SmtpProcessingError(m()).status_code(), 500);
    assert_eq!(Error::UserNotVerified(m()).status_code(), 406);
    assert_eq!(Error::UploadProcessingError(m()).status_code(), 500);
    assert_eq!(Error::CloudAuthError(m()).status_code(), 500);
    assert_eq!(Error::InvalidUserType(m()).status_code(), 403);
}

#[test]
fn every_error_has_its_message() {
    assert_eq!(Error::LoginFail.message(), "Login failed");
    assert_eq!(
        Error::DatabaseError("down".to_string()).message(),
        "There was a problem with the database: down"
    );
    assert_eq!(
        Error::DataExist("email:a@b.c".to_string()).message(),
        "email:a@b.c already registered"
    );
    assert_eq!(Error::DataNotAvaliable("User".to_string()).message(), "User Not Available");
    assert_eq!(Error::TokenError("bad token".to_string()).message(), "bad token");
    assert_eq!(Error::DecodeError("bad base64".to_string()).message(), "bad base64");
    assert_eq!(Error::StringError("bad text".to_string()).message(), "bad text");
    assert_eq!(Error::UserUnauthorized("no".to_string()).message(), "no");
    assert_eq!(Error::SmtpProcessingError("smtp".to_string()).message(), "smtp");
    assert_eq!(Error::UserNotVerified("wait".to_string()).message(), "wait");
    assert_eq!(Error::UploadProcessingError("up".to_string()).message(), "up");
    assert_eq!(Error::CloudAuthError("cloud".to_string()).message(), "cloud");
    assert_eq!(Error::InvalidUserType("type".to_string()).message(), "type");
}

#[test]
fn rejections_do_not_tell_their_reason() {
    let all = [
        AuthError::NoCredential,
        AuthError::TokenInvalid,
        AuthError::SessionRevoked,
        AuthError::StoreUnavailable,
    ];
    for e in all {
        assert_eq!(e.status_code(), 401);
        assert_eq!(e.message(), "unauthenticated");
    }
}

#[test]
fn rejections_are_recorded_with_their_reason() {
    match AuthError::NoCredential.to_error() {
        Error::TokenError(m) => assert_eq!(m, "You are not logged in, please provide token"),
        other => panic!("unexpected {:?}", other),
    }
    match AuthError::TokenInvalid.to_error() {
        Error::TokenError(m) => assert_eq!(m, "fail: Invalid token"),
        other => panic!("unexpected {:?}", other),
    }
    match AuthError::SessionRevoked.to_error() {
        Error::TokenError(m) => assert_eq!(m, "fail: Token is invalid or session has expired"),
        other => panic!("unexpected {:?}", other),
    }
    match AuthError::StoreUnavailable.to_error() {
        Error::DatabaseError(m) => assert_eq!(m, "Redis error"),
        other => panic!("unexpected {:?}", other),
    }
}
