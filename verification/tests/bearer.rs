use authorization::authgate::bearer_token;
use authorization::login::{login_response, login_session};
use authorization::logout::logout_cookies;
use authorization::errors::Error;
use authorization::jwt::{
    delete_token_data_in_redis, save_token_data_to_redis, token_deleted, token_expiry,
    token_saved,
};
use authorization::session::{StoreCommand, StoreReply};
use authorization::token::TokenDetails;

fn details(id: u128) -> TokenDetails {
    TokenDetails {
        token: None,
        token_uuid: id,
        user_id: "gym:g1".to_string(),
        main_user_id: "user:u1".to_string(),
        expires_in: None,
        user_type: "gym".to_string(),
    }
}

#[test]
fn cookie_comes_before_the_header() {
    let r = bearer_token(Some("from-cookie".to_string()), Some("Bearer from-header".to_string()));
    assert_eq!(r, Some("from-cookie".to_string()));
}

#[test]
fn header_gives_what_follows_bearer() {
    assert_eq!(bearer_token(None, Some("Bearer abc.def".to_string())), Some("abc.def".to_string()));
    assert_eq!(bearer_token(None, Some("Bearer ".to_string())), Some(String::new()));
    assert_eq!(bearer_token(None, Some("Bearer  x".to_string())), Some(" x".to_string()));
    assert_eq!(bearer_token(None, Some("Bearer \u{e9}t\u{e9}".to_string())), Some("\u{e9}t\u{e9}".to_string()));
}

#[test]
fn header_of_another_scheme_gives_nothing() {
    assert_eq!(bearer_token(None, Some("bearer abc".to_string())), None);
    assert_eq!(bearer_token(None, Some("Bearer".to_string())), None);
    assert_eq!(bearer_token(None, Some("Basic abc".to_string())), None);
    assert_eq!(bearer_token(None, Some(String::new())), None);
    assert_eq!(bearer_token(None, Some("\u{e9}\u{e9}\u{e9}\u{e9}\u{e9}\u{e9}\u{e9}\u{e9}".to_string())), None);
    assert_eq!(bearer_token(None, None), None);
}

#[test]
fn expiry_is_sixty_seconds_a_minute_after_now() {
    assert_eq!(token_expiry(1_700_000_000, 60), Some(1_700_003_600));
    assert_eq!(token_expiry(0, 0), Some(0));
    assert_eq!(token_expiry(100, -1), Some(40));
    assert_eq!(token_expiry(i64::MAX, 0), Some(i64::MAX));
    assert_eq!(token_expiry(i64::MAX - 59, 1), None);
    assert_eq!(token_expiry(i64::MAX - 60, 1), Some(i64::MAX));
    assert_eq!(token_expiry(0, i64::MAX), None);
    assert_eq!(token_expiry(i64::MIN, 1), Some(i64::MIN + 60));
    assert_eq!(token_expiry(i64::MIN, -1), None);
    assert_eq!(token_expiry(-60 * (i64::MAX / 60), i64::MAX / 60), Some(0));
}

#[test]
fn session_is_recorded_for_one_second_more_than_its_minutes() {
    match save_token_data_to_redis(&details(0xff), 2).unwrap() {
        StoreCommand::Put { key, value, seconds } => {
            assert_eq!(key, "00000000-0000-0000-0000-0000000000ff");
            assert_eq!(value, "gym:g1");
            assert_eq!(seconds, 121);
        }
        other => panic!("unexpected {:?}", other),
    }
    match save_token_data_to_redis(&details(u128::MAX), 1).unwrap() {
        StoreCommand::Put { key, .. } => assert_eq!(key, "ffffffff-ffff-ffff-ffff-ffffffffffff"),
        other => panic!("unexpected {:?}", other),
    }
    match save_token_data_to_redis(&details(0x0123456789abcdef_fedcba9876543210), 1).unwrap() {
        StoreCommand::Put { key, .. } => assert_eq!(key, "01234567-89ab-cdef-fedc-ba9876543210"),
        other => panic!("unexpected {:?}", other),
    }
}

#[test]
fn session_lifetime_that_cannot_be_counted_is_refused() {
    assert!(matches!(save_token_data_to_redis(&details(1), 0), Err(Error::DatabaseError(_))));
    assert!(matches!(save_token_data_to_redis(&details(1), -5), Err(Error::DatabaseError(_))));
    assert!(matches!(
        save_token_data_to_redis(&details(1), i64::MAX),
        Err(Error::DatabaseError(_))
    ));
    let longest = ((u64::MAX - 1) / 60) as i64;
    match save_token_data_to_redis(&details(1), longest).unwrap() {
        StoreCommand::Put { seconds, .. } => assert_eq!(seconds, 60 * ((u64::MAX - 1) / 60) + 1),
        other => panic!("unexpected {:?}", other),
    }
    assert!(matches!(
        save_token_data_to_redis(&details(1), longest + 1),
        Err(Error::DatabaseError(_))
    ));
}

#[test]
fn only_stored_confirms_a_put() {
    assert!(token_saved(StoreReply::Stored).is_ok());
    match token_saved(StoreReply::Unavailable("timeout".to_string())) {
        Err(Error::DatabaseError(m)) => assert_eq!(m, "Failed to store token in Redis: timeout"),
        other => panic!("unexpected {:?}", other),
    }
    assert!(matches!(token_saved(StoreReply::Deleted), Err(Error::DatabaseError(_))));
    assert!(matches!(token_saved(StoreReply::Missing), Err(Error::DatabaseError(_))));
    assert!(matches!(
        token_saved(StoreReply::Found("x".to_string())),
        Err(Error::DatabaseError(_))
    ));
}

#[test]
fn only_deleted_confirms_a_delete() {
    assert!(token_deleted(StoreReply::Deleted).is_ok());
    match token_deleted(StoreReply::Unavailable("timeout".to_string())) {
        Err(Error::DatabaseError(m)) => assert_eq!(m, "Failed to delete token in Redis: timeout"),
        other => panic!("unexpected {:?}", other),
    }
    assert!(matches!(token_deleted(StoreReply::Stored), Err(Error::DatabaseError(_))));
    assert!(matches!(token_deleted(StoreReply::Missing), Err(Error::DatabaseError(_))));
}

#[test]
fn delete_command_carries_the_key() {
    match delete_token_data_in_redis("some-key".to_string()) {
        StoreCommand::Delete { key } => assert_eq!(key, "some-key"),
        other => panic!("unexpected {:?}", other),
    }
}

#[test]
fn logout_cookies_are_already_expired() {
    let cookies = logout_cookies();
    assert_eq!(cookies.len(), 3);
    for c in &cookies {
        assert_eq!(c.path, "/");
        assert_eq!(c.max_age, -60);
        assert_eq!(c.same_site, authorization::login::SameSite::Lax);
    }
    assert_eq!(cookies[0].name, "access_token");
    assert_eq!(cookies[0].value, "");
    assert!(cookies[0].http_only);
    assert_eq!(cookies[1].name, "refresh_token");
    assert_eq!(cookies[1].value, "");
    assert!(cookies[1].http_only);
    assert_eq!(cookies[2].name, "logged_in");
    assert_eq!(cookies[2].value, "true");
    assert!(!cookies[2].http_only);
}

#[test]
fn login_response_repeats_the_access_token() {
    let mut access = details(1);
    access.token = Some("aaa".to_string());
    let mut refresh = details(2);
    refresh.token = Some("rrr".to_string());
    let session = login_session(access, refresh).unwrap();
    let response = login_response(&session);
    assert_eq!(response.access_token, "aaa");
    assert_eq!(response.user_id, "user:u1");
    assert_eq!(response.user_type, "gym");
    assert_eq!(response.cookies[0].value, "aaa");
    assert_eq!(response.cookies[1].value, "rrr");
    assert_eq!(response.cookies[2].value, "true");
}

#[test]
fn login_session_needs_signed_tokens() {
    let mut access = details(1);
    access.token = Some("aaa".to_string());
    let refresh = details(2);
    assert!(matches!(
        login_session(access, refresh),
        Err(Error::TokenError(_))
    ));
}
