//! Logging out: both tokens of a login lose their session records.
//!
//! Over a store on the network a logout is `logout_begin`, the two
//! deletions sent to the store and read with `token_deleted`, and
//! `logout_cookies`; `logout_user` does all of it against a store in memory.

use crate::authgate::{session_key, text_of, JWTAuthMiddleware};
use crate::errors::Error;
use crate::jwt::{
    accepted_claims, delete_token_data_in_redis, token_deleted, verified_at,
    verify_jwt_token_at,
};
use crate::login::{cookie, cookie_is, SessionCookie};
use crate::primitives::{unix_now, uuid_parsed, uuid_to_string};
use crate::session::{unreachable_text, Command, Records, SessionStore, StoreCommand};
use crate::token::TokenDetails;
use vstd::prelude::*;
use vstd::string::StringExecFns;

verus! {

/// How many seconds the logout cookies ask for, which makes a browser drop them.
pub const EXPIRED_COOKIE_SECONDS: i64 = -60;

/// The cookies of a logout: the three login cookies, the two tokens
/// emptied, all three already expired.
pub open spec fn logout_cookies_are(cookies: Seq<SessionCookie>) -> bool {
    &&& cookies.len() == 3
    &&& cookie_is(cookies[0], "access_token"@, EXPIRED_COOKIE_SECONDS as int, true)
    &&& cookies[0].value@ == Seq::<char>::empty()
    &&& cookie_is(cookies[1], "refresh_token"@, EXPIRED_COOKIE_SECONDS as int, true)
    &&& cookies[1].value@ == Seq::<char>::empty()
    &&& cookie_is(cookies[2], "logged_in"@, EXPIRED_COOKIE_SECONDS as int, false)
    &&& cookies[2].value@ == "true"@
}

/// The cookies that a logout answers with.
pub fn logout_cookies() -> (cookies: Vec<SessionCookie>)
    ensures
        logout_cookies_are(cookies@),
{
    let mut cookies: Vec<SessionCookie> = Vec::new();
    cookies.push(cookie("access_token", String::new(), EXPIRED_COOKIE_SECONDS, true));
    cookies.push(cookie("refresh_token", String::new(), EXPIRED_COOKIE_SECONDS, true));
    cookies.push(cookie("logged_in", String::from_str("true"), EXPIRED_COOKIE_SECONDS, false));
    cookies
}

/// What a logout without a refresh cookie is answered with.
pub open spec fn missing_refresh_text() -> Seq<char> {
    "{\"message\":\"Token is invalid or session has expired\",\"status\":\"fail\"}"@
}

/// Whether `e` is the error that refuses a logout at the second `now`: a
/// missing refresh cookie has its own text, and a refresh token that
/// verification does not accept is refused with verification's error.
pub open spec fn logout_refused_as(
    e: Error,
    refresh_cookie: Option<Seq<char>>,
    refresh_public_key: Seq<char>,
    now: int,
) -> bool {
    match refresh_cookie {
        None => e matches Error::TokenError(what) && what@ == missing_refresh_text(),
        Some(token) => verified_at(Err::<TokenDetails, Error>(e), refresh_public_key, token, now),
    }
}

/// The two deletions of a logout: the refresh token's record, then the
/// access token's.
#[derive(Debug)]
pub struct LogoutPending {
    pub delete_refresh: StoreCommand,
    pub delete_access: StoreCommand,
}

/// The first half of a logout, at the second `now`.
///
/// The caller has been authenticated, which gave `jwt`. The refresh token
/// comes from its cookie and is verified under the refresh key; a logout
/// without the cookie, or with a refresh token that verification does not
/// accept, is refused. Otherwise both tokens' records are to be deleted.
pub fn logout_begin(
    refresh_cookie: Option<String>,
    jwt: &JWTAuthMiddleware,
    refresh_public_key: String,
    now: i64,
) -> (r: Result<LogoutPending, Error>)
    ensures
        match logout_outcome(
            Map::empty(),
            text_of(refresh_cookie),
            jwt.access_token_uuid,
            refresh_public_key@,
            now as int,
        ) {
            Some(_) => {
                &&& r matches Ok(pending)
                &&& text_of(refresh_cookie) matches Some(token)
                &&& accepted_claims(refresh_public_key@, token, now as int) matches Some(claims)
                &&& uuid_parsed(claims.token_uuid) matches Some(refresh_uuid)
                &&& pending.delete_refresh@ == (Command::Delete { key: session_key(refresh_uuid) })
                &&& pending.delete_access@ == (Command::Delete {
                    key: session_key(jwt.access_token_uuid),
                })
            },
            None => r matches Err(e) && logout_refused_as(
                e,
                text_of(refresh_cookie),
                refresh_public_key@,
                now as int,
            ),
        },
{
    let refresh_token = match refresh_cookie {
        Some(token) => token,
        None => {
            return Err(
                Error::TokenError(
                    String::from_str(
                        "{\"message\":\"Token is invalid or session has expired\",\"status\":\"fail\"}",
                    ),
                ),
            );
        },
    };
    let refresh = verify_jwt_token_at(refresh_public_key, refresh_token.as_str(), now)?;
    Ok(
        LogoutPending {
            delete_refresh: delete_token_data_in_redis(uuid_to_string(refresh.token_uuid)),
            delete_access: delete_token_data_in_redis(uuid_to_string(jwt.access_token_uuid)),
        },
    )
}

/// The content of a store after a logout: neither token has a record.
pub open spec fn logged_out(records: Records, refresh_uuid: u128, access_uuid: u128) -> Records {
    records.remove(session_key(refresh_uuid)).remove(session_key(access_uuid))
}

/// What a logout at the second `now` does to a store: nothing is said when
/// the logout is refused, which is when the refresh cookie is missing or
/// verification does not accept its token.
pub open spec fn logout_outcome(
    records: Records,
    refresh_cookie: Option<Seq<char>>,
    access_uuid: u128,
    refresh_public_key: Seq<char>,
    now: int,
) -> Option<Records> {
    match refresh_cookie {
        Some(token) => match accepted_claims(refresh_public_key, token, now) {
            Some(claims) => match uuid_parsed(claims.token_uuid) {
                Some(refresh_uuid) => Some(logged_out(records, refresh_uuid, access_uuid)),
                None => None,
            },
            None => None,
        },
        None => None,
    }
}

/// Whether `r` and the store's content `after` are the outcome of a logout
/// at the second `now` against a store that held `before` and may be out
/// of reach: where `logout_outcome` says what the store then holds, the
/// logout answers with the cookies of a logout and leaves that, unless the
/// store is out of reach; otherwise it is refused with the error that
/// `logout_refused_as` gives. A logout that fails leaves the store as it
/// was.
pub open spec fn logout_is_at(
    r: Result<Vec<SessionCookie>, Error>,
    before: Records,
    reachable: bool,
    after: Records,
    refresh_cookie: Option<Seq<char>>,
    access_uuid: u128,
    refresh_public_key: Seq<char>,
    now: int,
) -> bool {
    match logout_outcome(before, refresh_cookie, access_uuid, refresh_public_key, now) {
        Some(expected) => if reachable {
            r matches Ok(cookies) && logout_cookies_are(cookies@) && after == expected
        } else {
            r matches Err(Error::DatabaseError(what)) && what@
                == "Failed to delete token in Redis: "@ + unreachable_text() && after == before
        },
        None => r matches Err(e) && logout_refused_as(e, refresh_cookie, refresh_public_key, now)
            && after == before,
    }
}

/// Logs an account out at the second `now`, against a store in memory.
///
/// The logout succeeds exactly when the refresh cookie is there and
/// verification accepts its token. The store then holds no record for
/// either token, whether or not it held one before; after a failure it
/// holds what it held before.
pub fn logout_user_at(
    store: &mut SessionStore,
    refresh_cookie: Option<String>,
    jwt: &JWTAuthMiddleware,
    refresh_public_key: String,
    now: i64,
) -> (r: Result<Vec<SessionCookie>, Error>)
    requires
        old(store).wf(),
    ensures
        final(store).wf(),
        final(store).is_reachable() == old(store).is_reachable(),
        logout_is_at(
            r,
            old(store)@,
            old(store).is_reachable(),
            final(store)@,
            text_of(refresh_cookie),
            jwt.access_token_uuid,
            refresh_public_key@,
            now as int,
        ),
{
    let pending = logout_begin(refresh_cookie, jwt, refresh_public_key, now)?;
    let first = store.execute(pending.delete_refresh, now);
    let second = store.execute(pending.delete_access, now);
    match token_deleted(first) {
        Ok(_) => {},
        Err(e) => {
            return Err(e);
        },
    }
    match token_deleted(second) {
        Ok(_) => {},
        Err(e) => {
            return Err(e);
        },
    }
    Ok(logout_cookies())
}

/// Logs an account out now, against a store in memory. The outcome is
/// that of `logout_user_at` at some second, which the clock gives.
pub fn logout_user(
    store: &mut SessionStore,
    refresh_cookie: Option<String>,
    jwt: &JWTAuthMiddleware,
    refresh_public_key: String,
) -> (r: Result<Vec<SessionCookie>, Error>)
    requires
        old(store).wf(),
    ensures
        final(store).wf(),
        final(store).is_reachable() == old(store).is_reachable(),
        exists|now: int|
            i64::MIN <= now <= i64::MAX && #[trigger] logout_is_at(
                r,
                old(store)@,
                old(store).is_reachable(),
                final(store)@,
                text_of(refresh_cookie),
                jwt.access_token_uuid,
                refresh_public_key@,
                now,
            ),
{
    let now = unix_now();
    let r = logout_user_at(store, refresh_cookie, jwt, refresh_public_key, now);
    proof {
        assert(logout_is_at(
            r,
            old(store)@,
            old(store).is_reachable(),
            store@,
            text_of(refresh_cookie),
            jwt.access_token_uuid,
            refresh_public_key@,
            now as int,
        ));
    }
    r
}

} // verus!
