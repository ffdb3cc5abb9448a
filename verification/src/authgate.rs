//! The guard in front of every protected operation: who is asking,
//! and is their session still honoured.
//!
//! Asking the session store is the one step that leaves the process. Over a
//! store on the network a request is authenticated in two calls, `auth_begin`
//! before the lookup and `auth_finish` after it; `auth` does both against a
//! store in memory.

use crate::errors::AuthError;
use crate::identifier::uuid_hyphenated;
use crate::jwt::{accepted_claims, verify_jwt_token_at};
use crate::primitives::{unix_now, uuid_parsed, uuid_to_string};
use crate::session::{
    reply_of, Command, Records, Reply, SessionStore, StoreCommand, StoreReply,
};
use crate::token::{role_named, Role, TokenDetails};
use vstd::prelude::*;
use vstd::string::{StrSliceExecFns, StringExecFns};

verus! {

/// The identity that a request carries once it has been authenticated.
#[derive(Clone, Debug)]
pub struct JWTAuthMiddleware {
    /// The role entity that owns what the request may touch.
    pub entity_id: String,
    /// The identifier of the access token that was presented.
    pub access_token_uuid: u128,
    /// The role of the entity.
    pub user_type: String,
    /// The account behind the role entity.
    pub user_id: String,
}

impl JWTAuthMiddleware {
    /// The role that the identity acts under, if its user type names one.
    pub fn role(&self) -> (r: Option<Role>)
        ensures
            r == role_named(self.user_type@),
    {
        Role::parse(self.user_type.as_str())
    }
}

/// The token that a request presents: the cookie if there is one, else
/// what follows `Bearer ` in the authorization header.
pub open spec fn presented_token(
    cookie: Option<Seq<char>>,
    authorization: Option<Seq<char>>,
) -> Option<Seq<char>> {
    match cookie {
        Some(value) => Some(value),
        None => match authorization {
            Some(header) => if header.len() >= "Bearer "@.len() && header.subrange(
                0,
                "Bearer "@.len() as int,
            ) == "Bearer "@ {
                Some(header.subrange("Bearer "@.len() as int, header.len() as int))
            } else {
                None
            },
            None => None,
        },
    }
}

/// The content of a text that may be absent.
pub open spec fn text_of(value: Option<String>) -> Option<Seq<char>> {
    match value {
        Some(text) => Some(text@),
        None => None,
    }
}

/// Takes the token out of a request's access cookie or authorization header.
pub fn bearer_token(cookie: Option<String>, authorization: Option<String>) -> (r: Option<String>)
    ensures
        text_of(r) == presented_token(text_of(cookie), text_of(authorization)),
{
    match cookie {
        Some(value) => Some(value),
        None => match authorization {
            Some(header) => {
                let prefix = "Bearer ";
                let width = prefix.unicode_len();
                let length = header.as_str().unicode_len();
                if length < width {
                    return None;
                }
                let head = String::from_str(header.as_str().substring_char(0, width));
                if head == String::from_str(prefix) {
                    Some(String::from_str(header.as_str().substring_char(width, length)))
                } else {
                    None
                }
            },
            None => None,
        },
    }
}

/// A request whose token has been verified and whose session is yet to be
/// looked up.
#[derive(Debug)]
pub struct AuthPending {
    /// What the token's claims said.
    pub details: TokenDetails,
    /// The lookup to send to the session store.
    pub lookup: StoreCommand,
}

/// The key under which the session of a token is recorded.
pub open spec fn session_key(token_uuid: u128) -> Seq<char> {
    uuid_hyphenated(token_uuid)
}

/// The first half of authentication: find the token and verify it at the
/// second `now`.
///
/// A request without a token has no credential; a token that verification
/// does not accept is invalid. Otherwise the claims are handed on together
/// with the lookup of the token's session.
pub fn auth_begin(
    cookie: Option<String>,
    authorization: Option<String>,
    public_key: String,
    now: i64,
) -> (r: Result<AuthPending, AuthError>)
    ensures
        match r {
            Ok(pending) => {
                &&& presented_token(text_of(cookie), text_of(authorization)) matches Some(token)
                &&& accepted_claims(public_key@, token, now as int) matches Some(claims)
                &&& uuid_parsed(claims.token_uuid) == Some(pending.details.token_uuid)
                &&& pending.details.user_id@ == claims.sub
                &&& pending.details.user_type@ == claims.user_type
                &&& pending.details.main_user_id@ == claims.main_user_id
                &&& pending.lookup@ == (Command::Get {
                    key: session_key(pending.details.token_uuid),
                })
            },
            Err(AuthError::NoCredential) => presented_token(
                text_of(cookie),
                text_of(authorization),
            ).is_none(),
            Err(AuthError::TokenInvalid) => presented_token(
                text_of(cookie),
                text_of(authorization),
            ) matches Some(token) && accepted_claims(public_key@, token, now as int).is_none(),
            Err(_) => false,
        },
{
    let token = match bearer_token(cookie, authorization) {
        Some(token) => token,
        None => {
            return Err(AuthError::NoCredential);
        },
    };
    let details = match verify_jwt_token_at(public_key, token.as_str(), now) {
        Ok(details) => details,
        Err(_) => {
            return Err(AuthError::TokenInvalid);
        },
    };
    let lookup = StoreCommand::Get { key: uuid_to_string(details.token_uuid) };
    Ok(AuthPending { details, lookup })
}

/// Why a verified token is turned away after its session was looked up, if
/// it is: no live record revokes the session, a record for another role
/// entity makes the token invalid, and any other answer means that the
/// store could not be asked.
pub open spec fn session_failure(subject: Seq<char>, reply: Reply) -> Option<AuthError> {
    match reply {
        Reply::Found(owner) => if owner == subject {
            None
        } else {
            Some(AuthError::TokenInvalid)
        },
        Reply::Missing => Some(AuthError::SessionRevoked),
        _ => Some(AuthError::StoreUnavailable),
    }
}

/// The second half of authentication: hold the verified claims against the
/// store's answer.
///
/// The identity is produced only when the store holds a live record for
/// the token and that record names the claims' subject; it then repeats
/// the claims.
pub fn auth_finish(details: TokenDetails, reply: StoreReply) -> (r: Result<
    JWTAuthMiddleware,
    AuthError,
>)
    ensures
        match r {
            Ok(identity) => {
                &&& session_failure(details.user_id@, reply@).is_none()
                &&& identity.entity_id@ == details.user_id@
                &&& identity.access_token_uuid == details.token_uuid
                &&& identity.user_type@ == details.user_type@
                &&& identity.user_id@ == details.main_user_id@
            },
            Err(e) => session_failure(details.user_id@, reply@) == Some(e),
        },
{
    match reply {
        StoreReply::Found(owner) => {
            if owner == details.user_id {
                Ok(
                    JWTAuthMiddleware {
                        entity_id: details.user_id,
                        access_token_uuid: details.token_uuid,
                        user_type: details.user_type,
                        user_id: details.main_user_id,
                    },
                )
            } else {
                Err(AuthError::TokenInvalid)
            }
        },
        StoreReply::Missing => Err(AuthError::SessionRevoked),
        _ => Err(AuthError::StoreUnavailable),
    }
}

/// Whether `r` is the outcome of authenticating a request at the second
/// `now` against a store that holds `records` and may be out of reach.
///
/// A request without a token has no credential. A token that verification
/// does not accept is invalid. An accepted token is held against the
/// store's answer about its session, as `session_failure` says: a store
/// out of reach gives no identity. When nothing fails, the identity
/// repeats the claims.
pub open spec fn auth_is_at(
    r: Result<JWTAuthMiddleware, AuthError>,
    records: Records,
    reachable: bool,
    cookie: Option<Seq<char>>,
    authorization: Option<Seq<char>>,
    public_key: Seq<char>,
    now: int,
) -> bool {
    match presented_token(cookie, authorization) {
        None => r == Err::<JWTAuthMiddleware, AuthError>(AuthError::NoCredential),
        Some(token) => match accepted_claims(public_key, token, now) {
            None => r == Err::<JWTAuthMiddleware, AuthError>(AuthError::TokenInvalid),
            Some(claims) => match session_failure(
                claims.sub,
                reply_of(
                    records,
                    reachable,
                    Command::Get { key: session_key(uuid_parsed(claims.token_uuid).unwrap()) },
                    now,
                ),
            ) {
                Some(e) => r == Err::<JWTAuthMiddleware, AuthError>(e),
                None => {
                    &&& r matches Ok(identity)
                    &&& identity.entity_id@ == claims.sub
                    &&& uuid_parsed(claims.token_uuid) == Some(identity.access_token_uuid)
                    &&& identity.user_type@ == claims.user_type
                    &&& identity.user_id@ == claims.main_user_id
                },
            },
        },
    }
}

/// Authenticates a request at the second `now` against a store in memory.
pub fn auth_at(
    store: &SessionStore,
    cookie: Option<String>,
    authorization: Option<String>,
    public_key: String,
    now: i64,
) -> (r: Result<JWTAuthMiddleware, AuthError>)
    requires
        store.wf(),
    ensures
        auth_is_at(
            r,
            store@,
            store.is_reachable(),
            text_of(cookie),
            text_of(authorization),
            public_key@,
            now as int,
        ),
{
    let pending = auth_begin(cookie, authorization, public_key, now)?;
    let reply = match pending.lookup {
        StoreCommand::Get { key } => store.ask(key.as_str(), now),
        _ => StoreReply::Missing,
    };
    auth_finish(pending.details, reply)
}

/// Authenticates a request now against a store in memory. The outcome is
/// that of `auth_at` at some second, which the clock gives.
pub fn auth(
    store: &SessionStore,
    cookie: Option<String>,
    authorization: Option<String>,
    public_key: String,
) -> (r: Result<JWTAuthMiddleware, AuthError>)
    requires
        store.wf(),
    ensures
        exists|now: int|
            i64::MIN <= now <= i64::MAX && #[trigger] auth_is_at(
                r,
                store@,
                store.is_reachable(),
                text_of(cookie),
                text_of(authorization),
                public_key@,
                now,
            ),
{
    let now = unix_now();
    let r = auth_at(store, cookie, authorization, public_key, now);
    proof {
        assert(auth_is_at(
            r,
            store@,
            store.is_reachable(),
            text_of(cookie),
            text_of(authorization),
            public_key@,
            now as int,
        ));
    }
    r
}

} // verus!
