//! Logging in: two tokens for one role entity, and a session record for each.
//!
//! Over a store on the network a login is `login_begin`, the lookup of the
//! profile, `login_tokens`, the two commands sent to the store and read
//! with `token_saved`, and `login_response`; `login_user` does all of it
//! against a store in memory.

use crate::authgate::session_key;
use crate::errors::Error;
use crate::identifier::lemma_uuid_text_tells_id;
use crate::jwt::{
    describes_issued, generate_jwt_token_at, issue_refusal, issued_claims, key_material,
    refused_as, rs256_signed, save_token_data_to_redis, token_saved, IssueRefusal,
};
use crate::model::PayloadUserResponse;
use crate::primitives::{argon2_accepts, password_matches, random_uuid, unix_now};
use crate::session::{
    unreachable_text, Command, Record, Records, SessionStore, StoreCommand,
};
use crate::token::{role_named, Role, TokenDetails};
use vstd::prelude::*;
use vstd::string::{StringExecFns, StringSliceAdditionalSpecFns};

verus! {

/// How many minutes a token is valid for.
pub const TOKEN_MINUTES: i64 = 60;

/// How many seconds the login cookies ask a browser to keep them.
pub const COOKIE_SECONDS: i64 = 216000;

/// To which requests from other sites a browser adds a cookie.
#[derive(Clone, Copy, Debug, PartialEq, Eq, Structural)]
pub enum SameSite {
    /// To none.
    Strict,
    /// To those that navigate to this site.
    Lax,
}

/// A cookie that a response sets.
#[derive(Debug)]
pub struct SessionCookie {
    pub name: String,
    pub value: String,
    pub path: String,
    /// The `Max-Age` attribute, in seconds.
    pub max_age: i64,
    pub same_site: SameSite,
    pub http_only: bool,
}

/// What a cookie of this service says, apart from its value: it is for
/// the whole site and has the `SameSite=Lax` attribute.
pub open spec fn cookie_is(
    cookie: SessionCookie,
    name: Seq<char>,
    max_age: int,
    http_only: bool,
) -> bool {
    &&& cookie.name@ == name
    &&& cookie.path@ == "/"@
    &&& cookie.max_age == max_age
    &&& cookie.same_site == SameSite::Lax
    &&& cookie.http_only == http_only
}

/// A cookie for the whole site.
pub(crate) fn cookie(name: &str, value: String, max_age: i64, http_only: bool) -> (c: SessionCookie)
    ensures
        cookie_is(c, name@, max_age as int, http_only),
        c.value == value,
{
    SessionCookie {
        name: String::from_str(name),
        value,
        path: String::from_str("/"),
        max_age,
        same_site: SameSite::Lax,
        http_only,
    }
}

/// The cookies of a login: the two tokens in cookies that scripts cannot
/// read, and a third cookie, which scripts can read, that only says that
/// someone is logged in.
pub open spec fn login_cookies_are(
    cookies: Seq<SessionCookie>,
    access_token: Seq<char>,
    refresh_token: Seq<char>,
) -> bool {
    &&& cookies.len() == 3
    &&& cookie_is(cookies[0], "access_token"@, COOKIE_SECONDS as int, true)
    &&& cookies[0].value@ == access_token
    &&& cookie_is(cookies[1], "refresh_token"@, COOKIE_SECONDS as int, true)
    &&& cookies[1].value@ == refresh_token
    &&& cookie_is(cookies[2], "logged_in"@, COOKIE_SECONDS as int, false)
    &&& cookies[2].value@ == "true"@
}

/// The first decision of a login, once the account has been found: the
/// password must match the account's hash, and the account's user type must
/// name a role. The role says which profile holds the role entity id.
pub fn login_begin(user: &PayloadUserResponse, password: &str) -> (r: Result<Role, Error>)
    ensures
        match r {
            Ok(role) => argon2_accepts(password.spec_bytes(), user.password@) && role_named(
                user.user_type@,
            ) == Some(role),
            Err(Error::LoginFail) => !argon2_accepts(password.spec_bytes(), user.password@),
            Err(Error::DataExist(what)) => argon2_accepts(password.spec_bytes(), user.password@)
                && role_named(user.user_type@).is_none() && what@ == user.id.raw() + " not found"@,
            Err(_) => false,
        },
{
    if !password_matches(password.as_bytes(), user.password.as_str()) {
        return Err(Error::LoginFail);
    }
    match Role::parse(user.user_type.as_str()) {
        Some(role) => Ok(role),
        None => Err(Error::DataExist(user.id.to_raw().concat(" not found"))),
    }
}

/// The two tokens of a login and the commands that record their sessions.
#[derive(Debug)]
pub struct LoginSession {
    pub access: TokenDetails,
    pub refresh: TokenDetails,
    pub save_access: StoreCommand,
    pub save_refresh: StoreCommand,
}

/// How many seconds the session record of a login's token is kept: one
/// more than the token is valid for.
pub open spec fn session_seconds() -> nat {
    (60 * TOKEN_MINUTES + 1) as nat
}

/// The command that records the session of an issued token.
pub open spec fn session_put(details: TokenDetails) -> Command {
    Command::Put {
        key: session_key(details.token_uuid),
        value: details.user_id@,
        seconds: session_seconds(),
    }
}

/// Pairs two issued tokens into a login.
///
/// The pair is refused when the two share an identifier or when either
/// lacks its signed text; otherwise each token gets the command that
/// records its session for as long as the token is valid, and the two
/// sessions are recorded under different keys.
pub fn login_session(access: TokenDetails, refresh: TokenDetails) -> (r: Result<
    LoginSession,
    Error,
>)
    ensures
        match r {
            Ok(session) => {
                &&& access.token_uuid != refresh.token_uuid
                &&& access.token.is_some()
                &&& refresh.token.is_some()
                &&& session.access == access
                &&& session.refresh == refresh
                &&& session.save_access@ == session_put(access)
                &&& session.save_refresh@ == session_put(refresh)
                &&& session_key(access.token_uuid) != session_key(refresh.token_uuid)
            },
            Err(Error::TokenError(what)) => if access.token_uuid == refresh.token_uuid {
                what@ == "token identifiers collide"@
            } else {
                (access.token.is_none() || refresh.token.is_none()) && what@
                    == "token was not signed"@
            },
            Err(_) => false,
        },
{
    if access.token_uuid == refresh.token_uuid {
        return Err(Error::TokenError(String::from_str("token identifiers collide")));
    }
    if access.token.is_none() || refresh.token.is_none() {
        return Err(Error::TokenError(String::from_str("token was not signed")));
    }
    let save_access = match save_token_data_to_redis(&access, TOKEN_MINUTES) {
        Ok(command) => command,
        Err(e) => {
            return Err(e);
        },
    };
    let save_refresh = match save_token_data_to_redis(&refresh, TOKEN_MINUTES) {
        Ok(command) => command,
        Err(e) => {
            return Err(e);
        },
    };
    proof {
        if session_key(access.token_uuid) == session_key(refresh.token_uuid) {
            lemma_uuid_text_tells_id(access.token_uuid, refresh.token_uuid);
        }
    }
    Ok(LoginSession { access, refresh, save_access, save_refresh })
}

/// Why the two tokens of a login cannot be issued.
pub ghost enum PairRefusal {
    /// The access token cannot be issued.
    Access(IssueRefusal),
    /// The refresh token cannot be issued.
    Refresh(IssueRefusal),
    /// The two identifiers are the same.
    Collision,
}

/// Why the two tokens of a login cannot be issued from these inputs, if
/// they cannot. The access token is issued first, then the refresh token;
/// identifiers that collide are found last.
pub open spec fn pair_refusal(
    user_id: Seq<char>,
    user_type: Seq<char>,
    main_user_id: Seq<char>,
    access_private_key: Seq<char>,
    refresh_private_key: Seq<char>,
    now: int,
    access_uuid: u128,
    refresh_uuid: u128,
) -> Option<PairRefusal> {
    match issue_refusal(
        access_private_key,
        user_id,
        access_uuid,
        now,
        TOKEN_MINUTES as int,
        user_type,
        main_user_id,
    ) {
        Some(refusal) => Some(PairRefusal::Access(refusal)),
        None => match issue_refusal(
            refresh_private_key,
            user_id,
            refresh_uuid,
            now,
            TOKEN_MINUTES as int,
            user_type,
            main_user_id,
        ) {
            Some(refusal) => Some(PairRefusal::Refresh(refusal)),
            None => if access_uuid == refresh_uuid {
                Some(PairRefusal::Collision)
            } else {
                None
            },
        },
    }
}

/// The error that each refusal of a pair is reported with.
pub open spec fn pair_refused_as(e: Error, refusal: PairRefusal) -> bool {
    match refusal {
        PairRefusal::Access(why) => refused_as(e, why),
        PairRefusal::Refresh(why) => refused_as(e, why),
        PairRefusal::Collision => e matches Error::TokenError(what) && what@
            == "token identifiers collide"@,
    }
}

/// Whether `r` is the outcome of issuing the two tokens of a login at the
/// second `now` under the two identifiers given: the error of the refusal
/// if there is one; else two tokens with different identifiers that name
/// the same role entity, role and account, each with the command that
/// records its session.
pub open spec fn token_pair_at(
    r: Result<LoginSession, Error>,
    user_id: Seq<char>,
    user_type: Seq<char>,
    main_user_id: Seq<char>,
    access_private_key: Seq<char>,
    refresh_private_key: Seq<char>,
    now: int,
    access_uuid: u128,
    refresh_uuid: u128,
) -> bool {
    match pair_refusal(
        user_id,
        user_type,
        main_user_id,
        access_private_key,
        refresh_private_key,
        now,
        access_uuid,
        refresh_uuid,
    ) {
        Some(refusal) => r matches Err(e) && pair_refused_as(e, refusal),
        None => {
            &&& r matches Ok(session)
            &&& session.access.token_uuid != session.refresh.token_uuid
            &&& describes_issued(
                session.access,
                access_private_key,
                user_id,
                access_uuid,
                now,
                TOKEN_MINUTES as int,
                user_type,
                main_user_id,
            )
            &&& describes_issued(
                session.refresh,
                refresh_private_key,
                user_id,
                refresh_uuid,
                now,
                TOKEN_MINUTES as int,
                user_type,
                main_user_id,
            )
            &&& session.save_access@ == session_put(session.access)
            &&& session.save_refresh@ == session_put(session.refresh)
            &&& session_key(access_uuid) != session_key(refresh_uuid)
        },
    }
}

/// Issues the access token and the refresh token of a login at the second
/// `now`, under the two identifiers given.
pub fn login_tokens_at(
    user_id: String,
    user_type: &str,
    main_user_id: &str,
    access_private_key: String,
    refresh_private_key: String,
    now: i64,
    access_uuid: u128,
    refresh_uuid: u128,
) -> (r: Result<LoginSession, Error>)
    ensures
        token_pair_at(
            r,
            user_id@,
            user_type@,
            main_user_id@,
            access_private_key@,
            refresh_private_key@,
            now as int,
            access_uuid,
            refresh_uuid,
        ),
{
    let access = generate_jwt_token_at(
        user_id.clone(),
        TOKEN_MINUTES,
        access_private_key,
        user_type,
        main_user_id,
        now,
        access_uuid,
    )?;
    let refresh = generate_jwt_token_at(
        user_id,
        TOKEN_MINUTES,
        refresh_private_key,
        user_type,
        main_user_id,
        now,
        refresh_uuid,
    )?;
    login_session(access, refresh)
}

/// Issues the access token and the refresh token of a login now, each
/// under a fresh random identifier. The outcome is that of
/// `login_tokens_at` at some second and under some two identifiers: which
/// ones, the clock and the random source decide.
pub fn login_tokens(
    user_id: String,
    user_type: &str,
    main_user_id: &str,
    access_private_key: String,
    refresh_private_key: String,
) -> (r: Result<LoginSession, Error>)
    ensures
        exists|now: int, access_uuid: u128, refresh_uuid: u128|
            i64::MIN <= now <= i64::MAX && #[trigger] token_pair_at(
                r,
                user_id@,
                user_type@,
                main_user_id@,
                access_private_key@,
                refresh_private_key@,
                now,
                access_uuid,
                refresh_uuid,
            ),
{
    let now = unix_now();
    let access_uuid = random_uuid();
    let refresh_uuid = random_uuid();
    let r = login_tokens_at(
        user_id,
        user_type,
        main_user_id,
        access_private_key,
        refresh_private_key,
        now,
        access_uuid,
        refresh_uuid,
    );
    proof {
        assert(token_pair_at(
            r,
            user_id@,
            user_type@,
            main_user_id@,
            access_private_key@,
            refresh_private_key@,
            now as int,
            access_uuid,
            refresh_uuid,
        ));
    }
    r
}

/// What a successful login answers.
#[derive(Debug)]
pub struct LoginResponse {
    /// The account that logged in.
    pub user_id: String,
    /// The role of the account.
    pub user_type: String,
    /// The signed access token.
    pub access_token: String,
    /// The access cookie, the refresh cookie and the indicator cookie, in this order.
    pub cookies: Vec<SessionCookie>,
}

/// The text of a token that may be absent: empty when it is.
pub open spec fn token_text(token: Option<String>) -> Seq<char> {
    match token {
        Some(text) => text@,
        None => Seq::empty(),
    }
}

/// The answer to a login whose sessions have been recorded: the body
/// names the account and its role and repeats the access token, and the
/// cookies are those of a login.
pub fn login_response(session: &LoginSession) -> (response: LoginResponse)
    ensures
        response.user_id@ == session.access.main_user_id@,
        response.user_type@ == session.access.user_type@,
        response.access_token@ == token_text(session.access.token),
        login_cookies_are(
            response.cookies@,
            token_text(session.access.token),
            token_text(session.refresh.token),
        ),
{
    let access_text = match &session.access.token {
        Some(text) => text.clone(),
        None => String::new(),
    };
    let refresh_text = match &session.refresh.token {
        Some(text) => text.clone(),
        None => String::new(),
    };
    let mut cookies: Vec<SessionCookie> = Vec::new();
    cookies.push(cookie("access_token", access_text.clone(), COOKIE_SECONDS, true));
    cookies.push(cookie("refresh_token", refresh_text, COOKIE_SECONDS, true));
    cookies.push(cookie("logged_in", String::from_str("true"), COOKIE_SECONDS, false));
    LoginResponse {
        user_id: session.access.main_user_id.clone(),
        user_type: session.access.user_type.clone(),
        access_token: access_text,
        cookies,
    }
}

/// The content of a store after the sessions of a login at the second
/// `now` have been recorded: both tokens' records name the role entity and
/// lapse one second after the tokens expire.
pub open spec fn logged_in(
    records: Records,
    access_uuid: u128,
    refresh_uuid: u128,
    user_id: Seq<char>,
    now: int,
) -> Records {
    records.insert(
        session_key(access_uuid),
        Record { value: user_id, expires_at: now + session_seconds() },
    ).insert(
        session_key(refresh_uuid),
        Record { value: user_id, expires_at: now + session_seconds() },
    )
}

/// Whether `r` and the store's content `after` are the outcome of a login
/// at the second `now`, under the two identifiers given, against a store
/// that held `before` and may be out of reach.
///
/// A password that the account's hash does not accept fails the login;
/// then a user type that names no role; then whatever refuses the two
/// tokens; then a store out of reach. A login that fails leaves the store
/// as it was. A login that
/// succeeds has recorded both tokens' sessions for the role entity
/// `profile_id`; it answers with the account, its role and the access
/// token, and with the cookies of a login, which hold the two tokens: each
/// is signed under its own key over the claims of this login, with the
/// role entity as subject and its own identifier.
pub open spec fn login_is_at(
    r: Result<LoginResponse, Error>,
    before: Records,
    reachable: bool,
    after: Records,
    user: PayloadUserResponse,
    password: Seq<u8>,
    profile_id: Seq<char>,
    access_private_key: Seq<char>,
    refresh_private_key: Seq<char>,
    now: int,
    access_uuid: u128,
    refresh_uuid: u128,
) -> bool {
    if !argon2_accepts(password, user.password@) {
        r matches Err(e) && e is LoginFail && after == before
    } else if role_named(user.user_type@).is_none() {
        r matches Err(Error::DataExist(what)) && what@ == user.id.raw() + " not found"@ && after
            == before
    } else {
        match pair_refusal(
            profile_id,
            user.user_type@,
            user.id.raw(),
            access_private_key,
            refresh_private_key,
            now,
            access_uuid,
            refresh_uuid,
        ) {
            Some(refusal) => r matches Err(e) && pair_refused_as(e, refusal) && after == before,
            None => if !reachable {
                r matches Err(Error::DatabaseError(what)) && what@
                    == "Failed to store token in Redis: "@ + unreachable_text() && after
                    == before
            } else {
                &&& r matches Ok(response)
                &&& after == logged_in(before, access_uuid, refresh_uuid, profile_id, now)
                &&& session_key(access_uuid) != session_key(refresh_uuid)
                &&& response.user_id@ == user.id.raw()
                &&& response.user_type@ == user.user_type@
                &&& login_cookies_are(
                    response.cookies@,
                    response.access_token@,
                    response.cookies@[1].value@,
                )
                &&& key_material(access_private_key) matches Some(access_pem)
                &&& rs256_signed(
                    issued_claims(
                        profile_id,
                        access_uuid,
                        now,
                        TOKEN_MINUTES as int,
                        user.user_type@,
                        user.id.raw(),
                    ),
                    access_pem,
                ) == Some(response.access_token@)
                &&& key_material(refresh_private_key) matches Some(refresh_pem)
                &&& rs256_signed(
                    issued_claims(
                        profile_id,
                        refresh_uuid,
                        now,
                        TOKEN_MINUTES as int,
                        user.user_type@,
                        user.id.raw(),
                    ),
                    refresh_pem,
                ) == Some(response.cookies@[1].value@)
            },
        }
    }
}

/// Logs an account in at the second `now`, against a store in memory.
/// `user` is the account that the credential named and `profile_id` the
/// role entity that belongs to it.
pub fn login_user_at(
    store: &mut SessionStore,
    user: &PayloadUserResponse,
    password: &str,
    profile_id: String,
    access_private_key: String,
    refresh_private_key: String,
    now: i64,
    access_uuid: u128,
    refresh_uuid: u128,
) -> (r: Result<LoginResponse, Error>)
    requires
        old(store).wf(),
    ensures
        final(store).wf(),
        final(store).is_reachable() == old(store).is_reachable(),
        login_is_at(
            r,
            old(store)@,
            old(store).is_reachable(),
            final(store)@,
            *user,
            password.spec_bytes(),
            profile_id@,
            access_private_key@,
            refresh_private_key@,
            now as int,
            access_uuid,
            refresh_uuid,
        ),
{
    let _role = login_begin(user, password)?;
    let main_user_id = user.id.to_raw();
    let session = login_tokens_at(
        profile_id,
        user.user_type.as_str(),
        main_user_id.as_str(),
        access_private_key,
        refresh_private_key,
        now,
        access_uuid,
        refresh_uuid,
    )?;
    let response = login_response(&session);
    let LoginSession { access: _, refresh: _, save_access, save_refresh } = session;
    let first = store.execute(save_access, now);
    let second = store.execute(save_refresh, now);
    match token_saved(first) {
        Ok(_) => {},
        Err(e) => {
            return Err(e);
        },
    }
    match token_saved(second) {
        Ok(_) => {},
        Err(e) => {
            return Err(e);
        },
    }
    Ok(response)
}

/// Logs an account in now, against a store in memory, under fresh random
/// token identifiers. The outcome is that of `login_user_at` at some
/// second and under some two identifiers: which ones, the clock and the
/// random source decide.
pub fn login_user(
    store: &mut SessionStore,
    user: &PayloadUserResponse,
    password: &str,
    profile_id: String,
    access_private_key: String,
    refresh_private_key: String,
) -> (r: Result<LoginResponse, Error>)
    requires
        old(store).wf(),
    ensures
        final(store).wf(),
        final(store).is_reachable() == old(store).is_reachable(),
        exists|now: int, access_uuid: u128, refresh_uuid: u128|
            i64::MIN <= now <= i64::MAX && #[trigger] login_is_at(
                r,
                old(store)@,
                old(store).is_reachable(),
                final(store)@,
                *user,
                password.spec_bytes(),
                profile_id@,
                access_private_key@,
                refresh_private_key@,
                now,
                access_uuid,
                refresh_uuid,
            ),
{
    let now = unix_now();
    let access_uuid = random_uuid();
    let refresh_uuid = random_uuid();
    let r = login_user_at(
        store,
        user,
        password,
        profile_id,
        access_private_key,
        refresh_private_key,
        now,
        access_uuid,
        refresh_uuid,
    );
    proof {
        assert(login_is_at(
            r,
            old(store)@,
            old(store).is_reachable(),
            store@,
            *user,
            password.spec_bytes(),
            profile_id@,
            access_private_key@,
            refresh_private_key@,
            now as int,
            access_uuid,
            refresh_uuid,
        ));
    }
    r
}

} // verus!
