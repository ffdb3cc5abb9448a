//! Issuing and verifying signed tokens.

use crate::errors::Error;
use crate::identifier::uuid_hyphenated;
use crate::primitives::{
    base64_decode, base64_standard_decoded, decode_rs256, json_integer, json_integers, json_text,
    json_texts, random_uuid, rs256_payload, rs256_token, sign_rs256, string_from_utf8, unix_now,
    uuid_parse, uuid_parsed, uuid_to_string,
};
use crate::session::{Command, Reply, StoreCommand, StoreReply};
use crate::token::{claim_members, ClaimSet, TokenClaims, TokenDetails};
use vstd::prelude::*;
use vstd::string::StringExecFns;
use vstd::utf8::{decode_utf8_encode_utf8, valid_utf8};

verus! {

/// The PEM bytes that a configured key stands for: the key is base64 text
/// whose content must be valid UTF-8.
pub open spec fn key_material(key: Seq<char>) -> Option<Seq<u8>> {
    match base64_standard_decoded(key) {
        Some(bytes) => if valid_utf8(bytes) {
            Some(bytes)
        } else {
            None
        },
        None => None,
    }
}

/// The second at which a token issued at `now` for `ttl` minutes expires.
pub open spec fn expiry(now: int, ttl: int) -> int {
    now + 60 * ttl
}

/// The claims of a token issued at `now` for `ttl` minutes.
pub open spec fn issued_claims(
    user_id: Seq<char>,
    token_uuid: u128,
    now: int,
    ttl: int,
    user_type: Seq<char>,
    main_user_id: Seq<char>,
) -> ClaimSet {
    ClaimSet {
        sub: user_id,
        token_uuid: uuid_hyphenated(token_uuid),
        exp: expiry(now, ttl),
        iat: now,
        nbf: now,
        user_type,
        main_user_id,
    }
}

/// The expiry of a token issued at `now` for `ttl` minutes, unless it lies
/// outside the range of a timestamp.
pub fn token_expiry(now: i64, ttl: i64) -> (r: Option<i64>)
    ensures
        r == (if i64::MIN <= expiry(now as int, ttl as int) <= i64::MAX {
            Some(expiry(now as int, ttl as int) as i64)
        } else {
            None
        }),
{
    let wide: i128 = now as i128 + 60 * (ttl as i128);
    if wide < i64::MIN as i128 || wide > i64::MAX as i128 {
        None
    } else {
        Some(wide as i64)
    }
}

/// Decodes a configured key into PEM bytes.
pub fn decode_key(key: &str) -> (r: Result<Vec<u8>, Error>)
    ensures
        match r {
            Ok(pem) => key_material(key@) == Some(pem@),
            Err(Error::DecodeError(_)) => base64_standard_decoded(key@).is_none(),
            Err(Error::StringError(_)) => base64_standard_decoded(key@).is_some()
                && key_material(key@).is_none(),
            Err(_) => false,
        },
{
    let bytes = match base64_decode(key) {
        Ok(bytes) => bytes,
        Err(message) => {
            return Err(Error::DecodeError(message));
        },
    };
    let ghost raw = bytes@;
    match string_from_utf8(bytes) {
        Ok(text) => {
            proof {
                decode_utf8_encode_utf8(raw);
            }
            Ok(text.as_str().as_bytes_vec())
        },
        Err(message) => Err(Error::StringError(message)),
    }
}

/// The token that signing `claims` with the RSA private key in `pem`
/// gives, if `pem` holds a usable key: the signed payload holds the seven
/// claims under their names.
pub open spec fn rs256_signed(claims: ClaimSet, pem: Seq<u8>) -> Option<Seq<char>> {
    rs256_token(claim_members(claims), pem)
}

/// Why a token cannot be issued.
pub ghost enum IssueRefusal {
    /// The key is not base64.
    Decode,
    /// The key's content is not text.
    Text,
    /// The expiry is no timestamp.
    Lifetime,
    /// The key's content is no key to sign with.
    Signature,
}

/// Why a token cannot be issued from these inputs, if it cannot. The key
/// is decoded first, then the expiry is computed, then the claims are
/// signed, and the first step that fails decides.
pub open spec fn issue_refusal(
    private_key: Seq<char>,
    user_id: Seq<char>,
    token_uuid: u128,
    now: int,
    ttl: int,
    user_type: Seq<char>,
    main_user_id: Seq<char>,
) -> Option<IssueRefusal> {
    match base64_standard_decoded(private_key) {
        None => Some(IssueRefusal::Decode),
        Some(pem) => if !valid_utf8(pem) {
            Some(IssueRefusal::Text)
        } else if !(i64::MIN <= expiry(now, ttl) <= i64::MAX) {
            Some(IssueRefusal::Lifetime)
        } else if rs256_signed(
            issued_claims(user_id, token_uuid, now, ttl, user_type, main_user_id),
            pem,
        ).is_none() {
            Some(IssueRefusal::Signature)
        } else {
            None
        },
    }
}

/// The error that each refusal is reported with.
pub open spec fn refused_as(e: Error, refusal: IssueRefusal) -> bool {
    match refusal {
        IssueRefusal::Decode => e is DecodeError,
        IssueRefusal::Text => e is StringError,
        IssueRefusal::Lifetime => e matches Error::TokenError(what) && what@
            == "token lifetime is out of range"@,
        IssueRefusal::Signature => e is TokenError,
    }
}

/// Whether `details` describe the token issued from these inputs: they
/// carry the signature over the issued claims, the expiry, and what the
/// claims say.
pub open spec fn describes_issued(
    details: TokenDetails,
    private_key: Seq<char>,
    user_id: Seq<char>,
    token_uuid: u128,
    now: int,
    ttl: int,
    user_type: Seq<char>,
    main_user_id: Seq<char>,
) -> bool {
    &&& key_material(private_key) matches Some(pem)
    &&& details.token matches Some(token)
    &&& rs256_signed(
        issued_claims(user_id, token_uuid, now, ttl, user_type, main_user_id),
        pem,
    ) == Some(token@)
    &&& details.token_uuid == token_uuid
    &&& details.user_id@ == user_id
    &&& details.main_user_id@ == main_user_id
    &&& details.user_type@ == user_type
    &&& i64::MIN <= expiry(now, ttl) <= i64::MAX
    &&& details.expires_in == Some(expiry(now, ttl) as i64)
}

/// Whether `r` is the outcome of issuing a token at the second `now` under
/// the identifier `token_uuid`: the error of the refusal if there is one,
/// else details that describe the token.
pub open spec fn issued_at(
    r: Result<TokenDetails, Error>,
    user_id: Seq<char>,
    ttl: int,
    private_key: Seq<char>,
    user_type: Seq<char>,
    main_user_id: Seq<char>,
    now: int,
    token_uuid: u128,
) -> bool {
    match issue_refusal(private_key, user_id, token_uuid, now, ttl, user_type, main_user_id) {
        Some(refusal) => r matches Err(e) && refused_as(e, refusal),
        None => r matches Ok(details) && describes_issued(
            details,
            private_key,
            user_id,
            token_uuid,
            now,
            ttl,
            user_type,
            main_user_id,
        ),
    }
}

/// Issues a token at the second `now` under the identifier `token_uuid`.
///
/// The key is decoded first, then the expiry is computed, then the claims
/// are signed. Each step that fails gives its own error; when all succeed
/// the details carry the signed claims and describe them.
pub fn generate_jwt_token_at(
    user_id: String,
    ttl: i64,
    private_key: String,
    user_type: &str,
    main_user_id: &str,
    now: i64,
    token_uuid: u128,
) -> (r: Result<TokenDetails, Error>)
    ensures
        issued_at(
            r,
            user_id@,
            ttl as int,
            private_key@,
            user_type@,
            main_user_id@,
            now as int,
            token_uuid,
        ),
{
    let pem = decode_key(private_key.as_str())?;
    let expires_in = match token_expiry(now, ttl) {
        Some(at) => at,
        None => {
            return Err(Error::TokenError(String::from_str("token lifetime is out of range")));
        },
    };
    let claims = TokenClaims {
        sub: user_id.clone(),
        token_uuid: uuid_to_string(token_uuid),
        exp: expires_in,
        iat: now,
        nbf: now,
        user_type: String::from_str(user_type),
        main_user_id: String::from_str(main_user_id),
    };
    match sign_rs256(&claims.members(), pem.as_slice()) {
        Ok(token) => Ok(
            TokenDetails {
                main_user_id: String::from_str(main_user_id),
                user_id,
                token_uuid,
                expires_in: Some(expires_in),
                token: Some(token),
                user_type: String::from_str(user_type),
            },
        ),
        Err(message) => Err(Error::TokenError(message)),
    }
}

/// Issues a token now, under a fresh random identifier.
///
/// The outcome is that of `generate_jwt_token_at` at some second and under
/// some identifier: which ones, the clock and the random source decide.
pub fn generate_jwt_token(
    user_id: String,
    ttl: i64,
    private_key: String,
    user_type: &str,
    main_user_id: &str,
) -> (r: Result<TokenDetails, Error>)
    ensures
        exists|now: int, token_uuid: u128|
            i64::MIN <= now <= i64::MAX && #[trigger] issued_at(
                r,
                user_id@,
                ttl as int,
                private_key@,
                user_type@,
                main_user_id@,
                now,
                token_uuid,
            ),
{
    let now = unix_now();
    let token_uuid = random_uuid();
    let r = generate_jwt_token_at(
        user_id,
        ttl,
        private_key,
        user_type,
        main_user_id,
        now,
        token_uuid,
    );
    proof {
        assert(issued_at(
            r,
            user_id@,
            ttl as int,
            private_key@,
            user_type@,
            main_user_id@,
            now as int,
            token_uuid,
        ));
    }
    r
}

/// The claims that a payload holds, if it has all seven of them in the
/// right form: four texts and three integers. Other members are ignored.
pub open spec fn payload_claims(
    texts: Map<Seq<char>, Seq<char>>,
    integers: Map<Seq<char>, int>,
) -> Option<ClaimSet> {
    if texts.contains_key("sub"@) && texts.contains_key("token_uuid"@) && integers.contains_key(
        "exp"@,
    ) && integers.contains_key("iat"@) && integers.contains_key("nbf"@) && texts.contains_key(
        "user_type"@,
    ) && texts.contains_key("main_user_id"@) {
        Some(
            ClaimSet {
                sub: texts["sub"@],
                token_uuid: texts["token_uuid"@],
                exp: integers["exp"@],
                iat: integers["iat"@],
                nbf: integers["nbf"@],
                user_type: texts["user_type"@],
                main_user_id: texts["main_user_id"@],
            },
        )
    } else {
        None
    }
}

/// The claims that `token` carries under the configured public key, if the
/// key is usable, the signature holds and the payload is complete.
pub open spec fn signed_claims(public_key: Seq<char>, token: Seq<char>) -> Option<ClaimSet> {
    match key_material(public_key) {
        Some(pem) => match rs256_payload(token, pem) {
            Some(payload) => payload_claims(payload.0, payload.1),
            None => None,
        },
        None => None,
    }
}

/// Whether claims are in force at the second `now`: not before their
/// start, not after their expiry.
pub open spec fn in_force(claims: ClaimSet, now: int) -> bool {
    claims.nbf <= now <= claims.exp
}

/// The claims that verification at the second `now` accepts, if any.
pub open spec fn accepted_claims(public_key: Seq<char>, token: Seq<char>, now: int) -> Option<
    ClaimSet,
> {
    match signed_claims(public_key, token) {
        Some(claims) => if in_force(claims, now) && uuid_parsed(claims.token_uuid).is_some() {
            Some(claims)
        } else {
            None
        },
        None => None,
    }
}

/// Reads the seven claims out of a decoded payload.
pub fn claims_from_payload(payload: &serde_json::Value) -> (r: Option<TokenClaims>)
    ensures
        match r {
            Some(claims) => payload_claims(json_texts(*payload), json_integers(*payload)) == Some(
                claims@,
            ),
            None => payload_claims(json_texts(*payload), json_integers(*payload)).is_none(),
        },
{
    let sub = json_text(payload, "sub")?;
    let token_uuid = json_text(payload, "token_uuid")?;
    let exp = json_integer(payload, "exp")?;
    let iat = json_integer(payload, "iat")?;
    let nbf = json_integer(payload, "nbf")?;
    let user_type = json_text(payload, "user_type")?;
    let main_user_id = json_text(payload, "main_user_id")?;
    Some(TokenClaims { sub, token_uuid, exp, iat, nbf, user_type, main_user_id })
}

/// Whether `r` is the outcome of verifying `token` at the second `now`.
///
/// The token is accepted exactly when the key can be decoded, the token
/// carries a complete payload under a signature that the key accepts, the
/// claims are in force at `now`, and the token identifier can be read. The
/// details then repeat the claims and carry neither token text nor expiry.
/// Otherwise the first check that fails decides the error.
pub open spec fn verified_at(
    r: Result<TokenDetails, Error>,
    public_key: Seq<char>,
    token: Seq<char>,
    now: int,
) -> bool {
    match base64_standard_decoded(public_key) {
        None => r matches Err(e) && e is DecodeError,
        Some(pem) => if !valid_utf8(pem) {
            r matches Err(e) && e is StringError
        } else {
            match rs256_payload(token, pem) {
                None => r matches Err(e) && e is TokenError,
                Some(payload) => match payload_claims(payload.0, payload.1) {
                    None => r matches Err(Error::TokenError(what)) && what@
                        == "token payload lacks a claim"@,
                    Some(claims) => if !in_force(claims, now) {
                        r matches Err(Error::TokenError(what)) && what@
                            == "token is expired or not yet valid"@
                    } else {
                        match uuid_parsed(claims.token_uuid) {
                            None => r matches Err(e) && e is StringError,
                            Some(token_uuid) => {
                                &&& r matches Ok(details)
                                &&& details.token_uuid == token_uuid
                                &&& details.user_id@ == claims.sub
                                &&& details.user_type@ == claims.user_type
                                &&& details.main_user_id@ == claims.main_user_id
                                &&& details.token.is_none()
                                &&& details.expires_in.is_none()
                            },
                        }
                    },
                },
            }
        },
    }
}

/// Verifies a token at the second `now`. The token is accepted exactly
/// when `accepted_claims` gives its claims, which the details then repeat.
pub fn verify_jwt_token_at(public_key: String, token: &str, now: i64) -> (r: Result<
    TokenDetails,
    Error,
>)
    ensures
        verified_at(r, public_key@, token@, now as int),
        match accepted_claims(public_key@, token@, now as int) {
            Some(claims) => {
                &&& r matches Ok(details)
                &&& uuid_parsed(claims.token_uuid) == Some(details.token_uuid)
                &&& details.user_id@ == claims.sub
                &&& details.user_type@ == claims.user_type
                &&& details.main_user_id@ == claims.main_user_id
            },
            None => r.is_err(),
        },
{
    let pem = decode_key(public_key.as_str())?;
    let payload = match decode_rs256(token, pem.as_slice()) {
        Ok(payload) => payload,
        Err(message) => {
            return Err(Error::TokenError(message));
        },
    };
    let claims = match claims_from_payload(&payload) {
        Some(claims) => claims,
        None => {
            return Err(Error::TokenError(String::from_str("token payload lacks a claim")));
        },
    };
    if now < claims.nbf || claims.exp < now {
        return Err(Error::TokenError(String::from_str("token is expired or not yet valid")));
    }
    let token_uuid = match uuid_parse(claims.token_uuid.as_str()) {
        Ok(id) => id,
        Err(message) => {
            return Err(Error::StringError(message));
        },
    };
    Ok(
        TokenDetails {
            main_user_id: claims.main_user_id,
            token: None,
            token_uuid,
            user_id: claims.sub,
            expires_in: None,
            user_type: claims.user_type,
        },
    )
}

/// Verifies a token now. The outcome is that of `verify_jwt_token_at` at
/// some second, which the clock gives.
pub fn verify_jwt_token(public_key: String, token: &str) -> (r: Result<TokenDetails, Error>)
    ensures
        exists|now: int|
            i64::MIN <= now <= i64::MAX && #[trigger] verified_at(r, public_key@, token@, now),
{
    let now = unix_now();
    let r = verify_jwt_token_at(public_key, token, now);
    proof {
        assert(verified_at(r, public_key@, token@, now as int));
    }
    r
}

/// The lifetime in seconds of the session record of a token that is valid
/// for `max_age` minutes, if `max_age` is positive and the store can count
/// that far. The record is kept one second longer than the minutes make,
/// so that it still lives in the last second in which the token is in
/// force.
pub open spec fn record_seconds(max_age: int) -> Option<nat> {
    if 0 < 60 * max_age && 60 * max_age + 1 <= u64::MAX {
        Some((60 * max_age + 1) as nat)
    } else {
        None
    }
}

/// The command that records in the session store a token that is valid
/// for `max_age` minutes: the token identifier's text is the key, the role
/// entity id the value, and the record outlives the token by one second. A
/// lifetime that is not positive, or too long to count, is refused.
pub fn save_token_data_to_redis(token_details: &TokenDetails, max_age: i64) -> (r: Result<
    StoreCommand,
    Error,
>)
    ensures
        match r {
            Ok(command) => {
                &&& record_seconds(max_age as int) matches Some(seconds)
                &&& command@ == (Command::Put {
                    key: uuid_hyphenated(token_details.token_uuid),
                    value: token_details.user_id@,
                    seconds,
                })
            },
            Err(Error::DatabaseError(what)) => record_seconds(max_age as int).is_none() && what@
                == "Failed to store token in Redis"@,
            Err(_) => false,
        },
{
    let wide: i128 = 60 * (max_age as i128) + 1;
    if wide <= 1 || wide > u64::MAX as i128 {
        return Err(Error::DatabaseError(String::from_str("Failed to store token in Redis")));
    }
    Ok(
        StoreCommand::Put {
            key: uuid_to_string(token_details.token_uuid),
            value: token_details.user_id.clone(),
            seconds: wide as u64,
        },
    )
}

/// Reads the store's answer to a `Put`: anything but `Stored` is a
/// failure, and the failure repeats the reason that the store gave, if it
/// gave one.
pub fn token_saved(reply: StoreReply) -> (r: Result<(), Error>)
    ensures
        match r {
            Ok(_) => reply@ == Reply::Stored,
            Err(Error::DatabaseError(what)) => reply@ != Reply::Stored && what@ == (match reply {
                StoreReply::Unavailable(reason) => "Failed to store token in Redis: "@ + reason@,
                _ => "Failed to store token in Redis"@,
            }),
            Err(_) => false,
        },
{
    match reply {
        StoreReply::Stored => Ok(()),
        StoreReply::Unavailable(reason) => Err(
            Error::DatabaseError(
                String::from_str("Failed to store token in Redis: ").concat(reason.as_str()),
            ),
        ),
        _ => Err(Error::DatabaseError(String::from_str("Failed to store token in Redis"))),
    }
}

/// The command that removes the record kept under `token`.
pub fn delete_token_data_in_redis(token: String) -> (command: StoreCommand)
    ensures
        command@ == (Command::Delete { key: token@ }),
{
    StoreCommand::Delete { key: token }
}

/// Reads the store's answer to a `Delete`: anything but `Deleted` is a
/// failure, and the failure repeats the reason that the store gave, if it
/// gave one.
pub fn token_deleted(reply: StoreReply) -> (r: Result<(), Error>)
    ensures
        match r {
            Ok(_) => reply@ == Reply::Deleted,
            Err(Error::DatabaseError(what)) => reply@ != Reply::Deleted && what@ == (match reply {
                StoreReply::Unavailable(reason) => "Failed to delete token in Redis: "@ + reason@,
                _ => "Failed to delete token in Redis"@,
            }),
            Err(_) => false,
        },
{
    match reply {
        StoreReply::Deleted => Ok(()),
        StoreReply::Unavailable(reason) => Err(
            Error::DatabaseError(
                String::from_str("Failed to delete token in Redis: ").concat(reason.as_str()),
            ),
        ),
        _ => Err(Error::DatabaseError(String::from_str("Failed to delete token in Redis"))),
    }
}

} // verus!
