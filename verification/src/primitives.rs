//! The operations that this library takes from other crates.
//!
//! Nothing in this file is proved. Each function states what the crate it
//! calls documents, and every proof elsewhere rests on these statements.

use crate::identifier::uuid_hyphenated;
use crate::token::{members_view, Claim, ClaimMember, ClaimValue};
use jsonwebtoken::{decode, encode, Algorithm, DecodingKey, EncodingKey, Header, Validation};
use serde_json::Value;
use std::collections::BTreeMap;
use vstd::prelude::*;
use vstd::utf8::{decode_utf8, valid_utf8};

verus! {

/// `serde_json::Value`, a JSON value. The library sees nothing inside it;
/// `json_texts` and `json_integers` name what it reads from one.
#[verifier::external_type_specification]
#[verifier::external_body]
pub struct ExJsonValue(serde_json::Value);

/// The bytes that standard, padded base64 text stands for, if it is well formed.
pub uninterp spec fn base64_standard_decoded(text: Seq<char>) -> Option<Seq<u8>>;

/// The RS256 token whose payload is the JSON object with the members
/// given, signed with the RSA private key in `pem`, if `pem` holds a usable
/// key.
pub uninterp spec fn rs256_token(members: Seq<(Seq<char>, Claim)>, pem: Seq<u8>) -> Option<
    Seq<char>,
>;

/// The payload of `token`, if `token` is a well-formed RS256 token with an
/// expiry claim whose signature the RSA public key in `pem` accepts: the
/// payload's text members and its integer members.
pub uninterp spec fn rs256_payload(token: Seq<char>, pem: Seq<u8>) -> Option<
    (Map<Seq<char>, Seq<char>>, Map<Seq<char>, int>),
>;

/// The members of a JSON object whose values are strings.
pub uninterp spec fn json_texts(value: serde_json::Value) -> Map<Seq<char>, Seq<char>>;

/// The members of a JSON object whose values are integers that fit in 64 signed bits.
pub uninterp spec fn json_integers(value: serde_json::Value) -> Map<Seq<char>, int>;

/// The identifier that `text` denotes, if it is written in one of the
/// accepted UUID notations.
pub uninterp spec fn uuid_parsed(text: Seq<char>) -> Option<u128>;

/// Whether the Argon2 password hash string `hash` was made from `password`.
pub uninterp spec fn argon2_accepts(password: Seq<u8>, hash: Seq<char>) -> bool;

/// Calls `Engine::decode` of `base64::engine::general_purpose::STANDARD`.
/// The result is a function of the text alone; a failure carries the
/// crate's message.
#[verifier::external_body]
pub(crate) fn base64_decode(text: &str) -> (r: Result<Vec<u8>, String>)
    ensures
        match r {
            Ok(bytes) => base64_standard_decoded(text@) == Some(bytes@),
            Err(_) => base64_standard_decoded(text@).is_none(),
        },
{
    match base64::Engine::decode(&base64::engine::general_purpose::STANDARD, text) {
        Ok(bytes) => Ok(bytes),
        Err(e) => Err(e.to_string()),
    }
}

/// Calls `String::from_utf8`, which succeeds exactly on valid UTF-8 and then
/// holds the characters that the bytes encode; a failure carries std's message.
#[verifier::external_body]
pub(crate) fn string_from_utf8(bytes: Vec<u8>) -> (r: Result<String, String>)
    ensures
        match r {
            Ok(s) => valid_utf8(bytes@) && s@ == decode_utf8(bytes@),
            Err(_) => !valid_utf8(bytes@),
        },
{
    match String::from_utf8(bytes) {
        Ok(s) => Ok(s),
        Err(e) => Err(e.to_string()),
    }
}

/// Calls `chrono::Utc::now` and takes its Unix timestamp in seconds.
/// Nothing is promised of the value.
#[verifier::external_body]
pub(crate) fn unix_now() -> i64 {
    chrono::Utc::now().timestamp()
}

/// Calls `uuid::Uuid::new_v4`, which draws 122 random bits and sets the
/// version to 4 and the variant to RFC 4122.
#[verifier::external_body]
pub(crate) fn random_uuid() -> (id: u128)
    ensures
        id & 0x0000_0000_0000_f000_c000_0000_0000_0000u128
            == 0x0000_0000_0000_4000_8000_0000_0000_0000u128,
{
    uuid::Uuid::new_v4().as_u128()
}

/// Calls `to_string` on the `uuid::Uuid` with the value `id`. The crate
/// writes the hyphenated lower-case form, which its parser reads back.
#[verifier::external_body]
pub(crate) fn uuid_to_string(id: u128) -> (text: String)
    ensures
        text@ == uuid_hyphenated(id),
        uuid_parsed(text@) == Some(id),
{
    uuid::Uuid::from_u128(id).to_string()
}

/// Calls `uuid::Uuid::parse_str`. The result is a function of the text
/// alone; a failure carries the crate's message.
#[verifier::external_body]
pub(crate) fn uuid_parse(text: &str) -> (r: Result<u128, String>)
    ensures
        match r {
            Ok(id) => uuid_parsed(text@) == Some(id),
            Err(_) => uuid_parsed(text@).is_none(),
        },
{
    match uuid::Uuid::parse_str(text) {
        Ok(id) => Ok(id.as_u128()),
        Err(e) => Err(e.to_string()),
    }
}

/// Calls `jsonwebtoken::EncodingKey::from_rsa_pem` on `pem` and then
/// `jsonwebtoken::encode` with an RS256 header and the members as a JSON
/// object. Both are functions of their arguments alone; a failure of
/// either carries the crate's message.
#[verifier::external_body]
pub(crate) fn sign_rs256(members: &Vec<ClaimMember>, pem: &[u8]) -> (r: Result<String, String>)
    ensures
        match r {
            Ok(token) => rs256_token(members_view(members@), pem@) == Some(token@),
            Err(_) => rs256_token(members_view(members@), pem@).is_none(),
        },
{
    let payload: BTreeMap<&str, Value> = members.iter().map(
        |member|
            match &member.value {
                ClaimValue::Text(text) => (member.name.as_str(), Value::from(text.as_str())),
                ClaimValue::Integer(n) => (member.name.as_str(), Value::from(*n)),
            },
    ).collect();
    let header = Header::new(Algorithm::RS256);
    let signed = EncodingKey::from_rsa_pem(pem).and_then(|key| encode(&header, &payload, &key));
    signed.map_err(|e| e.to_string())
}

/// Calls `jsonwebtoken::DecodingKey::from_rsa_pem` on `pem` and then
/// `jsonwebtoken::decode` for RS256 with the expiry check switched off, so
/// that the clock is not read: the crate then checks the token's shape, its
/// algorithm, its signature and the presence of `exp`, and hands out the
/// payload. A failure of either call carries the crate's message.
#[verifier::external_body]
pub(crate) fn decode_rs256(token: &str, pem: &[u8]) -> (r: Result<serde_json::Value, String>)
    ensures
        match r {
            Ok(payload) => rs256_payload(token@, pem@) == Some(
                (json_texts(payload), json_integers(payload)),
            ),
            Err(_) => rs256_payload(token@, pem@).is_none(),
        },
{
    let mut validation = Validation::new(Algorithm::RS256);
    validation.validate_exp = false;
    let key = DecodingKey::from_rsa_pem(pem);
    match key.and_then(|key| decode::<Value>(token, &key, &validation)) {
        Ok(data) => Ok(data.claims),
        Err(e) => Err(e.to_string()),
    }
}

/// Calls `serde_json::Value::get` and, on the member found, `as_str`.
#[verifier::external_body]
pub(crate) fn json_text(value: &serde_json::Value, name: &str) -> (r: Option<String>)
    ensures
        match r {
            Some(text) => json_texts(*value).contains_key(name@) && json_texts(*value)[name@]
                == text@,
            None => !json_texts(*value).contains_key(name@),
        },
{
    match value.get(name) {
        Some(member) => member.as_str().map(String::from),
        None => None,
    }
}

/// Calls `serde_json::Value::get` and, on the member found, `as_i64`.
#[verifier::external_body]
pub(crate) fn json_integer(value: &serde_json::Value, name: &str) -> (r: Option<i64>)
    ensures
        match r {
            Some(n) => json_integers(*value).contains_key(name@) && json_integers(*value)[name@]
                == n,
            None => !json_integers(*value).contains_key(name@),
        },
{
    match value.get(name) {
        Some(member) => member.as_i64(),
        None => None,
    }
}

/// Calls `argon2::PasswordHash::new` on `hash` and then
/// `verify_password` of `argon2::Argon2::default()`. The answer is a
/// function of the password and the hash string; a hash string that cannot
/// be read accepts nothing.
#[verifier::external_body]
pub(crate) fn password_matches(password: &[u8], hash: &str) -> (ok: bool)
    ensures
        ok == argon2_accepts(password@, hash@),
{
    match argon2::PasswordHash::new(hash) {
        Ok(parsed) => argon2::PasswordVerifier::verify_password(
            &argon2::Argon2::default(),
            password,
            &parsed,
        ).is_ok(),
        Err(_) => false,
    }
}

} // verus!
