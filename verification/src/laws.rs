//! What holds of the protocol as a whole: statements that relate issuing,
//! recording, authenticating and logging out.

use crate::authgate::{session_failure, session_key};
use crate::errors::AuthError;
use crate::identifier::{lemma_uuid_text_tells_id, uuid_hyphenated};
use crate::jwt::{
    accepted_claims, expiry, in_force, issued_claims, key_material, payload_claims, rs256_signed,
};
use crate::login::{logged_in, TOKEN_MINUTES};
use crate::logout::{logged_out, logout_outcome};
use crate::primitives::{rs256_payload, uuid_parsed};
use crate::session::{
    command_key, lookup, records_after, records_after_all, reply_of, reply_to, Command, Records,
};
use crate::token::{claim_members, member_integers, member_texts, named, Claim, ClaimSet};
use vstd::prelude::*;

verus! {

/// A command that leaves alone every record that is not there: anything
/// but a `Put` under `key`.
pub open spec fn leaves_absent(command: Command, key: Seq<char>) -> bool {
    !(command is Put && command_key(command) == key)
}

/// A key that has no record gets none from commands that record nothing
/// under it.
pub proof fn lemma_absent_stays_absent(
    records: Records,
    key: Seq<char>,
    commands: Seq<(Command, int)>,
)
    requires
        !records.contains_key(key),
        forall|i: int| 0 <= i < commands.len() ==> leaves_absent(#[trigger] commands[i].0, key),
    ensures
        !records_after_all(records, commands).contains_key(key),
    decreases commands.len(),
{
    if commands.len() > 0 {
        let before = commands.drop_last();
        assert forall|i: int| 0 <= i < before.len() implies leaves_absent(
            #[trigger] before[i].0,
            key,
        ) by {
            assert(before[i] == commands[i]);
        }
        lemma_absent_stays_absent(records, key, before);
        assert(leaves_absent(commands[commands.len() - 1].0, key));
    }
}

/// Revocation: once the record of a token has been deleted, a request that
/// presents the token is turned away as revoked. This holds at every later
/// second, whether or not the token itself has expired, and whatever has
/// been asked of the store in between, as long as nothing recorded that
/// token again.
pub proof fn law_deleted_session_is_revoked(
    records: Records,
    token_uuid: u128,
    subject: Seq<char>,
    deleted_at: int,
    later: Seq<(Command, int)>,
    now: int,
)
    requires
        forall|i: int|
            0 <= i < later.len() ==> leaves_absent(#[trigger] later[i].0, session_key(token_uuid)),
    ensures
        session_failure(
            subject,
            reply_to(
                records_after_all(
                    records_after(
                        records,
                        Command::Delete { key: session_key(token_uuid) },
                        deleted_at,
                    ),
                    later,
                ),
                Command::Get { key: session_key(token_uuid) },
                now,
            ),
        ) == Some(AuthError::SessionRevoked),
{
    let key = session_key(token_uuid);
    let deleted = records_after(records, Command::Delete { key }, deleted_at);
    lemma_absent_stays_absent(deleted, key, later);
}

/// A token that was never recorded is turned away as revoked, however
/// valid its signature: a store that holds nothing under the token's
/// identifier answers `Missing`.
pub proof fn law_unrecorded_session_is_revoked(
    records: Records,
    token_uuid: u128,
    subject: Seq<char>,
    now: int,
)
    requires
        !records.contains_key(session_key(token_uuid)),
    ensures
        session_failure(
            subject,
            reply_to(records, Command::Get { key: session_key(token_uuid) }, now),
        ) == Some(AuthError::SessionRevoked),
{
}

/// A store that cannot be reached never yields an identity: whatever it
/// holds and whatever the token said, the request fails with
/// `StoreUnavailable`.
pub proof fn law_unreachable_store_rejects(
    records: Records,
    subject: Seq<char>,
    command: Command,
    now: int,
)
    ensures
        session_failure(subject, reply_of(records, false, command, now)) == Some(
            AuthError::StoreUnavailable,
        ),
{
}

/// Logout is idempotent. A logout that is repeated with the same tokens,
/// at a second at which the refresh token is still accepted, succeeds
/// again and leaves the store as the first logout left it.
pub proof fn law_logout_is_idempotent(
    records: Records,
    refresh_cookie: Option<Seq<char>>,
    access_uuid: u128,
    refresh_public_key: Seq<char>,
    first: int,
    second: int,
)
    requires
        logout_outcome(records, refresh_cookie, access_uuid, refresh_public_key, first).is_some(),
        refresh_cookie matches Some(token) && accepted_claims(
            refresh_public_key,
            token,
            second,
        ).is_some(),
    ensures
        logout_outcome(
            logout_outcome(
                records,
                refresh_cookie,
                access_uuid,
                refresh_public_key,
                first,
            ).unwrap(),
            refresh_cookie,
            access_uuid,
            refresh_public_key,
            second,
        ) == logout_outcome(records, refresh_cookie, access_uuid, refresh_public_key, first),
{
    let token = refresh_cookie.unwrap();
    let claims = accepted_claims(refresh_public_key, token, first).unwrap();
    assert(accepted_claims(refresh_public_key, token, second) == Some(claims));
    let refresh_uuid = uuid_parsed(claims.token_uuid).unwrap();
    let once = logged_out(records, refresh_uuid, access_uuid);
    assert(logged_out(once, refresh_uuid, access_uuid) =~= once);
}

/// After a logout neither token is honoured: a request that presents the
/// access token or the refresh token is turned away as revoked.
pub proof fn law_logout_revokes_both_tokens(
    records: Records,
    refresh_uuid: u128,
    access_uuid: u128,
    subject: Seq<char>,
    now: int,
)
    ensures
        session_failure(
            subject,
            reply_to(
                logged_out(records, refresh_uuid, access_uuid),
                Command::Get { key: session_key(access_uuid) },
                now,
            ),
        ) == Some(AuthError::SessionRevoked),
        session_failure(
            subject,
            reply_to(
                logged_out(records, refresh_uuid, access_uuid),
                Command::Get { key: session_key(refresh_uuid) },
                now,
            ),
        ) == Some(AuthError::SessionRevoked),
{
}

/// The records of a login live as long as its tokens: at every second
/// from the login up to and including the expiry, which are the seconds at
/// which the tokens are in force, the store answers a lookup of either
/// token with the role entity, so that a request whose claims name that
/// role entity is let through.
pub proof fn law_session_lives_with_its_token(
    records: Records,
    access_uuid: u128,
    refresh_uuid: u128,
    user_id: Seq<char>,
    now: int,
    at: int,
)
    requires
        now <= at <= expiry(now, TOKEN_MINUTES as int),
    ensures
        lookup(
            logged_in(records, access_uuid, refresh_uuid, user_id, now),
            session_key(access_uuid),
            at,
        ) == Some(user_id),
        lookup(
            logged_in(records, access_uuid, refresh_uuid, user_id, now),
            session_key(refresh_uuid),
            at,
        ) == Some(user_id),
        session_failure(
            user_id,
            reply_to(
                logged_in(records, access_uuid, refresh_uuid, user_id, now),
                Command::Get { key: session_key(access_uuid) },
                at,
            ),
        ).is_none(),
{
}

/// A list with one more member gives to the member's name the member's
/// value, and to every other name what it gave before.
proof fn lemma_named_push(members: Seq<(Seq<char>, Claim)>, name: Seq<char>, value: Claim)
    ensures
        forall|wanted: Seq<char>| #[trigger]
            named(members.push((name, value)), wanted) == (if name == wanted {
                Some(value)
            } else {
                named(members, wanted)
            }),
{
    let pushed = members.push((name, value));
    assert(pushed.drop_last() =~= members);
    assert(pushed.last() == (name, value));
}

/// The seven names of the claims are seven different names.
proof fn lemma_claim_names_differ()
    ensures
        "sub"@ != "token_uuid"@,
        "sub"@ != "exp"@,
        "sub"@ != "iat"@,
        "sub"@ != "nbf"@,
        "sub"@ != "user_type"@,
        "sub"@ != "main_user_id"@,
        "token_uuid"@ != "exp"@,
        "token_uuid"@ != "iat"@,
        "token_uuid"@ != "nbf"@,
        "token_uuid"@ != "user_type"@,
        "token_uuid"@ != "main_user_id"@,
        "exp"@ != "iat"@,
        "exp"@ != "nbf"@,
        "exp"@ != "user_type"@,
        "exp"@ != "main_user_id"@,
        "iat"@ != "nbf"@,
        "iat"@ != "user_type"@,
        "iat"@ != "main_user_id"@,
        "nbf"@ != "user_type"@,
        "nbf"@ != "main_user_id"@,
        "user_type"@ != "main_user_id"@,
{
    reveal_strlit("sub");
    reveal_strlit("token_uuid");
    reveal_strlit("exp");
    reveal_strlit("iat");
    reveal_strlit("nbf");
    reveal_strlit("user_type");
    reveal_strlit("main_user_id");
    assert("sub"@.len() == 3 && "exp"@.len() == 3 && "iat"@.len() == 3 && "nbf"@.len() == 3);
    assert("token_uuid"@.len() == 10 && "user_type"@.len() == 9 && "main_user_id"@.len() == 12);
    assert("sub"@[0] == 's' && "exp"@[0] == 'e' && "iat"@[0] == 'i' && "nbf"@[0] == 'n');
}

/// What is written is what is read: the members that a token's payload is
/// written with are read back as the claims they were written from.
pub proof fn law_claims_are_read_as_written(claims: ClaimSet)
    ensures
        payload_claims(
            member_texts(claim_members(claims)),
            member_integers(claim_members(claims)),
        ) == Some(claims),
{
    lemma_claim_names_differ();
    let m0 = Seq::<(Seq<char>, Claim)>::empty();
    let m1 = m0.push(("sub"@, Claim::Text(claims.sub)));
    let m2 = m1.push(("token_uuid"@, Claim::Text(claims.token_uuid)));
    let m3 = m2.push(("exp"@, Claim::Integer(claims.exp)));
    let m4 = m3.push(("iat"@, Claim::Integer(claims.iat)));
    let m5 = m4.push(("nbf"@, Claim::Integer(claims.nbf)));
    let m6 = m5.push(("user_type"@, Claim::Text(claims.user_type)));
    let m7 = m6.push(("main_user_id"@, Claim::Text(claims.main_user_id)));
    lemma_named_push(m0, "sub"@, Claim::Text(claims.sub));
    lemma_named_push(m1, "token_uuid"@, Claim::Text(claims.token_uuid));
    lemma_named_push(m2, "exp"@, Claim::Integer(claims.exp));
    lemma_named_push(m3, "iat"@, Claim::Integer(claims.iat));
    lemma_named_push(m4, "nbf"@, Claim::Integer(claims.nbf));
    lemma_named_push(m5, "user_type"@, Claim::Text(claims.user_type));
    lemma_named_push(m6, "main_user_id"@, Claim::Text(claims.main_user_id));
    assert(m7 == claim_members(claims));
    assert(named(m7, "sub"@) == Some(Claim::Text(claims.sub)));
    assert(named(m7, "token_uuid"@) == Some(Claim::Text(claims.token_uuid)));
    assert(named(m7, "exp"@) == Some(Claim::Integer(claims.exp)));
    assert(named(m7, "iat"@) == Some(Claim::Integer(claims.iat)));
    assert(named(m7, "nbf"@) == Some(Claim::Integer(claims.nbf)));
    assert(named(m7, "user_type"@) == Some(Claim::Text(claims.user_type)));
    assert(named(m7, "main_user_id"@) == Some(Claim::Text(claims.main_user_id)));
}

/// Issuing and verifying agree, as far as this library's own steps go.
///
/// Suppose a token was signed over the claims of an issuance, and the
/// verification key reads back from it the members that were signed, and
/// the identifier's text reads back as the identifier. Then verification
/// accepts the token at every second from its issue to its expiry, and
/// what it accepts are the issued claims: same subject, role, account and
/// token identifier. That signing and reading back agree for a matching
/// key pair is a matter of the signature scheme and is not shown here.
pub proof fn law_issued_token_is_accepted(
    private_key: Seq<char>,
    public_key: Seq<char>,
    token: Seq<char>,
    user_id: Seq<char>,
    token_uuid: u128,
    now: int,
    ttl: int,
    user_type: Seq<char>,
    main_user_id: Seq<char>,
    at: int,
)
    requires
        key_material(private_key) matches Some(pem) && rs256_signed(
            issued_claims(user_id, token_uuid, now, ttl, user_type, main_user_id),
            pem,
        ) == Some(token),
        key_material(public_key) matches Some(pem) && rs256_payload(token, pem) == Some(
            (
                member_texts(
                    claim_members(
                        issued_claims(user_id, token_uuid, now, ttl, user_type, main_user_id),
                    ),
                ),
                member_integers(
                    claim_members(
                        issued_claims(user_id, token_uuid, now, ttl, user_type, main_user_id),
                    ),
                ),
            ),
        ),
        uuid_parsed(uuid_hyphenated(token_uuid)) == Some(token_uuid),
        now <= at <= expiry(now, ttl),
    ensures
        accepted_claims(public_key, token, at) == Some(
            issued_claims(user_id, token_uuid, now, ttl, user_type, main_user_id),
        ),
        in_force(issued_claims(user_id, token_uuid, now, ttl, user_type, main_user_id), at),
{
    law_claims_are_read_as_written(
        issued_claims(user_id, token_uuid, now, ttl, user_type, main_user_id),
    );
}

/// Different tokens have their sessions recorded under different keys.
pub proof fn law_session_keys_differ(one: u128, other: u128)
    requires
        one != other,
    ensures
        session_key(one) != session_key(other),
{
    if session_key(one) == session_key(other) {
        lemma_uuid_text_tells_id(one, other);
    }
}

/// A login touches no sessions but its own: what the store answers about
/// any third token is what it answered before.
pub proof fn law_login_leaves_other_sessions(
    records: Records,
    access_uuid: u128,
    refresh_uuid: u128,
    user_id: Seq<char>,
    now: int,
    other: u128,
    at: int,
)
    requires
        other != access_uuid,
        other != refresh_uuid,
    ensures
        lookup(
            logged_in(records, access_uuid, refresh_uuid, user_id, now),
            session_key(other),
            at,
        ) == lookup(records, session_key(other), at),
{
    law_session_keys_differ(other, access_uuid);
    law_session_keys_differ(other, refresh_uuid);
}

/// A logout revokes no sessions but its own: what the store answers about
/// any third token is what it answered before.
pub proof fn law_logout_leaves_other_sessions(
    records: Records,
    refresh_uuid: u128,
    access_uuid: u128,
    other: u128,
    at: int,
)
    requires
        other != access_uuid,
        other != refresh_uuid,
    ensures
        lookup(logged_out(records, refresh_uuid, access_uuid), session_key(other), at) == lookup(
            records,
            session_key(other),
            at,
        ),
{
    law_session_keys_differ(other, access_uuid);
    law_session_keys_differ(other, refresh_uuid);
}

} // verus!
