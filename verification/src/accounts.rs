//! What is decided about an account once the data layer has answered.

use crate::errors::Error;
use crate::model::{Datetime, PayloadUserResponse, User};
use crate::token::{table_of, EntityRef, Role};
use vstd::prelude::*;
use vstd::string::StringExecFns;

verus! {

/// Picks the account that a login is for out of the accounts found under
/// the email given: the first one, which must have been verified.
pub fn login(found: Vec<PayloadUserResponse>) -> (r: Result<PayloadUserResponse, Error>)
    ensures
        match r {
            Ok(user) => found@.len() > 0 && user == found@[0] && user.verified,
            Err(Error::DataNotAvaliable(what)) => found@.len() == 0 && what@ == "User not found"@,
            Err(Error::UserNotVerified(what)) => found@.len() > 0 && !found@[0].verified && what@
                == "User not Verified Yet"@,
            Err(_) => false,
        },
{
    let mut found = found;
    if found.len() == 0 {
        return Err(Error::DataNotAvaliable(String::from_str("User not found")));
    }
    let user = found.remove(0);
    if !user.verified {
        return Err(Error::UserNotVerified(String::from_str("User not Verified Yet")));
    }
    Ok(user)
}

/// Whether an account was found under a verification token and carries it.
pub open spec fn verifiable(found: Seq<PayloadUserResponse>, token: Seq<char>) -> bool {
    &&& found.len() > 0
    &&& found[0].verified_token matches Some(kept)
    &&& kept@ == token
}

/// Confirms an account at the second `now`: the first of the accounts
/// found under the verification token, which must carry that token, comes
/// back marked as verified and as updated at `now`, and otherwise as it was.
pub fn user_verification(found: Vec<PayloadUserResponse>, token: &str, now: i64) -> (r: Result<
    User,
    Error,
>)
    ensures
        match r {
            Ok(user) => {
                &&& verifiable(found@, token@)
                &&& user.id == Some(found@[0].id)
                &&& user.username == found@[0].username
                &&& user.user_type == found@[0].user_type
                &&& user.email == found@[0].email
                &&& user.password == found@[0].password
                &&& user.verified
                &&& user.verified_token == found@[0].verified_token
                &&& user.created_at == found@[0].created_at
                &&& user.updated_at == Some(Datetime { seconds: now })
            },
            Err(Error::UserUnauthorized(what)) => !verifiable(found@, token@) && what@
                == "Invalid verification token"@,
            Err(_) => false,
        },
{
    let mut found = found;
    if found.len() == 0 {
        return Err(Error::UserUnauthorized(String::from_str("Invalid verification token")));
    }
    let user = found.remove(0);
    let matches_token = match &user.verified_token {
        Some(kept) => *kept == String::from_str(token),
        None => false,
    };
    if !matches_token {
        return Err(Error::UserUnauthorized(String::from_str("Invalid verification token")));
    }
    Ok(
        User {
            id: Some(user.id),
            username: user.username,
            user_type: user.user_type,
            email: user.email,
            password: user.password,
            verified: true,
            verified_token: user.verified_token,
            created_at: user.created_at,
            updated_at: Some(Datetime { seconds: now }),
        },
    )
}

/// Picks the role entity of an account out of the profiles found for the
/// identifier `id`: the first one. An account without a profile is not
/// available.
pub fn profile_id(found: Vec<String>, id: &str) -> (r: Result<String, Error>)
    ensures
        match r {
            Ok(profile) => found@.len() > 0 && profile == found@[0],
            Err(Error::DataNotAvaliable(what)) => found@.len() == 0 && what@ == id@,
            Err(_) => false,
        },
{
    let mut found = found;
    if found.len() == 0 {
        return Err(Error::DataNotAvaliable(String::from_str(id)));
    }
    Ok(found.remove(0))
}

/// The condition under which a profile of the given role belongs to an
/// identifier: the profile's own identifier, if that is what `id` is, and
/// else the column in which the profile names its account.
pub open spec fn profile_condition(id: Seq<char>, role: Role) -> Seq<char> {
    if table_of(id) == role.name() {
        "id = "@ + id
    } else {
        match role {
            Role::Gym => "owner_id =  "@ + id,
            Role::GymSeeker => "user_id = "@ + id,
            Role::Trainer => "user_id =  "@ + id,
        }
    }
}

/// Writes the condition that selects the profile of the given role for an
/// identifier, which may be the profile's own or its account's.
pub fn profile_filter(id: String, role: Role) -> (filter: String)
    ensures
        filter@ == profile_condition(id@, role),
{
    match EntityRef::classify(id, role) {
        EntityRef::RoleEntity(id) => String::from_str("id = ").concat(id.as_str()),
        EntityRef::IdentityRoot(id) => match role {
            Role::Gym => String::from_str("owner_id =  ").concat(id.as_str()),
            Role::GymSeeker => String::from_str("user_id = ").concat(id.as_str()),
            Role::Trainer => String::from_str("user_id =  ").concat(id.as_str()),
        },
    }
}

} // verus!
