use authorization::accounts::{login, profile_filter, profile_id, user_verification};
use authorization::token::Role;
use authorization::errors::Error;
use authorization::model::{Datetime, PayloadUserResponse, Thing};

fn account(name: &str, verified: bool, token: Option<&str>) -> PayloadUserResponse {
    PayloadUserResponse {
        id: Thing { tb: "user".to_string(), id: name.to_string() },
        username: name.to_string(),
        user_type: "trainer".to_string(),
        email: format!("{}@example.com", name),
        password: "hash".to_string(),
        verified,
        verified_token: token.map(|t| t.to_string()),
        created_at: Some(Datetime { seconds: 10 }),
        updated_at: None,
    }
}

#[test]
fn login_takes_the_first_account_found() {
    let found = vec![account("ann", true, None), account("bob", true, None)];
    let user = login(found).unwrap();
    assert_eq!(user.username, "ann");
    assert_eq!(user.id.to_raw(), "user:ann");
}

#[test]
fn login_without_an_account_is_not_available() {
    match login(Vec::new()) {
        Err(Error::DataNotAvaliable(what)) => assert_eq!(what, "User not found"),
        other => panic!("unexpected {:?}", other),
    }
}

#[test]
fn login_of_an_unverified_account_is_refused() {
    match login(vec![account("ann", false, None)]) {
        Err(Error::UserNotVerified(what)) => assert_eq!(what, "User not Verified Yet"),
        other => panic!("unexpected {:?}", other),
    }
}

#[test]
fn verification_marks_the_account_and_keeps_the_rest() {
    let user = user_verification(vec![account("ann", false, Some("tok"))], "tok", 77).unwrap();
    assert!(user.verified);
    assert_eq!(user.id, Some(Thing { tb: "user".to_string(), id: "ann".to_string() }));
    assert_eq!(user.username, "ann");
    assert_eq!(user.user_type, "trainer");
    assert_eq!(user.email, "ann@example.com");
    assert_eq!(user.password, "hash");
    assert_eq!(user.verified_token, Some("tok".to_string()));
    assert_eq!(user.created_at, Some(Datetime { seconds: 10 }));
    assert_eq!(user.updated_at, Some(Datetime { seconds: 77 }));
}

#[test]
fn verification_with_another_token_is_unauthorized() {
    for found in [
        Vec::new(),
        vec![account("ann", false, Some("other"))],
        vec![account("ann", false, None)],
    ] {
        match user_verification(found, "tok", 77) {
            Err(Error::UserUnauthorized(what)) => assert_eq!(what, "Invalid verification token"),
            other => panic!("unexpected {:?}", other),
        }
    }
}

#[test]
fn the_first_profile_is_the_role_entity() {
    let found = vec!["gym:g1".to_string(), "gym:g2".to_string()];
    assert_eq!(profile_id(found, "user:u1").unwrap(), "gym:g1");
}

#[test]
fn an_account_without_a_profile_is_not_available() {
    match profile_id(Vec::new(), "user:u1") {
        Err(Error::DataNotAvaliable(what)) => assert_eq!(what, "user:u1"),
        other => panic!("unexpected {:?}", other),
    }
}

#[test]
fn a_profile_is_selected_by_its_own_identifier_or_by_its_account() {
    assert_eq!(profile_filter("gym:g1".to_string(), Role::Gym), "id = gym:g1");
    assert_eq!(profile_filter("user:u1".to_string(), Role::Gym), "owner_id =  user:u1");
    assert_eq!(profile_filter("gym_seeker:s1".to_string(), Role::GymSeeker), "id = gym_seeker:s1");
    assert_eq!(profile_filter("user:u1".to_string(), Role::GymSeeker), "user_id = user:u1");
    assert_eq!(profile_filter("trainer:t1".to_string(), Role::Trainer), "id = trainer:t1");
    assert_eq!(profile_filter("user:u1".to_string(), Role::Trainer), "user_id =  user:u1");
    assert_eq!(profile_filter("gym:g1".to_string(), Role::Trainer), "user_id =  gym:g1");
}
