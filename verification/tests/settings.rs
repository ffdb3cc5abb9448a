use authorization::environment::{read_setting, Environment};
use authorization::token::{EntityRef, Role, TokenClass};

fn vars(pairs: &[(&str, &str)]) -> Vec<(String, String)> {
    pairs.iter().map(|(k, v)| (k.to_string(), v.to_string())).collect()
}

#[test]
fn a_missing_setting_reads_none() {
    let given = vars(&[("DB_HOST", "db.internal")]);
    assert_eq!(read_setting(&given, "DB_HOST"), "db.internal");
    assert_eq!(read_setting(&given, "DB_PORT"), "none");
    assert_eq!(read_setting(&Vec::new(), "DB_HOST"), "none");
}

#[test]
fn the_first_of_two_variables_wins() {
    let given = vars(&[("A", "1"), ("B", "2"), ("A", "3")]);
    assert_eq!(read_setting(&given, "A"), "1");
    assert_eq!(read_setting(&given, "B"), "2");
}

#[test]
fn environment_reads_every_setting_by_its_name() {
    let given = vars(&[
        ("DB_HOST", "h"),
        ("DB_PORT", "8000"),
        ("DB_USER", "root"),
        ("DB_PASS", "pw"),
        ("DB_NAME", "gym"),
        ("DB_NAMESPACE", "ns"),
        ("REDIS_HOST", "r"),
        ("REDIS_USERNAME", "ru"),
        ("REDIS_PASSWORD", "rp"),
        ("REDIS_PORT", "6379"),
        ("HOST_IP", "127.0.0.1"),
        ("HOST_PORT", "80"),
        ("REFRESH_TOKEN_PRIVATE_KEY", "rpriv"),
        ("REFRESH_TOKEN_PUBLIC_KEY", "rpub"),
        ("ACCESS_TOKEN_PRIVATE_KEY", "apriv"),
        ("ACCESS_TOKEN_PUBLIC_KEY", "apub"),
        ("HOST_NAME", "example.com"),
        ("GCP_CREDENTIALS_PATH", "/creds.json"),
        ("RUNNING_ENVIRONMENT", "test"),
        ("STORAGE_BUCKET", "bucket"),
        ("GOOGLE_STORAGE_API_HOST", "storage"),
        ("APP_PORT", "3000"),
    ]);
    let e = Environment::new(&given);
    assert_eq!(e.db_host, "h");
    assert_eq!(e.db_port, "8000");
    assert_eq!(e.db_user, "root");
    assert_eq!(e.db_pass, "pw");
    assert_eq!(e.db_name, "gym");
    assert_eq!(e.db_namespace, "ns");
    assert_eq!(e.redis_host, "r");
    assert_eq!(e.redis_username, "ru");
    assert_eq!(e.redis_password, "rp");
    assert_eq!(e.redis_port, "6379");
    assert_eq!(e.host_ip, "127.0.0.1");
    assert_eq!(e.host_port, "80");
    assert_eq!(e.refresh_token_private_key, "rpriv");
    assert_eq!(e.refresh_token_public_key, "rpub");
    assert_eq!(e.access_token_private_key, "apriv");
    assert_eq!(e.access_token_public_key, "apub");
    assert_eq!(e.host_name, "example.com");
    assert_eq!(e.gcp_credentials, "/creds.json");
    assert_eq!(e.env, "test");
    assert_eq!(e.storage_bucket, "bucket");
    assert_eq!(e.gcp_storage_api, "storage");
    assert_eq!(e.app_port, "3000");
}

#[test]
fn environment_without_variables_reads_none_everywhere() {
    let e = Environment::new(&Vec::new());
    assert_eq!(e.db_host, "none");
    assert_eq!(e.access_token_private_key, "none");
    assert_eq!(e.app_port, "none");
}

#[test]
fn each_token_class_has_its_own_key_pair() {
    let given = vars(&[
        ("REFRESH_TOKEN_PRIVATE_KEY", "rpriv"),
        ("REFRESH_TOKEN_PUBLIC_KEY", "rpub"),
        ("ACCESS_TOKEN_PRIVATE_KEY", "apriv"),
        ("ACCESS_TOKEN_PUBLIC_KEY", "apub"),
    ]);
    let e = Environment::new(&given);
    assert_eq!(e.signing_key(TokenClass::Access), "apriv");
    assert_eq!(e.signing_key(TokenClass::Refresh), "rpriv");
    assert_eq!(e.verification_key(TokenClass::Access), "apub");
    assert_eq!(e.verification_key(TokenClass::Refresh), "rpub");
}

#[test]
fn roles_are_read_from_their_names() {
    assert_eq!(Role::parse("gym"), Some(Role::Gym));
    assert_eq!(Role::parse("trainer"), Some(Role::Trainer));
    assert_eq!(Role::parse("gym_seeker"), Some(Role::GymSeeker));
    assert_eq!(Role::parse("Gym"), None);
    assert_eq!(Role::parse(""), None);
    assert_eq!(Role::parse("admin"), None);
    for role in [Role::Gym, Role::Trainer, Role::GymSeeker] {
        assert_eq!(Role::parse(role.as_str()), Some(role));
    }
}

#[test]
fn identifier_in_the_roles_own_table_is_the_role_entity() {
    assert!(matches!(
        EntityRef::classify("gym:g1".to_string(), Role::Gym),
        EntityRef::RoleEntity(id) if id == "gym:g1"
    ));
    assert!(matches!(
        EntityRef::classify("gym_seeker:s1".to_string(), Role::GymSeeker),
        EntityRef::RoleEntity(id) if id == "gym_seeker:s1"
    ));
    assert!(matches!(
        EntityRef::classify("trainer:a:b".to_string(), Role::Trainer),
        EntityRef::RoleEntity(_)
    ));
    assert!(matches!(EntityRef::classify("gym".to_string(), Role::Gym), EntityRef::RoleEntity(_)));
}

#[test]
fn any_other_identifier_is_the_account() {
    assert!(matches!(
        EntityRef::classify("user:u1".to_string(), Role::Gym),
        EntityRef::IdentityRoot(id) if id == "user:u1"
    ));
    assert!(matches!(
        EntityRef::classify("gym_seeker:s1".to_string(), Role::Gym),
        EntityRef::IdentityRoot(_)
    ));
    assert!(matches!(
        EntityRef::classify("gym:g1".to_string(), Role::Trainer),
        EntityRef::IdentityRoot(_)
    ));
    assert!(matches!(EntityRef::classify(String::new(), Role::Gym), EntityRef::IdentityRoot(_)));
    assert!(matches!(
        EntityRef::classify(":gym".to_string(), Role::Gym),
        EntityRef::IdentityRoot(_)
    ));
    assert!(matches!(
        EntityRef::classify("g\u{fc}m:1".to_string(), Role::Gym),
        EntityRef::IdentityRoot(_)
    ));
}

#[test]
fn keys_must_all_be_base64_of_text() {
    let good = "aGVsbG8=";
    let given = vars(&[
        ("REFRESH_TOKEN_PRIVATE_KEY", good),
        ("REFRESH_TOKEN_PUBLIC_KEY", good),
        ("ACCESS_TOKEN_PRIVATE_KEY", good),
        ("ACCESS_TOKEN_PUBLIC_KEY", good),
    ]);
    assert!(Environment::new(&given).keys_decode());
    let one_bad = vars(&[
        ("REFRESH_TOKEN_PRIVATE_KEY", good),
        ("REFRESH_TOKEN_PUBLIC_KEY", "/w=="),
        ("ACCESS_TOKEN_PRIVATE_KEY", good),
        ("ACCESS_TOKEN_PUBLIC_KEY", good),
    ]);
    assert!(!Environment::new(&one_bad).keys_decode());
    let one_missing = vars(&[
        ("REFRESH_TOKEN_PRIVATE_KEY", good),
        ("REFRESH_TOKEN_PUBLIC_KEY", good),
        ("ACCESS_TOKEN_PRIVATE_KEY", good),
    ]);
    assert!(!Environment::new(&one_missing).keys_decode());
}
