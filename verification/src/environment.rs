//! The settings of the service, among them the key material for the two
//! token classes.

use crate::jwt::{decode_key, key_material};
use crate::token::TokenClass;
use vstd::prelude::*;
use vstd::string::StringExecFns;

verus! {

/// The settings of the service. A setting that was not given reads `none`.
#[derive(Debug, PartialEq, Clone)]
pub struct Environment {
    pub db_host: String,
    pub db_port: String,
    pub db_user: String,
    pub db_pass: String,
    pub db_name: String,
    pub db_namespace: String,
    pub host_ip: String,
    pub host_port: String,
    pub refresh_token_private_key: String,
    pub refresh_token_public_key: String,
    pub access_token_private_key: String,
    pub access_token_public_key: String,
    pub redis_host: String,
    pub redis_username: String,
    pub redis_password: String,
    pub redis_port: String,
    pub host_name: String,
    pub gcp_credentials: String,
    pub env: String,
    pub storage_bucket: String,
    pub gcp_storage_api: String,
    pub app_port: String,
}

/// The value that a list of variables gives to `name`: that of the first
/// variable with this name, and `none` if there is no such variable.
pub open spec fn setting(vars: Seq<(String, String)>, name: Seq<char>) -> Seq<char>
    decreases vars.len(),
{
    if vars.len() == 0 {
        "none"@
    } else if vars[0].0@ == name {
        vars[0].1@
    } else {
        setting(vars.drop_first(), name)
    }
}

/// Looks a setting up in a list of variables.
pub fn read_setting(vars: &Vec<(String, String)>, name: &str) -> (value: String)
    ensures
        value@ == setting(vars@, name@),
{
    let wanted = String::from_str(name);
    let mut i: usize = 0;
    assert(vars@.subrange(0, vars@.len() as int) =~= vars@);
    while i < vars.len()
        invariant
            i <= vars@.len(),
            wanted@ == name@,
            setting(vars@, name@) == setting(vars@.subrange(i as int, vars@.len() as int), name@),
        decreases vars@.len() - i,
    {
        let ghost rest = vars@.subrange(i as int, vars@.len() as int);
        assert(rest[0] == vars@[i as int]);
        assert(rest.drop_first() =~= vars@.subrange(i + 1, vars@.len() as int));
        if vars[i].0 == wanted {
            return vars[i].1.clone();
        }
        i += 1;
    }
    assert(vars@.subrange(i as int, vars@.len() as int).len() == 0);
    String::from_str("none")
}

impl Environment {
    /// Reads the settings from the variables of the process.
    pub fn new(vars: &Vec<(String, String)>) -> (e: Environment)
        ensures
            e.db_host@ == setting(vars@, "DB_HOST"@),
            e.db_port@ == setting(vars@, "DB_PORT"@),
            e.db_user@ == setting(vars@, "DB_USER"@),
            e.db_pass@ == setting(vars@, "DB_PASS"@),
            e.db_name@ == setting(vars@, "DB_NAME"@),
            e.db_namespace@ == setting(vars@, "DB_NAMESPACE"@),
            e.redis_host@ == setting(vars@, "REDIS_HOST"@),
            e.redis_username@ == setting(vars@, "REDIS_USERNAME"@),
            e.redis_password@ == setting(vars@, "REDIS_PASSWORD"@),
            e.redis_port@ == setting(vars@, "REDIS_PORT"@),
            e.host_ip@ == setting(vars@, "HOST_IP"@),
            e.host_port@ == setting(vars@, "HOST_PORT"@),
            e.refresh_token_private_key@ == setting(vars@, "REFRESH_TOKEN_PRIVATE_KEY"@),
            e.refresh_token_public_key@ == setting(vars@, "REFRESH_TOKEN_PUBLIC_KEY"@),
            e.access_token_private_key@ == setting(vars@, "ACCESS_TOKEN_PRIVATE_KEY"@),
            e.access_token_public_key@ == setting(vars@, "ACCESS_TOKEN_PUBLIC_KEY"@),
            e.host_name@ == setting(vars@, "HOST_NAME"@),
            e.gcp_credentials@ == setting(vars@, "GCP_CREDENTIALS_PATH"@),
            e.env@ == setting(vars@, "RUNNING_ENVIRONMENT"@),
            e.storage_bucket@ == setting(vars@, "STORAGE_BUCKET"@),
            e.gcp_storage_api@ == setting(vars@, "GOOGLE_STORAGE_API_HOST"@),
            e.app_port@ == setting(vars@, "APP_PORT"@),
    {
        Environment {
            db_host: read_setting(vars, "DB_HOST"),
            db_port: read_setting(vars, "DB_PORT"),
            db_user: read_setting(vars, "DB_USER"),
            db_pass: read_setting(vars, "DB_PASS"),
            db_name: read_setting(vars, "DB_NAME"),
            db_namespace: read_setting(vars, "DB_NAMESPACE"),
            redis_host: read_setting(vars, "REDIS_HOST"),
            redis_username: read_setting(vars, "REDIS_USERNAME"),
            redis_password: read_setting(vars, "REDIS_PASSWORD"),
            redis_port: read_setting(vars, "REDIS_PORT"),
            host_name: read_setting(vars, "HOST_NAME"),
            host_ip: read_setting(vars, "HOST_IP"),
            host_port: read_setting(vars, "HOST_PORT"),
            refresh_token_private_key: read_setting(vars, "REFRESH_TOKEN_PRIVATE_KEY"),
            refresh_token_public_key: read_setting(vars, "REFRESH_TOKEN_PUBLIC_KEY"),
            access_token_private_key: read_setting(vars, "ACCESS_TOKEN_PRIVATE_KEY"),
            access_token_public_key: read_setting(vars, "ACCESS_TOKEN_PUBLIC_KEY"),
            gcp_credentials: read_setting(vars, "GCP_CREDENTIALS_PATH"),
            env: read_setting(vars, "RUNNING_ENVIRONMENT"),
            storage_bucket: read_setting(vars, "STORAGE_BUCKET"),
            gcp_storage_api: read_setting(vars, "GOOGLE_STORAGE_API_HOST"),
            app_port: read_setting(vars, "APP_PORT"),
        }
    }

    /// Whether all four keys can be decoded into PEM text. A service whose
    /// keys cannot be decoded can neither issue nor verify a token.
    pub fn keys_decode(&self) -> (ok: bool)
        ensures
            ok == (key_material(self.access_token_private_key@).is_some() && key_material(
                self.access_token_public_key@,
            ).is_some() && key_material(self.refresh_token_private_key@).is_some()
                && key_material(self.refresh_token_public_key@).is_some()),
    {
        decode_key(self.access_token_private_key.as_str()).is_ok() && decode_key(
            self.access_token_public_key.as_str(),
        ).is_ok() && decode_key(self.refresh_token_private_key.as_str()).is_ok() && decode_key(
            self.refresh_token_public_key.as_str(),
        ).is_ok()
    }

    /// The private key that tokens of a class are signed with.
    pub fn signing_key(&self, class: TokenClass) -> (key: &String)
        ensures
            *key == (match class {
                TokenClass::Access => self.access_token_private_key,
                TokenClass::Refresh => self.refresh_token_private_key,
            }),
    {
        match class {
            TokenClass::Access => &self.access_token_private_key,
            TokenClass::Refresh => &self.refresh_token_private_key,
        }
    }

    /// The public key that tokens of a class are verified with.
    pub fn verification_key(&self, class: TokenClass) -> (key: &String)
        ensures
            *key == (match class {
                TokenClass::Access => self.access_token_public_key,
                TokenClass::Refresh => self.refresh_token_public_key,
            }),
    {
        match class {
            TokenClass::Access => &self.access_token_public_key,
            TokenClass::Refresh => &self.refresh_token_public_key,
        }
    }
}

} // verus!
