//! Credentials, which live in the system keychain rather than with the
//! other settings.
use vstd::prelude::*;

use crate::config::AppConfig;

verus! {

/// The secrets of an account on the notification service.
#[derive(Debug, Clone)]
pub struct Credentials {
    pub api_token: String,
    pub auth_user: String,
    pub auth_pass: String,
}

impl Default for Credentials {
    fn default() -> (r: Self)
        ensures
            r.api_token@.len() == 0,
            r.auth_user@.len() == 0,
            r.auth_pass@.len() == 0,
    {
        Credentials { api_token: String::new(), auth_user: String::new(), auth_pass: String::new() }
    }
}

/// What storing one secret amounts to: an empty value removes the entry.
#[derive(Debug, Clone)]
pub enum SecretUpdate {
    Delete,
    Store(String),
}

/// The keychain update that stores `value`.
pub fn secret_update(value: &str) -> (r: SecretUpdate)
    ensures
        value@.len() == 0 ==> r is Delete,
        value@.len() > 0 ==> (r matches SecretUpdate::Store(v) && v@ == value@),
{
    if value.is_empty() {
        SecretUpdate::Delete
    } else {
        SecretUpdate::Store(String::from_str(value))
    }
}

impl Credentials {
    /// The credentials held by `config`.
    pub fn of_config(config: &AppConfig) -> (r: Self)
        ensures
            r.api_token == config.api_token,
            r.auth_user == config.auth_user,
            r.auth_pass == config.auth_pass,
    {
        Credentials {
            api_token: config.api_token.clone(),
            auth_user: config.auth_user.clone(),
            auth_pass: config.auth_pass.clone(),
        }
    }
}

/// The value a setting takes after a merge: the stored one when not empty.
pub open spec fn merged(current: String, stored: String) -> String {
    if stored@.len() > 0 {
        stored
    } else {
        current
    }
}

/// Puts the stored credentials into `config`; an empty stored value leaves
/// the configured one in place.
pub fn merge_credentials(config: &mut AppConfig, stored: Credentials)
    ensures
        *final(config) == (AppConfig {
            api_token: merged(old(config).api_token, stored.api_token),
            auth_user: merged(old(config).auth_user, stored.auth_user),
            auth_pass: merged(old(config).auth_pass, stored.auth_pass),
            ..*old(config)
        }),
{
    let Credentials { api_token, auth_user, auth_pass } = stored;
    if !api_token.as_str().is_empty() {
        config.api_token = api_token;
    }
    if !auth_user.as_str().is_empty() {
        config.auth_user = auth_user;
    }
    if !auth_pass.as_str().is_empty() {
        config.auth_pass = auth_pass;
    }
}

} // verus!
