//! Logging in through the identity provider.
//!
//! A login sends the browser to the provider with a fresh random state, which
//! the session remembers. The provider sends the browser back with that state
//! and a code; the code is traded for a token, and the token for the user.

use crate::config::AppConfig;
use crate::database::models::user::UserCreate;
use crate::error::AppError;
use crate::text::{copy_text, is_alphanumeric, same_text, str_of};
use rand::distr::{Alphanumeric, SampleString};
use vstd::prelude::*;
use vstd::std_specs::convert::FromSpecImpl;
use vstd::string::*;

verus! {

pub struct AuthHandler;

/// What the provider sends the browser back with.
#[derive(Debug, Clone, PartialEq, Eq)]
pub struct Callback {
    pub state: String,
    pub code: String,
}

/// The token the provider trades a code for.
#[derive(Debug, Clone, PartialEq, Eq)]
pub struct ZauthToken {
    pub access_token: String,
}

/// A user as the provider describes them.
#[derive(Debug, Clone, PartialEq, Eq)]
pub struct ZauthUser {
    pub id: u32,
    pub username: String,
    pub roles: Vec<String>,
}

/// What is done with a callback.
#[derive(Debug, Clone, PartialEq, Eq)]
pub enum CallbackStep {
    /// The session remembers no state: the login starts over.
    Restart,
    /// The state is the remembered one: the code is traded for a token.
    Exchange,
}

/// How long the random state of a login is.
pub const STATE_LENGTH: usize = 16;

/// The address the browser is sent to for a login.
pub open spec fn login_address(
    zauth_url: Seq<char>,
    client_id: Seq<char>,
    state: Seq<char>,
    callback: Seq<char>,
) -> Seq<char> {
    zauth_url + "/oauth/authorize?client_id="@ + client_id + "&response_type=code&scope=roles&state="@
        + state + "&redirect_uri="@ + callback
}

/// Whether `result` is what is done with a callback that carries `returned`
/// in a session that remembers `remembered`.
pub open spec fn is_callback_step(
    remembered: Option<Seq<char>>,
    returned: Seq<char>,
    result: Result<CallbackStep, AppError>,
) -> bool {
    match remembered {
        None => result == Ok::<CallbackStep, AppError>(CallbackStep::Restart),
        Some(state) => if state == returned {
            result == Ok::<CallbackStep, AppError>(CallbackStep::Exchange)
        } else {
            result matches Err(AppError::Zauth(message)) && message@ == "States don't match"@
        },
    }
}

/// The user to store for an account of the provider.
pub open spec fn stored_user(value: ZauthUser) -> UserCreate {
    UserCreate { id: value.id, username: value.username }
}

/// `SampleString::sample_string` of `Alphanumeric` on the thread's
/// generator: a random text of the given number of characters, each of them
/// an ASCII letter or digit. Which ones is left to chance.
#[verifier::external_body]
fn random_text(length: usize) -> (text: String)
    ensures
        text@.len() == length,
        forall|i: int| 0 <= i < text@.len() ==> is_alphanumeric(#[trigger] text@[i]),
{
    Alphanumeric.sample_string(&mut rand::rng(), length)
}

impl From<ZauthUser> for UserCreate {
    fn from(value: ZauthUser) -> (user: UserCreate) {
        UserCreate { id: value.id, username: value.username }
    }
}

impl FromSpecImpl<ZauthUser> for UserCreate {
    open spec fn obeys_from_spec() -> bool {
        true
    }

    open spec fn from_spec(value: ZauthUser) -> UserCreate {
        stored_user(value)
    }
}

impl AuthHandler {
    /// A fresh state for a login.
    pub fn fresh_state() -> (state: String)
        ensures
            state@.len() == STATE_LENGTH,
            forall|i: int| 0 <= i < state@.len() ==> is_alphanumeric(#[trigger] state@[i]),
    {
        random_text(STATE_LENGTH)
    }

    /// The address the browser is sent to for a login with the given state.
    pub fn login(config: &AppConfig, state: &str) -> (address: String)
        ensures
            address@ == login_address(
                config.zauth_url@,
                config.zauth_client_id@,
                state@,
                config.zauth_callback@,
            ),
    {
        let mut address = copy_text(&config.zauth_url);
        address.append("/oauth/authorize?client_id=");
        address.append(config.zauth_client_id.as_str());
        address.append("&response_type=code&scope=roles&state=");
        address.append(state);
        address.append("&redirect_uri=");
        address.append(config.zauth_callback.as_str());
        address
    }

    /// Decides what is done with a callback: the state it carries must be the
    /// one the session remembers.
    pub fn callback(remembered: Option<&str>, params: &Callback) -> (result: Result<
        CallbackStep,
        AppError,
    >)
        ensures
            is_callback_step(str_of(remembered), params.state@, result),
    {
        match remembered {
            None => Ok(CallbackStep::Restart),
            Some(state) => {
                if same_text(state, params.state.as_str()) {
                    Ok(CallbackStep::Exchange)
                } else {
                    Err(AppError::Zauth(String::from_str("States don't match")))
                }
            },
        }
    }

    /// The address a code is traded for a token at.
    pub fn token_address(config: &AppConfig) -> (address: String)
        ensures
            address@ == config.zauth_url@ + "/oauth/token"@,
    {
        let mut address = copy_text(&config.zauth_url);
        address.append("/oauth/token");
        address
    }

    /// The address a token is traded for its user at.
    pub fn user_address(config: &AppConfig) -> (address: String)
        ensures
            address@ == config.zauth_url@ + "/current_user"@,
    {
        let mut address = copy_text(&config.zauth_url);
        address.append("/current_user");
        address
    }

    /// The `Authorization` header that shows a token.
    pub fn bearer(token: &ZauthToken) -> (header: String)
        ensures
            header@ == "Bearer "@ + token.access_token@,
    {
        let mut header = String::from_str("Bearer ");
        header.append(token.access_token.as_str());
        header
    }
}

} // verus!
