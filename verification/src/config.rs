//! The settings the service runs with, taken from its environment.

use crate::error::AppError;
use crate::text::{copy_text, same_text};
use vstd::prelude::*;
use vstd::string::*;

verus! {

/// The settings of the service.
#[derive(Debug, Clone, PartialEq, Eq)]
pub struct AppConfig {
    pub zauth_url: String,
    pub zauth_callback: String,
    pub zauth_client_id: String,
    pub zauth_client_secret: String,
    pub image_path: String,
    pub magick_path: String,
    pub database_url: String,
    pub frontend_url: String,
}

/// The value the environment gives a name: that of the first entry with
/// that name.
pub open spec fn lookup(vars: Seq<(String, String)>, name: Seq<char>) -> Option<String>
    decreases vars.len(),
{
    if vars.len() == 0 {
        None
    } else if vars[0].0@ == name {
        Some(vars[0].1)
    } else {
        lookup(vars.subrange(1, vars.len() as int), name)
    }
}

/// Whether `result` is the value the environment gives `name`, or the
/// complaint that it gives none.
pub open spec fn is_var(
    vars: Seq<(String, String)>,
    name: Seq<char>,
    result: Result<String, AppError>,
) -> bool {
    match lookup(vars, name) {
        Some(value) => result == Ok::<String, AppError>(value),
        None => result matches Err(AppError::Env(missing)) && missing@ == name,
    }
}

/// The names of the settings, in the order they are read.
pub open spec fn setting_names() -> Seq<Seq<char>> {
    seq![
        "ZAUTH_URL"@,
        "ZAUTH_CALLBACK_PATH"@,
        "ZAUTH_CLIENT_ID"@,
        "ZAUTH_CLIENT_SECRET"@,
        "IMAGE_PATH"@,
        "MAGICK_PATH"@,
        "DATABASE_URL"@,
        "FRONTEND_URL"@,
    ]
}

/// Whether the environment gives each of the first `n` settings a value.
pub open spec fn has_settings(vars: Seq<(String, String)>, n: int) -> bool {
    forall|i: int| 0 <= i < n ==> (#[trigger] lookup(vars, setting_names()[i])) is Some
}

/// Whether `config` holds the value the environment gives each setting.
pub open spec fn is_loaded(vars: Seq<(String, String)>, config: AppConfig) -> bool {
    &&& lookup(vars, "ZAUTH_URL"@) == Some(config.zauth_url)
    &&& lookup(vars, "ZAUTH_CALLBACK_PATH"@) == Some(config.zauth_callback)
    &&& lookup(vars, "ZAUTH_CLIENT_ID"@) == Some(config.zauth_client_id)
    &&& lookup(vars, "ZAUTH_CLIENT_SECRET"@) == Some(config.zauth_client_secret)
    &&& lookup(vars, "IMAGE_PATH"@) == Some(config.image_path)
    &&& lookup(vars, "MAGICK_PATH"@) == Some(config.magick_path)
    &&& lookup(vars, "DATABASE_URL"@) == Some(config.database_url)
    &&& lookup(vars, "FRONTEND_URL"@) == Some(config.frontend_url)
}

/// Whether setting `n` is the first, in the order they are read, that the
/// environment gives no value.
pub open spec fn is_first_missing(vars: Seq<(String, String)>, n: int) -> bool {
    0 <= n < 8 && has_settings(vars, n) && lookup(vars, setting_names()[n]) is None
}

/// Whether `result` is what loading the settings from the environment
/// gives: the settings where each has a value, and otherwise the complaint
/// about the first one, in the order they are read, that has none.
pub open spec fn is_load(vars: Seq<(String, String)>, result: Result<AppConfig, AppError>) -> bool {
    match result {
        Ok(config) => has_settings(vars, 8) && is_loaded(vars, config),
        Err(AppError::Env(missing)) => exists|n: int|
            #[trigger] is_first_missing(vars, n) && missing@ == setting_names()[n],
        Err(_) => false,
    }
}

/// The value the environment gives a name.
pub fn get_env_var(vars: &Vec<(String, String)>, name: &str) -> (result: Result<String, AppError>)
    ensures
        is_var(vars@, name@, result),
{
    let mut i: usize = 0;
    assert(vars@.subrange(0, vars.len() as int) =~= vars@);
    while i < vars.len()
        invariant
            i <= vars.len(),
            lookup(vars@, name@) == lookup(vars@.subrange(i as int, vars.len() as int), name@),
        decreases vars.len() - i,
    {
        let ghost rest = vars@.subrange(i as int, vars.len() as int);
        assert(rest[0] == vars[i as int]);
        if same_text(vars[i].0.as_str(), name) {
            return Ok(copy_text(&vars[i].1));
        }
        assert(rest.subrange(1, rest.len() as int) =~= vars@.subrange(
            i + 1,
            vars.len() as int,
        ));
        i = i + 1;
    }
    Err(AppError::Env(String::from_str(name)))
}

/// Reads setting `n` from an environment that gives each setting before it
/// a value: its value, or the complaint that loading ends with.
fn read_setting(vars: &Vec<(String, String)>, n: usize, name: &str) -> (result: Result<
    String,
    AppError,
>)
    requires
        n < 8,
        name@ == setting_names()[n as int],
        has_settings(vars@, n as int),
    ensures
        match result {
            Ok(value) => lookup(vars@, name@) == Some(value) && has_settings(vars@, n + 1),
            Err(e) => is_load(vars@, Err(e)),
        },
{
    let result = get_env_var(vars, name);
    proof {
        if result is Err {
            assert(is_first_missing(vars@, n as int));
        }
    }
    result
}

impl AppConfig {
    /// Loads the settings from the environment, given as its entries.
    pub fn load(vars: &Vec<(String, String)>) -> (result: Result<AppConfig, AppError>)
        ensures
            is_load(vars@, result),
    {
        let zauth_url = match read_setting(vars, 0, "ZAUTH_URL") {
            Ok(value) => value,
            Err(e) => {
                return Err(e);
            },
        };
        let zauth_callback = match read_setting(vars, 1, "ZAUTH_CALLBACK_PATH") {
            Ok(value) => value,
            Err(e) => {
                return Err(e);
            },
        };
        let zauth_client_id = match read_setting(vars, 2, "ZAUTH_CLIENT_ID") {
            Ok(value) => value,
            Err(e) => {
                return Err(e);
            },
        };
        let zauth_client_secret = match read_setting(vars, 3, "ZAUTH_CLIENT_SECRET") {
            Ok(value) => value,
            Err(e) => {
                return Err(e);
            },
        };
        let image_path = match read_setting(vars, 4, "IMAGE_PATH") {
            Ok(value) => value,
            Err(e) => {
                return Err(e);
            },
        };
        let magick_path = match read_setting(vars, 5, "MAGICK_PATH") {
            Ok(value) => value,
            Err(e) => {
                return Err(e);
            },
        };
        let database_url = match read_setting(vars, 6, "DATABASE_URL") {
            Ok(value) => value,
            Err(e) => {
                return Err(e);
            },
        };
        let frontend_url = match read_setting(vars, 7, "FRONTEND_URL") {
            Ok(value) => value,
            Err(e) => {
                return Err(e);
            },
        };
        Ok(
            AppConfig {
                zauth_url,
                zauth_callback,
                zauth_client_id,
                zauth_client_secret,
                image_path,
                magick_path,
                database_url,
                frontend_url,
            },
        )
    }
}

} // verus!
