use zpi::config::{get_env_var, AppConfig};
use zpi::error::{AppError, DatabaseError};
use zpi::handlers::auth::{AuthHandler, Callback, CallbackStep, ZauthToken};
use zpi::handlers::version::VersionHandler;
use zpi::decimal::to_decimal;
use zpi::text::same_text;

fn environment() -> Vec<(String, String)> {
    [
        ("PATH", "/usr/bin"),
        ("ZAUTH_URL", "https://zauth.example"),
        ("ZAUTH_CALLBACK_PATH", "https://zpi.example/api/oauth/callback"),
        ("ZAUTH_CLIENT_ID", "zpi"),
        ("ZAUTH_CLIENT_SECRET", "SECRET-REDACTED"),
        ("IMAGE_PATH", "/var/lib/zpi/images"),
        ("MAGICK_PATH", "/usr/bin/magick"),
        ("DATABASE_URL", "sqlite://zpi.db"),
        ("FRONTEND_URL", "https://zpi.example"),
    ]
    .iter()
    .map(|(name, value)| (name.to_string(), value.to_string()))
    .collect()
}

fn config() -> AppConfig {
    AppConfig::load(&environment()).unwrap()
}

#[test]
fn settings_are_read_from_the_environment() {
    assert_eq!(
        config(),
        AppConfig {
            zauth_url: "https://zauth.example".into(),
            zauth_callback: "https://zpi.example/api/oauth/callback".into(),
            zauth_client_id: "zpi".into(),
            zauth_client_secret: "SECRET-REDACTED".into(),
            image_path: "/var/lib/zpi/images".into(),
            magick_path: "/usr/bin/magick".into(),
            database_url: "sqlite://zpi.db".into(),
            frontend_url: "https://zpi.example".into(),
        }
    );
}

#[test]
fn the_first_missing_setting_is_reported() {
    let names = [
        "ZAUTH_URL",
        "ZAUTH_CALLBACK_PATH",
        "ZAUTH_CLIENT_ID",
        "ZAUTH_CLIENT_SECRET",
        "IMAGE_PATH",
        "MAGICK_PATH",
        "DATABASE_URL",
        "FRONTEND_URL",
    ];
    for (i, name) in names.iter().enumerate() {
        let mut vars = environment();
        vars.retain(|(key, _)| key != name);
        assert_eq!(AppConfig::load(&vars), Err(AppError::Env(name.to_string())));
        // with a later one missing as well, the earlier one is still the one reported
        if i + 1 < names.len() {
            let later = names[names.len() - 1];
            vars.retain(|(key, _)| key != later);
            assert_eq!(AppConfig::load(&vars), Err(AppError::Env(name.to_string())));
        }
    }
    assert_eq!(AppConfig::load(&Vec::new()), Err(AppError::Env("ZAUTH_URL".to_string())));
    assert_eq!(AppError::Env("X".into()).error_page().0, 500);
}

#[test]
fn a_variable_has_the_value_of_its_first_entry() {
    let vars = vec![
        ("A".to_string(), "1".to_string()),
        ("B".to_string(), "2".to_string()),
        ("A".to_string(), "3".to_string()),
    ];
    assert_eq!(get_env_var(&vars, "A"), Ok("1".to_string()));
    assert_eq!(get_env_var(&vars, "B"), Ok("2".to_string()));
    assert_eq!(get_env_var(&vars, "C"), Err(AppError::Env("C".to_string())));
    assert_eq!(get_env_var(&vars, "a"), Err(AppError::Env("a".to_string())));
}

#[test]
fn every_error_has_its_page() {
    let text = |s: &str| s.to_string();
    let pages = [
        (AppError::PayloadError(text("x")), 400, "Payload error"),
        (AppError::NotLoggedIn, 401, "Not logged in."),
        (AppError::BadApiKey, 401, "Bad api key."),
        (AppError::Forbidden, 403, "Forbidden."),
        (AppError::NoFile, 400, "No file found in request. Please select an image."),
        (
            AppError::Multipart(text("x")),
            400,
            "There was a problem with your file upload. Please try again.",
        ),
        (
            AppError::ImageResTooLarge,
            413,
            "The image resolution is too large. Maximum is 10k x 10k pixels.",
        ),
        (
            AppError::WrongFileType,
            400,
            "Incorrect file type. Please upload a JPG, PNG, GIF, or WEBP file.",
        ),
        (AppError::NotFound, 404, "We couldn't find that."),
    ];
    for (error, status, message) in pages {
        assert_eq!(error.error_page(), (status, message));
    }
    let internal = [
        AppError::Session(text("s")),
        AppError::Io(text("/secret/path")),
        AppError::Join(text("j")),
        AppError::Internal(text("i")),
        AppError::Zauth(text("z")),
        AppError::Reqwest(text("r")),
        AppError::Database(DatabaseError::Sqlx(text("d"))),
        AppError::Database(DatabaseError::Migrate(text("m"))),
        AppError::Magick(text("m")),
        AppError::Env(text("e")),
        AppError::Axum(text("a")),
    ];
    for error in internal {
        assert_eq!(error.error_page(), (500, "Please help I have internal errors. D:"));
    }
}

#[test]
fn a_missing_row_is_not_found_and_other_failures_are_kept() {
    assert_eq!(AppError::from(DatabaseError::NotFound), AppError::NotFound);
    assert_eq!(
        AppError::from(DatabaseError::Sqlx("locked".into())),
        AppError::Database(DatabaseError::Sqlx("locked".into()))
    );
    assert_eq!(
        AppError::from(DatabaseError::Migrate("bad".into())),
        AppError::Database(DatabaseError::Migrate("bad".into()))
    );
}

#[test]
fn login_sends_the_browser_to_the_provider() {
    let address = AuthHandler::login(&config(), "abcdefghijklmnop");
    assert_eq!(
        address,
        "https://zauth.example/oauth/authorize?client_id=zpi&response_type=code&scope=roles\
         &state=abcdefghijklmnop&redirect_uri=https://zpi.example/api/oauth/callback"
    );
    assert_eq!(AuthHandler::token_address(&config()), "https://zauth.example/oauth/token");
    assert_eq!(AuthHandler::user_address(&config()), "https://zauth.example/current_user");
    assert_eq!(
        AuthHandler::bearer(&ZauthToken { access_token: "t0k3n".into() }),
        "Bearer t0k3n"
    );
}

#[test]
fn login_states_are_fresh() {
    let state = AuthHandler::fresh_state();
    assert_eq!(state.chars().count(), 16);
    assert!(state.chars().all(|c| c.is_ascii_alphanumeric()));
    assert_ne!(state, AuthHandler::fresh_state());
}

#[test]
fn a_callback_must_carry_the_remembered_state() {
    let params = Callback { state: "abc".into(), code: "c0de".into() };
    assert_eq!(AuthHandler::callback(None, &params), Ok(CallbackStep::Restart));
    assert_eq!(AuthHandler::callback(Some("abc"), &params), Ok(CallbackStep::Exchange));
    assert_eq!(
        AuthHandler::callback(Some("abd"), &params),
        Err(AppError::Zauth("States don't match".into()))
    );
    assert_eq!(
        AuthHandler::callback(Some(""), &params),
        Err(AppError::Zauth("States don't match".into()))
    );
}

#[test]
fn version_is_reported() {
    assert_eq!(VersionHandler::get().version, "0.1.0");
}

#[test]
fn numbers_are_written_in_base_ten() {
    for n in [0u64, 1, 9, 10, 11, 99, 100, 101, 4294967295, 4294967296, u64::MAX] {
        assert_eq!(to_decimal(n), format!("{}", n));
    }
    for n in 0u64..=1200 {
        assert_eq!(to_decimal(n), format!("{}", n));
    }
}

#[test]
fn texts_are_compared_character_by_character() {
    assert!(same_text("", ""));
    assert!(same_text("bestuur", "bestuur"));
    assert!(!same_text("bestuur", "bestuu"));
    assert!(!same_text("bestuur", "Bestuur"));
    assert!(same_text("é", "é"));
}
