use matrix_bot_test::config::{absolute_home, Config, ConfigError, ConfigVar, PROJECT_NAME};
use std::path::Path;

const HOME: &str = "/home/bot";

#[test]
fn test_data_dir_is_absolute() {
    let data_dir = Config::data_dir(HOME);
    assert!(Path::new(&data_dir).is_absolute());

    // Check that path contains the expected structure
    assert!(data_dir.contains(".cache/matrix-bot-test/data"));
}

#[test]
fn test_session_file_is_absolute() {
    let session_file = Config::session_file(HOME);
    assert!(Path::new(&session_file).is_absolute());

    // Check that path contains the expected structure
    assert!(session_file.contains(".cache/matrix-bot-test/data/session.json"));
}

#[test]
fn test_session_file_is_in_data_dir() {
    let data_dir = Config::data_dir(HOME);
    let session_file = Config::session_file(HOME);

    // session_file should be inside data_dir
    assert!(Path::new(&session_file).starts_with(Path::new(&data_dir)));
    assert_eq!(Path::new(&session_file).file_name().unwrap(), "session.json");
}

#[test]
fn data_dir_exact_paths() {
    assert_eq!(Config::data_dir("/home/bot"), "/home/bot/.cache/matrix-bot-test/data");
    assert_eq!(Config::data_dir("/home/bot/"), "/home/bot/.cache/matrix-bot-test/data");
    assert_eq!(Config::data_dir("/"), "/.cache/matrix-bot-test/data");
    assert_eq!(Config::data_dir(""), ".cache/matrix-bot-test/data");
    assert_eq!(
        Config::session_file("/root"),
        "/root/.cache/matrix-bot-test/data/session.json"
    );
    assert_eq!(
        Config::store_path("/root"),
        "/root/.cache/matrix-bot-test/data/sqlite_store"
    );
    assert_eq!(PROJECT_NAME, "matrix-bot-test");
}

#[test]
fn paths_agree_with_path_join() {
    for home in ["/home/bot", "/home/bot/", "/", "/var/lib/bot"] {
        let joined = Path::new(home).join(".cache").join(PROJECT_NAME).join("data");
        assert_eq!(Config::data_dir(home), joined.to_string_lossy());
        assert_eq!(
            Config::session_file(home),
            joined.join("session.json").to_string_lossy()
        );
        assert_eq!(
            Config::store_path(home),
            joined.join("sqlite_store").to_string_lossy()
        );
    }
}

#[test]
fn relative_home_gives_relative_paths() {
    let session_file = Config::session_file("bot");
    assert!(!Path::new(&session_file).is_absolute());
    assert_eq!(session_file, "bot/.cache/matrix-bot-test/data/session.json");
}

fn some(s: &str) -> Option<String> {
    Some(s.to_string())
}

#[test]
fn from_env_takes_all_five_values() {
    let config = Config::from_env(
        some("@bot:example.org"),
        some("secret"),
        some("@owner:example.org"),
        some("https://example.org/"),
        some("store-pass"),
    )
    .unwrap();
    assert_eq!(config.matrix_bot_username, "@bot:example.org");
    assert_eq!(config.matrix_bot_password, "secret");
    assert_eq!(config.matrix_bot_owner_handle, "@owner:example.org");
    assert_eq!(config.matrix_bot_homeserver, "https://example.org/");
    assert_eq!(config.matrix_bot_store_password, "store-pass");
}

#[test]
fn from_env_reports_first_missing_variable() {
    let cases = [
        (0, ConfigVar::Username, "MATRIX_BOT_USERNAME not set"),
        (1, ConfigVar::Password, "MATRIX_BOT_PASSWORD not set"),
        (2, ConfigVar::OwnerHandle, "MATRIX_BOT_OWNER_HANDLE not set"),
        (3, ConfigVar::Homeserver, "MATRIX_BOT_HOMESERVER not set"),
        (4, ConfigVar::StorePassword, "MATRIX_BOT_STORE_PASSWORD not set"),
    ];
    for (missing, var, message) in cases {
        let value = |i: usize| if i == missing { None } else { some("x") };
        let err = Config::from_env(value(0), value(1), value(2), value(3), value(4)).unwrap_err();
        assert_eq!(err, ConfigError::NotSet(var));
        assert_eq!(err.message(), message);
    }
    // With several variables unset, the first one in reading order is reported.
    let err = Config::from_env(some("x"), None, some("x"), None, None).unwrap_err();
    assert_eq!(err, ConfigError::NotSet(ConfigVar::Password));
}

#[test]
fn absolute_home_resolves_relative_homes() {
    assert_eq!(absolute_home("/home/bot", "/srv"), "/home/bot");
    assert_eq!(absolute_home("bot", "/srv"), "/srv/bot");
    assert_eq!(absolute_home("bot", "/"), "/bot");
    assert_eq!(absolute_home("", "/srv"), "/srv/");
    let session_file = Config::session_file(&absolute_home("bot", "/srv"));
    assert!(Path::new(&session_file).is_absolute());
    assert_eq!(session_file, "/srv/bot/.cache/matrix-bot-test/data/session.json");
}
