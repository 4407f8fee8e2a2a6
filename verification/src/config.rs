//! Configuration and the on-disk layout of the bot's persistent data.
use vstd::prelude::*;

verus! {

/// Project name used for cache directory paths.
pub const PROJECT_NAME: &'static str = "matrix-bot-test";

/// Joins one relative component onto a path the way `PathBuf::join` does on Unix:
/// a separator is inserted unless the base is empty or already ends with one.
pub open spec fn join_path(base: Seq<char>, comp: Seq<char>) -> Seq<char> {
    if base.len() == 0 || base.last() == '/' {
        base + comp
    } else {
        base + seq!['/'] + comp
    }
}

/// `<home>/.cache/matrix-bot-test/data`
pub open spec fn data_dir_path(home: Seq<char>) -> Seq<char> {
    join_path(join_path(join_path(home, ".cache"@), PROJECT_NAME@), "data"@)
}

/// `<home>/.cache/matrix-bot-test/data/session.json`
pub open spec fn session_file_path(home: Seq<char>) -> Seq<char> {
    join_path(data_dir_path(home), "session.json"@)
}

/// `<home>/.cache/matrix-bot-test/data/sqlite_store`
pub open spec fn store_path(home: Seq<char>) -> Seq<char> {
    join_path(data_dir_path(home), "sqlite_store"@)
}

/// A path in the Unix sense is absolute when it starts at the root.
pub open spec fn is_absolute_path(p: Seq<char>) -> bool {
    p.len() > 0 && p[0] == '/'
}

pub open spec fn ends_with(s: Seq<char>, suffix: Seq<char>) -> bool {
    suffix.len() <= s.len() && s.subrange(s.len() - suffix.len(), s.len() as int) == suffix
}

pub fn join_component(base: String, comp: &str) -> (joined: String)
    ensures
        joined@ == join_path(base@, comp@),
{
    let n = base.as_str().unicode_len();
    if n == 0 || base.as_str().get_char(n - 1) == '/' {
        base.concat(comp)
    } else {
        proof {
            reveal_strlit("/");
        }
        let with_sep = base.concat("/");
        assert(with_sep@ == base@ + seq!['/']);
        with_sep.concat(comp)
    }
}

/// Which configuration variable a value belongs to.
#[derive(Debug, Clone, Copy, PartialEq, Eq)]
pub enum ConfigVar {
    Username,
    Password,
    OwnerHandle,
    Homeserver,
    StorePassword,
}

pub open spec fn var_name(var: ConfigVar) -> Seq<char> {
    match var {
        ConfigVar::Username => "MATRIX_BOT_USERNAME"@,
        ConfigVar::Password => "MATRIX_BOT_PASSWORD"@,
        ConfigVar::OwnerHandle => "MATRIX_BOT_OWNER_HANDLE"@,
        ConfigVar::Homeserver => "MATRIX_BOT_HOMESERVER"@,
        ConfigVar::StorePassword => "MATRIX_BOT_STORE_PASSWORD"@,
    }
}

impl ConfigVar {
    /// The environment variable that holds this value.
    pub fn name(&self) -> (name: &'static str)
        ensures
            name@ == var_name(*self),
    {
        match self {
            ConfigVar::Username => "MATRIX_BOT_USERNAME",
            ConfigVar::Password => "MATRIX_BOT_PASSWORD",
            ConfigVar::OwnerHandle => "MATRIX_BOT_OWNER_HANDLE",
            ConfigVar::Homeserver => "MATRIX_BOT_HOMESERVER",
            ConfigVar::StorePassword => "MATRIX_BOT_STORE_PASSWORD",
        }
    }
}

/// Why a configuration could not be assembled.
#[derive(Debug, Clone, Copy, PartialEq, Eq)]
pub enum ConfigError {
    /// The variable was not set.
    NotSet(ConfigVar),
}

pub open spec fn config_error_message(err: ConfigError) -> Seq<char> {
    match err {
        ConfigError::NotSet(var) => var_name(var) + " not set"@,
    }
}

impl ConfigError {
    /// The message the bot reports, e.g. `MATRIX_BOT_USERNAME not set`.
    pub fn message(&self) -> (msg: String)
        ensures
            msg@ == config_error_message(*self),
    {
        match self {
            ConfigError::NotSet(var) => String::from_str(var.name()).concat(" not set"),
        }
    }
}

/// Configuration loaded from environment variables.
#[derive(Debug, Clone)]
pub struct Config {
    /// Bot's Matrix username (e.g., "@bot:homeserver.org")
    pub matrix_bot_username: String,
    /// Bot's Matrix password
    pub matrix_bot_password: String,
    /// Owner's Matrix handle (e.g., "@owner:homeserver.org")
    pub matrix_bot_owner_handle: String,
    /// Homeserver URL (e.g., "https://homeserver.org/")
    pub matrix_bot_homeserver: String,
    /// Password for encrypting the local store
    pub matrix_bot_store_password: String,
}

/// The first unset variable, in the order in which they are read.
pub open spec fn first_unset(
    username: Option<String>,
    password: Option<String>,
    owner_handle: Option<String>,
    homeserver: Option<String>,
    store_password: Option<String>,
) -> Option<ConfigVar> {
    if username is None {
        Some(ConfigVar::Username)
    } else if password is None {
        Some(ConfigVar::Password)
    } else if owner_handle is None {
        Some(ConfigVar::OwnerHandle)
    } else if homeserver is None {
        Some(ConfigVar::Homeserver)
    } else if store_password is None {
        Some(ConfigVar::StorePassword)
    } else {
        None
    }
}

impl Config {
    /// Assembles the configuration from the values of the five `MATRIX_BOT_*`
    /// environment variables (`None` where a variable is not set).
    pub fn from_env(
        username: Option<String>,
        password: Option<String>,
        owner_handle: Option<String>,
        homeserver: Option<String>,
        store_password: Option<String>,
    ) -> (res: Result<Config, ConfigError>)
        ensures
            match first_unset(username, password, owner_handle, homeserver, store_password) {
                Some(var) => res == Err::<Config, ConfigError>(ConfigError::NotSet(var)),
                None => res matches Ok(c) && c.matrix_bot_username == username->0
                    && c.matrix_bot_password == password->0
                    && c.matrix_bot_owner_handle == owner_handle->0
                    && c.matrix_bot_homeserver == homeserver->0
                    && c.matrix_bot_store_password == store_password->0,
            },
    {
        let matrix_bot_username = match username {
            Some(v) => v,
            None => return Err(ConfigError::NotSet(ConfigVar::Username)),
        };
        let matrix_bot_password = match password {
            Some(v) => v,
            None => return Err(ConfigError::NotSet(ConfigVar::Password)),
        };
        let matrix_bot_owner_handle = match owner_handle {
            Some(v) => v,
            None => return Err(ConfigError::NotSet(ConfigVar::OwnerHandle)),
        };
        let matrix_bot_homeserver = match homeserver {
            Some(v) => v,
            None => return Err(ConfigError::NotSet(ConfigVar::Homeserver)),
        };
        let matrix_bot_store_password = match store_password {
            Some(v) => v,
            None => return Err(ConfigError::NotSet(ConfigVar::StorePassword)),
        };
        Ok(Config {
            matrix_bot_username,
            matrix_bot_password,
            matrix_bot_owner_handle,
            matrix_bot_homeserver,
            matrix_bot_store_password,
        })
    }

    /// Get the data directory path for persistent storage, below the given home directory.
    pub fn data_dir(home: &str) -> (dir: String)
        ensures
            dir@ == data_dir_path(home@),
    {
        let dir = join_component(String::from_str(home), ".cache");
        let dir = join_component(dir, PROJECT_NAME);
        join_component(dir, "data")
    }

    /// Get the session file path, below the given home directory.
    pub fn session_file(home: &str) -> (file: String)
        ensures
            file@ == session_file_path(home@),
    {
        join_component(Self::data_dir(home), "session.json")
    }

    /// Get the path of the encrypted SQLite store, below the given home directory.
    pub fn store_path(home: &str) -> (path: String)
        ensures
            path@ == store_path(home@),
    {
        join_component(Self::data_dir(home), "sqlite_store")
    }
}

/// The home directory with the separator that `join` puts after it.
pub open spec fn home_prefix(home: Seq<char>) -> Seq<char> {
    if home.len() == 0 || home.last() == '/' {
        home
    } else {
        home + seq!['/']
    }
}

/// The persistent data lives in `.cache/matrix-bot-test/data` below the home
/// directory; the session file is `session.json` and the store `sqlite_store`
/// directly inside that data directory.
pub proof fn lemma_data_layout(home: Seq<char>)
    ensures
        data_dir_path(home) == home_prefix(home) + ".cache/matrix-bot-test/data"@,
        session_file_path(home) == data_dir_path(home) + "/session.json"@,
        store_path(home) == data_dir_path(home) + "/sqlite_store"@,
        ends_with(data_dir_path(home), ".cache/matrix-bot-test/data"@),
        ends_with(session_file_path(home), ".cache/matrix-bot-test/data/session.json"@),
{
    reveal_strlit(".cache");
    reveal_strlit("matrix-bot-test");
    reveal_strlit("data");
    reveal_strlit("session.json");
    reveal_strlit("sqlite_store");
    reveal_strlit(".cache/matrix-bot-test/data");
    reveal_strlit("/session.json");
    reveal_strlit("/sqlite_store");
    reveal_strlit(".cache/matrix-bot-test/data/session.json");
    let p = home_prefix(home);
    let a = join_path(home, ".cache"@);
    assert(a =~= p + ".cache"@);
    let b = join_path(a, PROJECT_NAME@);
    assert(b =~= p + ".cache"@ + seq!['/'] + "matrix-bot-test"@);
    let c = join_path(b, "data"@);
    assert(c =~= p + ".cache/matrix-bot-test/data"@);
    assert(session_file_path(home) =~= c + "/session.json"@);
    assert(store_path(home) =~= c + "/sqlite_store"@);
    let s = session_file_path(home);
    let suffix = ".cache/matrix-bot-test/data/session.json"@;
    assert(s =~= p + suffix);
    assert(s.subrange(s.len() - suffix.len(), s.len() as int) =~= suffix);
    let d = ".cache/matrix-bot-test/data"@;
    assert(c.subrange(c.len() - d.len(), c.len() as int) =~= d);
}

/// Below an absolute home directory, the data directory and the session file are
/// absolute paths.
pub proof fn lemma_paths_absolute(home: Seq<char>)
    requires
        is_absolute_path(home),
    ensures
        is_absolute_path(data_dir_path(home)),
        is_absolute_path(session_file_path(home)),
        is_absolute_path(store_path(home)),
{
    lemma_data_layout(home);
    assert(data_dir_path(home)[0] == home[0]);
    assert(session_file_path(home)[0] == home[0]);
    assert(store_path(home)[0] == home[0]);
}

/// The home directory as an absolute path: an absolute home stays as it is, a
/// relative one is taken relative to the (absolute) current directory.
pub open spec fn absolute_home_path(home: Seq<char>, cwd: Seq<char>) -> Seq<char> {
    if is_absolute_path(home) {
        home
    } else {
        join_path(cwd, home)
    }
}

/// Makes the home directory absolute against the current directory, so that the
/// data directory and the session file below it are absolute paths.
pub fn absolute_home(home: &str, cwd: &str) -> (abs: String)
    requires
        is_absolute_path(cwd@),
    ensures
        abs@ == absolute_home_path(home@, cwd@),
        is_absolute_path(abs@),
{
    let absolute = home.unicode_len() > 0 && home.get_char(0) == '/';
    if absolute {
        String::from_str(home)
    } else {
        let joined = join_component(String::from_str(cwd), home);
        assert(joined@[0] == cwd@[0]);
        joined
    }
}

/// Whatever the home directory, once it is made absolute against an absolute
/// current directory, the data directory, session file and store are absolute.
pub proof fn lemma_session_file_always_absolute(home: Seq<char>, cwd: Seq<char>)
    requires
        is_absolute_path(cwd),
    ensures
        is_absolute_path(absolute_home_path(home, cwd)),
        is_absolute_path(session_file_path(absolute_home_path(home, cwd))),
        is_absolute_path(data_dir_path(absolute_home_path(home, cwd))),
        is_absolute_path(store_path(absolute_home_path(home, cwd))),
{
    let h = absolute_home_path(home, cwd);
    if !is_absolute_path(home) {
        assert(h[0] == cwd[0]);
    }
    lemma_paths_absolute(h);
}

/// The variables are read in order and the first unset one is reported: a missing
/// username wins over everything, and so on down to the store password; with all
/// five set there is nothing to report.
pub proof fn lemma_first_unset_in_order(
    username: Option<String>,
    password: Option<String>,
    owner_handle: Option<String>,
    homeserver: Option<String>,
    store_password: Option<String>,
)
    ensures
        username is None ==> first_unset(username, password, owner_handle, homeserver, store_password)
            == Some(ConfigVar::Username),
        username is Some && password is None ==> first_unset(username, password, owner_handle, homeserver, store_password)
            == Some(ConfigVar::Password),
        username is Some && password is Some && owner_handle is None ==> first_unset(
            username,
            password,
            owner_handle,
            homeserver,
            store_password,
        ) == Some(ConfigVar::OwnerHandle),
        username is Some && password is Some && owner_handle is Some && homeserver is None ==> first_unset(
            username,
            password,
            owner_handle,
            homeserver,
            store_password,
        ) == Some(ConfigVar::Homeserver),
        username is Some && password is Some && owner_handle is Some && homeserver is Some && store_password is None
            ==> first_unset(username, password, owner_handle, homeserver, store_password) == Some(
            ConfigVar::StorePassword,
        ),
        (username is Some && password is Some && owner_handle is Some && homeserver is Some && store_password is Some)
            <==> first_unset(username, password, owner_handle, homeserver, store_password) is None,
{
}

/// An absolute home is kept as it is; a relative one is placed below the current
/// directory, with one separator between them.
pub proof fn lemma_absolute_home(home: Seq<char>, cwd: Seq<char>)
    requires
        is_absolute_path(cwd),
    ensures
        is_absolute_path(home) ==> absolute_home_path(home, cwd) == home,
        !is_absolute_path(home) && cwd.last() != '/' ==> absolute_home_path(home, cwd) == cwd + seq!['/'] + home,
        !is_absolute_path(home) && cwd.last() == '/' ==> absolute_home_path(home, cwd) == cwd + home,
{
}

/// The reported text names the unset variable: `<NAME> not set`.
pub proof fn lemma_config_messages()
    ensures
        config_error_message(ConfigError::NotSet(ConfigVar::Username)) == "MATRIX_BOT_USERNAME"@ + " not set"@,
        config_error_message(ConfigError::NotSet(ConfigVar::Password)) == "MATRIX_BOT_PASSWORD"@ + " not set"@,
        config_error_message(ConfigError::NotSet(ConfigVar::OwnerHandle))
            == "MATRIX_BOT_OWNER_HANDLE"@ + " not set"@,
        config_error_message(ConfigError::NotSet(ConfigVar::Homeserver)) == "MATRIX_BOT_HOMESERVER"@ + " not set"@,
        config_error_message(ConfigError::NotSet(ConfigVar::StorePassword))
            == "MATRIX_BOT_STORE_PASSWORD"@ + " not set"@,
{
}

} // verus!
