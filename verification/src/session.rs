//! Client sessions: whether a stored session is restored or a new one is created,
//! what is persisted about it, and whether the owner still has to be asked for
//! verification.
use crate::config::{store_path, Config};
use vstd::prelude::*;

verus! {

/// How the client comes up.
#[derive(Debug, Clone, Copy, PartialEq, Eq)]
pub enum SessionMode {
    /// Restore the session stored in the session file.
    Restore,
    /// Log in with a new device and store the session.
    Login,
}

impl SessionMode {
    /// Whether this is a first-time setup.
    pub fn is_new_session(&self) -> (b: bool)
        ensures
            b == (*self == SessionMode::Login),
    {
        matches!(self, SessionMode::Login)
    }
}

/// What starting the client takes.
#[derive(Debug, Clone, Copy, PartialEq, Eq)]
pub struct InitPlan {
    /// The data directory is missing and has to be created first.
    pub create_data_dir: bool,
    pub mode: SessionMode,
}

/// Plans the client start: the data directory is created where it is missing,
/// and an existing session file is restored rather than logging in again.
pub fn plan_init(data_dir_exists: bool, session_file_exists: bool) -> (plan: InitPlan)
    ensures
        plan.create_data_dir == !data_dir_exists,
        plan.mode == (if session_file_exists { SessionMode::Restore } else { SessionMode::Login }),
{
    InitPlan {
        create_data_dir: !data_dir_exists,
        mode: if session_file_exists {
            SessionMode::Restore
        } else {
            SessionMode::Login
        },
    }
}

/// The data needed to re-build a client.
#[derive(Debug)]
pub struct ClientSession {
    /// The URL of the homeserver of the user.
    pub homeserver: String,
    /// The path of the database.
    pub db_path: String,
    /// The passphrase of the database.
    pub passphrase: String,
}

impl ClientSession {
    /// The client data persisted after a new login: the configured homeserver,
    /// the store below the home directory, and the configured store passphrase.
    pub fn for_login(config: &Config, home: &str) -> (s: ClientSession)
        ensures
            s.homeserver@ == config.matrix_bot_homeserver@,
            s.db_path@ == store_path(home@),
            s.passphrase@ == config.matrix_bot_store_password@,
    {
        ClientSession {
            homeserver: config.matrix_bot_homeserver.clone(),
            db_path: Config::store_path(home),
            passphrase: config.matrix_bot_store_password.clone(),
        }
    }
}

/// What the client knows about the owner's cross-signing identity.
#[derive(Debug, Clone, Copy, PartialEq, Eq)]
pub enum OwnerTrust {
    /// Known and verified.
    Verified,
    /// Known but not verified.
    Unverified,
    /// Not known locally (the owner may need to enable cross-signing or share a
    /// room with the bot).
    Unknown,
}

/// Whether a restored session asks the owner for verification: only when the
/// owner's identity is known and not yet verified. A new session always asks.
pub fn needs_verification(is_new_session: bool, trust: OwnerTrust) -> (b: bool)
    ensures
        b == (is_new_session || trust == OwnerTrust::Unverified),
{
    is_new_session || matches!(trust, OwnerTrust::Unverified)
}

} // verus!
