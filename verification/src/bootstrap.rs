//! Cross-signing bootstrap: the decisions that make sure the bot's own device is
//! signed by its cross-signing identity.
//!
//! The bootstrap is layered:
//! 1. If the device is already cross-signed, do nothing.
//! 2. If the private self-signing key is available locally, just sign the device.
//! 3. Otherwise reset cross-signing (authenticating the reset), then sign the device.
//!
//! The caller performs each requested action against the homeserver and reports
//! what came back as the next event.
use crate::identity::{lemma_localpart_of_user_id, localpart, localpart_of};
use vstd::prelude::*;

verus! {

/// What looking up the bot's own device gave.
#[derive(Debug)]
pub enum DeviceLookup {
    /// The crypto store reported an error, with its text.
    Failed(String),
    /// No own device is known.
    Missing,
    /// The own device, and whether it is cross-signed by its owner.
    Found { cross_signed: bool },
}

/// What starting a cross-signing reset gave.
#[derive(Debug)]
pub enum ResetOutcome {
    /// The reset request failed.
    Failed,
    /// The new cross-signing keys and signatures were uploaded without the
    /// homeserver asking for authentication.
    CompletedWithoutAuth,
    /// The homeserver asks for user-interactive authentication. `own_user_id` is the
    /// bot's user ID as the client knows it.
    NeedsPassword { session: Option<String>, own_user_id: Option<String> },
    /// The user has to approve the reset at a URL (OAuth 2.0).
    NeedsOAuth { approval_url: String },
}

/// How a cross-signing reset is being authenticated.
#[derive(Debug, Clone, Copy, PartialEq, Eq)]
pub enum AuthMethod {
    Password,
    OAuth,
}

/// Why the bootstrap failed; each error has the message the bot reports.
#[derive(Debug)]
pub enum BootstrapError {
    /// Looking up the own device failed; the crypto store's error text.
    DeviceLookupFailed(String),
    /// `Failed to reset cross-signing`
    ResetFailed,
    /// `User ID not available after login`
    NoUserId,
    /// `Failed to authenticate cross-signing reset`
    PasswordAuthFailed,
    /// `Failed to complete OAuth cross-signing reset`
    OAuthFailed,
    /// `Could not get own device`
    NoOwnDevice,
    /// `Failed to sign own device with self-signing key`
    SigningFailed,
}

pub open spec fn bootstrap_error_message(err: BootstrapError) -> Seq<char> {
    match err {
        BootstrapError::DeviceLookupFailed(reason) => reason@,
        BootstrapError::ResetFailed => "Failed to reset cross-signing"@,
        BootstrapError::NoUserId => "User ID not available after login"@,
        BootstrapError::PasswordAuthFailed => "Failed to authenticate cross-signing reset"@,
        BootstrapError::OAuthFailed => "Failed to complete OAuth cross-signing reset"@,
        BootstrapError::NoOwnDevice => "Could not get own device"@,
        BootstrapError::SigningFailed => "Failed to sign own device with self-signing key"@,
    }
}

impl BootstrapError {
    pub fn message(&self) -> (msg: String)
        ensures
            msg@ == bootstrap_error_message(*self),
    {
        match self {
            BootstrapError::DeviceLookupFailed(reason) => reason.clone(),
            BootstrapError::ResetFailed => String::from_str("Failed to reset cross-signing"),
            BootstrapError::NoUserId => String::from_str("User ID not available after login"),
            BootstrapError::PasswordAuthFailed => String::from_str("Failed to authenticate cross-signing reset"),
            BootstrapError::OAuthFailed => String::from_str("Failed to complete OAuth cross-signing reset"),
            BootstrapError::NoOwnDevice => String::from_str("Could not get own device"),
            BootstrapError::SigningFailed => String::from_str("Failed to sign own device with self-signing key"),
        }
    }
}

/// Where the bootstrap stands.
#[derive(Debug, Clone, Copy, PartialEq, Eq)]
pub enum BootstrapState {
    /// Waiting for the own device (step 1).
    CheckingDevice,
    /// Waiting for the cross-signing status (step 2).
    CheckingKeys,
    /// Waiting for the reset to start (step 3).
    Resetting,
    /// Waiting for the reset to be authenticated.
    Authenticating(AuthMethod),
    /// Waiting for the own device, in order to sign it.
    FetchingDeviceToSign,
    /// Waiting for the device signature to be uploaded.
    SigningDevice,
    /// Done; the outcome went out with the last action.
    Finished,
}

/// A reply to the last action.
#[derive(Debug)]
pub enum BootstrapEvent {
    /// Reply to `LookUpOwnDevice`.
    OwnDevice(DeviceLookup),
    /// Reply to `ReadKeyStatus`: whether the private self-signing key is held
    /// locally, `None` where no cross-signing status is known.
    KeyStatus(Option<bool>),
    /// Reply to `ResetCrossSigning`.
    Reset(ResetOutcome),
    /// Reply to an authentication action: whether it succeeded.
    Authenticated(bool),
    /// Reply to `SignOwnDevice`: whether it succeeded.
    Signed(bool),
}

/// What the caller has to do next.
#[derive(Debug)]
pub enum BootstrapAction {
    LookUpOwnDevice,
    ReadKeyStatus,
    ResetCrossSigning,
    /// Authenticate the reset with the bot's password (UIAA).
    AuthenticateWithPassword { user: String, password: String, session: Option<String> },
    /// Wait until the reset has been approved at the URL (OAuth 2.0).
    AuthenticateWithOAuth { approval_url: String },
    /// Sign the own device with the self-signing key.
    SignOwnDevice,
    /// The bootstrap is over.
    Finish(Result<(), BootstrapError>),
}

/// Whether `event` is a reply to the action that led into `state`.
pub open spec fn bootstrap_expects(state: BootstrapState, event: BootstrapEvent) -> bool {
    match state {
        BootstrapState::CheckingDevice => event is OwnDevice,
        BootstrapState::CheckingKeys => event is KeyStatus,
        BootstrapState::Resetting => event is Reset,
        BootstrapState::Authenticating(_) => event is Authenticated,
        BootstrapState::FetchingDeviceToSign => event is OwnDevice,
        BootstrapState::SigningDevice => event is Signed,
        BootstrapState::Finished => false,
    }
}

/// The stop that goes with a finished state.
pub open spec fn stops_with(next: BootstrapState, action: BootstrapAction, outcome: Result<(), BootstrapError>) -> bool {
    next == BootstrapState::Finished && action == BootstrapAction::Finish(outcome)
}

/// The transition relation of the bootstrap, with strings taken by their views.
pub open spec fn bootstrap_transition(
    state: BootstrapState,
    event: BootstrapEvent,
    password: Seq<char>,
    next: BootstrapState,
    action: BootstrapAction,
) -> bool {
    match event {
        BootstrapEvent::OwnDevice(lookup) => match state {
            BootstrapState::CheckingDevice => match lookup {
                DeviceLookup::Failed(reason) => stops_with(next, action, Err(BootstrapError::DeviceLookupFailed(reason))),
                DeviceLookup::Found { cross_signed: true } => stops_with(next, action, Ok(())),
                _ => next == BootstrapState::CheckingKeys && action == BootstrapAction::ReadKeyStatus,
            },
            _ => match lookup {
                DeviceLookup::Failed(reason) => stops_with(next, action, Err(BootstrapError::DeviceLookupFailed(reason))),
                DeviceLookup::Missing => stops_with(next, action, Err(BootstrapError::NoOwnDevice)),
                DeviceLookup::Found { cross_signed: true } => stops_with(next, action, Ok(())),
                DeviceLookup::Found { cross_signed: false } => next == BootstrapState::SigningDevice
                    && action == BootstrapAction::SignOwnDevice,
            },
        },
        BootstrapEvent::KeyStatus(has_self_signing) => if has_self_signing == Some(true) {
            next == BootstrapState::FetchingDeviceToSign && action == BootstrapAction::LookUpOwnDevice
        } else {
            next == BootstrapState::Resetting && action == BootstrapAction::ResetCrossSigning
        },
        BootstrapEvent::Reset(outcome) => match outcome {
            ResetOutcome::Failed => stops_with(next, action, Err(BootstrapError::ResetFailed)),
            ResetOutcome::CompletedWithoutAuth => stops_with(next, action, Ok(())),
            ResetOutcome::NeedsPassword { session, own_user_id } => match own_user_id {
                None => stops_with(next, action, Err(BootstrapError::NoUserId)),
                Some(uid) => {
                    &&& next == BootstrapState::Authenticating(AuthMethod::Password)
                    &&& action matches BootstrapAction::AuthenticateWithPassword { user, password: pw, session: s }
                    &&& user@ == localpart(uid@)
                    &&& pw@ == password
                    &&& s == session
                },
            },
            ResetOutcome::NeedsOAuth { approval_url } => next == BootstrapState::Authenticating(AuthMethod::OAuth)
                && action == BootstrapAction::AuthenticateWithOAuth { approval_url },
        },
        BootstrapEvent::Authenticated(ok) => match state {
            BootstrapState::Authenticating(method) => if ok {
                next == BootstrapState::FetchingDeviceToSign && action == BootstrapAction::LookUpOwnDevice
            } else {
                stops_with(next, action, Err(if method == AuthMethod::Password {
                    BootstrapError::PasswordAuthFailed
                } else {
                    BootstrapError::OAuthFailed
                }))
            },
            _ => false,
        },
        BootstrapEvent::Signed(ok) => if ok {
            stops_with(next, action, Ok(()))
        } else {
            stops_with(next, action, Err(BootstrapError::SigningFailed))
        },
    }
}

/// How many replies the bootstrap may still need at most.
pub open spec fn bootstrap_rank(state: BootstrapState) -> nat {
    match state {
        BootstrapState::CheckingDevice => 6,
        BootstrapState::CheckingKeys => 5,
        BootstrapState::Resetting => 4,
        BootstrapState::Authenticating(_) => 3,
        BootstrapState::FetchingDeviceToSign => 2,
        BootstrapState::SigningDevice => 1,
        BootstrapState::Finished => 0,
    }
}

impl BootstrapState {
    /// The bootstrap starts by looking up the own device.
    pub fn start() -> (res: (BootstrapState, BootstrapAction))
        ensures
            res.0 == BootstrapState::CheckingDevice,
            res.1 == BootstrapAction::LookUpOwnDevice,
    {
        (BootstrapState::CheckingDevice, BootstrapAction::LookUpOwnDevice)
    }

    pub fn is_finished(&self) -> (b: bool)
        ensures
            b == (*self is Finished),
    {
        matches!(self, BootstrapState::Finished)
    }

    /// Whether `event` is a reply to the action that led into this state.
    pub fn expects(&self, event: &BootstrapEvent) -> (b: bool)
        ensures
            b == bootstrap_expects(*self, *event),
            (*self == BootstrapState::CheckingDevice || *self == BootstrapState::FetchingDeviceToSign)
                && *event is OwnDevice ==> b,
            *self == BootstrapState::CheckingKeys && *event is KeyStatus ==> b,
            *self == BootstrapState::Resetting && *event is Reset ==> b,
            *self is Authenticating && *event is Authenticated ==> b,
            *self == BootstrapState::SigningDevice && *event is Signed ==> b,
            *self is Finished ==> !b,
    {
        match self {
            BootstrapState::CheckingDevice => matches!(event, BootstrapEvent::OwnDevice(_)),
            BootstrapState::CheckingKeys => matches!(event, BootstrapEvent::KeyStatus(_)),
            BootstrapState::Resetting => matches!(event, BootstrapEvent::Reset(_)),
            BootstrapState::Authenticating(_) => matches!(event, BootstrapEvent::Authenticated(_)),
            BootstrapState::FetchingDeviceToSign => matches!(event, BootstrapEvent::OwnDevice(_)),
            BootstrapState::SigningDevice => matches!(event, BootstrapEvent::Signed(_)),
            BootstrapState::Finished => false,
        }
    }

    /// Takes the reply to the last action and decides what comes next.
    pub fn step(self, event: BootstrapEvent, password: &str) -> (res: (BootstrapState, BootstrapAction))
        requires
            bootstrap_expects(self, event),
        ensures
            bootstrap_transition(self, event, password@, res.0, res.1),
    {
        match event {
            BootstrapEvent::OwnDevice(lookup) => {
                let first_check = matches!(self, BootstrapState::CheckingDevice);
                match lookup {
                    DeviceLookup::Failed(reason) => finish(Err(BootstrapError::DeviceLookupFailed(reason))),
                    DeviceLookup::Found { cross_signed: true } => finish(Ok(())),
                    DeviceLookup::Missing => if first_check {
                        (BootstrapState::CheckingKeys, BootstrapAction::ReadKeyStatus)
                    } else {
                        finish(Err(BootstrapError::NoOwnDevice))
                    },
                    DeviceLookup::Found { cross_signed: false } => if first_check {
                        (BootstrapState::CheckingKeys, BootstrapAction::ReadKeyStatus)
                    } else {
                        (BootstrapState::SigningDevice, BootstrapAction::SignOwnDevice)
                    },
                }
            },
            BootstrapEvent::KeyStatus(has_self_signing) => match has_self_signing {
                Some(true) => (BootstrapState::FetchingDeviceToSign, BootstrapAction::LookUpOwnDevice),
                _ => (BootstrapState::Resetting, BootstrapAction::ResetCrossSigning),
            },
            BootstrapEvent::Reset(outcome) => match outcome {
                ResetOutcome::Failed => finish(Err(BootstrapError::ResetFailed)),
                ResetOutcome::CompletedWithoutAuth => finish(Ok(())),
                ResetOutcome::NeedsPassword { session, own_user_id } => match own_user_id {
                    None => finish(Err(BootstrapError::NoUserId)),
                    Some(uid) => (
                        BootstrapState::Authenticating(AuthMethod::Password),
                        BootstrapAction::AuthenticateWithPassword {
                            user: localpart_of(uid.as_str()),
                            password: String::from_str(password),
                            session,
                        },
                    ),
                },
                ResetOutcome::NeedsOAuth { approval_url } => (
                    BootstrapState::Authenticating(AuthMethod::OAuth),
                    BootstrapAction::AuthenticateWithOAuth { approval_url },
                ),
            },
            BootstrapEvent::Authenticated(ok) => {
                let method = match self {
                    BootstrapState::Authenticating(m) => m,
                    _ => AuthMethod::Password,
                };
                if ok {
                    (BootstrapState::FetchingDeviceToSign, BootstrapAction::LookUpOwnDevice)
                } else {
                    match method {
                        AuthMethod::Password => finish(Err(BootstrapError::PasswordAuthFailed)),
                        AuthMethod::OAuth => finish(Err(BootstrapError::OAuthFailed)),
                    }
                }
            },
            BootstrapEvent::Signed(ok) => if ok {
                finish(Ok(()))
            } else {
                finish(Err(BootstrapError::SigningFailed))
            },
        }
    }
}

fn finish(outcome: Result<(), BootstrapError>) -> (res: (BootstrapState, BootstrapAction))
    ensures
        stops_with(res.0, res.1, outcome),
{
    (BootstrapState::Finished, BootstrapAction::Finish(outcome))
}

/// Every reply moves the bootstrap strictly closer to its end, so a bootstrap is
/// over after at most six replies.
pub proof fn lemma_bootstrap_progress(
    state: BootstrapState,
    event: BootstrapEvent,
    password: Seq<char>,
    next: BootstrapState,
    action: BootstrapAction,
)
    requires
        bootstrap_expects(state, event),
        bootstrap_transition(state, event, password, next, action),
    ensures
        bootstrap_rank(next) < bootstrap_rank(state),
        bootstrap_rank(state) <= 6,
        next is Finished <==> action is Finish,
{
}

/// The cross-signing status is only consulted after the own device was found not
/// cross-signed (or not found at all): an already cross-signed device is left alone.
pub proof fn lemma_keys_checked_only_for_unsigned_device(
    state: BootstrapState,
    event: BootstrapEvent,
    password: Seq<char>,
    next: BootstrapState,
    action: BootstrapAction,
)
    requires
        bootstrap_expects(state, event),
        bootstrap_transition(state, event, password, next, action),
        next == BootstrapState::CheckingKeys,
    ensures
        state == BootstrapState::CheckingDevice,
        event == BootstrapEvent::OwnDevice(DeviceLookup::Missing)
            || event == BootstrapEvent::OwnDevice(DeviceLookup::Found { cross_signed: false }),
{
}

/// Cross-signing is only reset when the cross-signing status showed no private
/// self-signing key held locally.
pub proof fn lemma_reset_only_without_local_key(
    state: BootstrapState,
    event: BootstrapEvent,
    password: Seq<char>,
    next: BootstrapState,
    action: BootstrapAction,
)
    requires
        bootstrap_expects(state, event),
        bootstrap_transition(state, event, password, next, action),
        action is ResetCrossSigning,
    ensures
        state == BootstrapState::CheckingKeys,
        event matches BootstrapEvent::KeyStatus(has_key) && has_key != Some(true),
{
}

/// The password only leaves the bot to authenticate a reset that asked for
/// user-interactive authentication, on behalf of the bot's own localpart.
pub proof fn lemma_password_only_for_uiaa(
    state: BootstrapState,
    event: BootstrapEvent,
    password: Seq<char>,
    next: BootstrapState,
    action: BootstrapAction,
)
    requires
        bootstrap_expects(state, event),
        bootstrap_transition(state, event, password, next, action),
        action is AuthenticateWithPassword,
    ensures
        state == BootstrapState::Resetting,
        event matches BootstrapEvent::Reset(ResetOutcome::NeedsPassword { own_user_id: Some(uid), .. })
            && action->user@ == localpart(uid@),
        action->AuthenticateWithPassword_password@ == password,
{
}

/// A completed reset is always followed by making sure the own device is signed.
pub proof fn lemma_signing_follows_reset(
    method: AuthMethod,
    password: Seq<char>,
    next: BootstrapState,
    action: BootstrapAction,
)
    requires
        bootstrap_transition(BootstrapState::Authenticating(method), BootstrapEvent::Authenticated(true), password, next, action),
    ensures
        next == BootstrapState::FetchingDeviceToSign,
        action == BootstrapAction::LookUpOwnDevice,
{
}

/// The bootstrap reports success only when the device was seen cross-signed, was
/// just signed, or the reset completed without asking for authentication.
pub proof fn lemma_success_only_when_signed(
    state: BootstrapState,
    event: BootstrapEvent,
    password: Seq<char>,
    next: BootstrapState,
)
    requires
        bootstrap_expects(state, event),
        bootstrap_transition(state, event, password, next, BootstrapAction::Finish(Ok(()))),
    ensures
        event == BootstrapEvent::OwnDevice(DeviceLookup::Found { cross_signed: true })
            || event == BootstrapEvent::Signed(true)
            || event == BootstrapEvent::Reset(ResetOutcome::CompletedWithoutAuth),
{
}

/// Every reply to the action a state asked for is taken, whatever it reports:
/// both outcomes of authenticating a reset (for either method), every device
/// lookup, every key status, every reset outcome and both signing outcomes.
pub proof fn lemma_bootstrap_takes_every_reply(
    method: AuthMethod,
    ok: bool,
    lookup: DeviceLookup,
    has_key: Option<bool>,
    outcome: ResetOutcome,
)
    ensures
        bootstrap_expects(BootstrapState::Authenticating(method), BootstrapEvent::Authenticated(ok)),
        bootstrap_expects(BootstrapState::CheckingDevice, BootstrapEvent::OwnDevice(lookup)),
        bootstrap_expects(BootstrapState::FetchingDeviceToSign, BootstrapEvent::OwnDevice(lookup)),
        bootstrap_expects(BootstrapState::CheckingKeys, BootstrapEvent::KeyStatus(has_key)),
        bootstrap_expects(BootstrapState::Resetting, BootstrapEvent::Reset(outcome)),
        bootstrap_expects(BootstrapState::SigningDevice, BootstrapEvent::Signed(ok)),
{
}

/// The password login of a reset names the bot by the full localpart of its user
/// ID `@<l>:<server>`, whatever its length.
pub proof fn lemma_uiaa_user_is_localpart(
    l: Seq<char>,
    server: Seq<char>,
    event: BootstrapEvent,
    password: Seq<char>,
    next: BootstrapState,
    action: BootstrapAction,
)
    requires
        !l.contains(':'),
        event matches BootstrapEvent::Reset(ResetOutcome::NeedsPassword { own_user_id: Some(uid), .. })
            && uid@ == seq!['@'] + l + seq![':'] + server,
        bootstrap_transition(BootstrapState::Resetting, event, password, next, action),
    ensures
        (action matches BootstrapAction::AuthenticateWithPassword { user, password: pw, .. } && user@ == l
            && pw@ == password),
        action->session == event->Reset_0->session,
{
    lemma_localpart_of_user_id(l, server);
}

pub open spec fn found(cross_signed: bool) -> BootstrapEvent {
    BootstrapEvent::OwnDevice(DeviceLookup::Found { cross_signed })
}

/// Device lookups: a cross-signed device ends the bootstrap with success at either
/// look, a failed lookup ends it with the store's error, an unsigned or missing
/// device is followed by the key status on the first look, and on the second look
/// an unsigned device is signed while a missing one is an error.
pub proof fn lemma_device_replies(
    state: BootstrapState,
    reason: String,
    password: Seq<char>,
    next: BootstrapState,
    action: BootstrapAction,
)
    ensures
        bootstrap_expects(state, found(true)) && bootstrap_transition(state, found(true), password, next, action)
            ==> action == BootstrapAction::Finish(Ok(())) && next == BootstrapState::Finished,
        bootstrap_expects(state, found(true)) && bootstrap_transition(
            state,
            BootstrapEvent::OwnDevice(DeviceLookup::Failed(reason)),
            password,
            next,
            action,
        ) ==> action == BootstrapAction::Finish(Err(BootstrapError::DeviceLookupFailed(reason))),
        bootstrap_transition(BootstrapState::CheckingDevice, found(false), password, next, action)
            ==> action == BootstrapAction::ReadKeyStatus && next == BootstrapState::CheckingKeys,
        bootstrap_transition(
            BootstrapState::CheckingDevice,
            BootstrapEvent::OwnDevice(DeviceLookup::Missing),
            password,
            next,
            action,
        ) ==> action == BootstrapAction::ReadKeyStatus && next == BootstrapState::CheckingKeys,
        bootstrap_transition(BootstrapState::FetchingDeviceToSign, found(false), password, next, action)
            ==> action == BootstrapAction::SignOwnDevice && next == BootstrapState::SigningDevice,
        bootstrap_transition(
            BootstrapState::FetchingDeviceToSign,
            BootstrapEvent::OwnDevice(DeviceLookup::Missing),
            password,
            next,
            action,
        ) ==> action == BootstrapAction::Finish(Err(BootstrapError::NoOwnDevice)),
{
}

/// Key status and reset: a local self-signing key leads to signing, its absence to
/// a reset; a failed reset ends with its error, a reset that needed no
/// authentication ends with success, a password reset without a user ID ends with
/// its error, and an OAuth reset is approved at the URL it gave.
pub proof fn lemma_reset_replies(
    has_key: Option<bool>,
    url: String,
    session: Option<String>,
    password: Seq<char>,
    next: BootstrapState,
    action: BootstrapAction,
)
    ensures
        bootstrap_transition(BootstrapState::CheckingKeys, BootstrapEvent::KeyStatus(has_key), password, next, action)
            ==> if has_key == Some(true) {
            action == BootstrapAction::LookUpOwnDevice && next == BootstrapState::FetchingDeviceToSign
        } else {
            action == BootstrapAction::ResetCrossSigning && next == BootstrapState::Resetting
        },
        bootstrap_transition(
            BootstrapState::Resetting,
            BootstrapEvent::Reset(ResetOutcome::Failed),
            password,
            next,
            action,
        ) ==> action == BootstrapAction::Finish(Err(BootstrapError::ResetFailed)),
        bootstrap_transition(
            BootstrapState::Resetting,
            BootstrapEvent::Reset(ResetOutcome::CompletedWithoutAuth),
            password,
            next,
            action,
        ) ==> action == BootstrapAction::Finish(Ok(())),
        bootstrap_transition(
            BootstrapState::Resetting,
            BootstrapEvent::Reset((ResetOutcome::NeedsPassword { session, own_user_id: None })),
            password,
            next,
            action,
        ) ==> action == BootstrapAction::Finish(Err(BootstrapError::NoUserId)),
        bootstrap_transition(
            BootstrapState::Resetting,
            BootstrapEvent::Reset((ResetOutcome::NeedsOAuth { approval_url: url })),
            password,
            next,
            action,
        ) ==> action == (BootstrapAction::AuthenticateWithOAuth { approval_url: url })
            && next == BootstrapState::Authenticating(AuthMethod::OAuth),
{
}

/// Authentication and signing: a failed authentication ends with the error of its
/// method, a successful signature with success and a failed one with its error.
pub proof fn lemma_auth_and_sign_replies(
    method: AuthMethod,
    ok: bool,
    password: Seq<char>,
    next: BootstrapState,
    action: BootstrapAction,
)
    ensures
        bootstrap_transition(
            BootstrapState::Authenticating(method),
            BootstrapEvent::Authenticated(false),
            password,
            next,
            action,
        ) ==> action == BootstrapAction::Finish(Err(
            if method == AuthMethod::Password {
                BootstrapError::PasswordAuthFailed
            } else {
                BootstrapError::OAuthFailed
            },
        )),
        bootstrap_transition(BootstrapState::SigningDevice, BootstrapEvent::Signed(ok), password, next, action)
            ==> action == BootstrapAction::Finish(if ok { Ok(()) } else { Err(BootstrapError::SigningFailed) }),
{
}

/// The reported texts: the store's own error for a failed lookup, and a fixed
/// sentence for each other failure.
pub proof fn lemma_bootstrap_messages(reason: String)
    ensures
        bootstrap_error_message(BootstrapError::DeviceLookupFailed(reason)) == reason@,
        bootstrap_error_message(BootstrapError::ResetFailed) == "Failed to reset cross-signing"@,
        bootstrap_error_message(BootstrapError::NoUserId) == "User ID not available after login"@,
        bootstrap_error_message(BootstrapError::PasswordAuthFailed) == "Failed to authenticate cross-signing reset"@,
        bootstrap_error_message(BootstrapError::OAuthFailed) == "Failed to complete OAuth cross-signing reset"@,
        bootstrap_error_message(BootstrapError::NoOwnDevice) == "Could not get own device"@,
        bootstrap_error_message(BootstrapError::SigningFailed) == "Failed to sign own device with self-signing key"@,
{
}

} // verus!
