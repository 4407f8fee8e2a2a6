use matrix_bot_test::bootstrap::{
    AuthMethod, BootstrapAction, BootstrapError, BootstrapEvent, BootstrapState, DeviceLookup,
    ResetOutcome,
};
use matrix_bot_test::identity::{localpart_of, parse_owner_handle};

#[test]
fn owner_handle_parses() {
    let id = parse_owner_handle("@owner:example.org").unwrap();
    assert_eq!(id, "@owner:example.org");
    assert_eq!(localpart_of(&id), "owner");
    let other = parse_owner_handle("@intruder:example.org").unwrap();
    assert_eq!(other, "@intruder:example.org");
}

#[test]
fn invalid_owner_handle_is_reported() {
    for handle in ["owner", "owner:example.org", "@owner", ""] {
        let err = parse_owner_handle(handle).unwrap_err();
        assert_eq!(err.handle, handle);
        assert_eq!(err.message(), format!("Invalid owner handle: {}", handle));
    }
}

#[test]
fn localpart_matches_ruma() {
    for (id, local) in [
        ("@bot:example.org", "bot"),
        ("@b.o_t:example.org:8448", "b.o_t"),
        ("@x:[::1]:80", "x"),
    ] {
        let parsed = parse_owner_handle(id).unwrap();
        assert_eq!(localpart_of(&parsed), local);
    }
    assert_eq!(localpart_of("@bot:example.org"), "bot");
    assert_eq!(localpart_of(""), "");
    assert_eq!(localpart_of("@nocolon"), "nocolon");
}

const PW: &str = "hunter2";

fn run(events: Vec<BootstrapEvent>) -> Vec<BootstrapAction> {
    let (mut state, first) = BootstrapState::start();
    let mut actions = vec![first];
    for event in events {
        assert!(state.expects(&event));
        let (next, action) = state.step(event, PW);
        state = next;
        actions.push(action);
    }
    actions
}

fn finished_with(actions: &[BootstrapAction]) -> &Result<(), BootstrapError> {
    match actions.last().unwrap() {
        BootstrapAction::Finish(outcome) => outcome,
        other => panic!("not finished: {:?}", other),
    }
}

#[test]
fn cross_signed_device_needs_nothing() {
    let actions = run(vec![BootstrapEvent::OwnDevice(DeviceLookup::Found { cross_signed: true })]);
    assert_eq!(actions.len(), 2);
    assert!(matches!(actions[0], BootstrapAction::LookUpOwnDevice));
    assert!(finished_with(&actions).is_ok());
}

#[test]
fn local_self_signing_key_signs_device() {
    let actions = run(vec![
        BootstrapEvent::OwnDevice(DeviceLookup::Found { cross_signed: false }),
        BootstrapEvent::KeyStatus(Some(true)),
        BootstrapEvent::OwnDevice(DeviceLookup::Found { cross_signed: false }),
        BootstrapEvent::Signed(true),
    ]);
    assert!(matches!(actions[1], BootstrapAction::ReadKeyStatus));
    assert!(matches!(actions[2], BootstrapAction::LookUpOwnDevice));
    assert!(matches!(actions[3], BootstrapAction::SignOwnDevice));
    assert!(finished_with(&actions).is_ok());
}

#[test]
fn reset_with_password() {
    let actions = run(vec![
        BootstrapEvent::OwnDevice(DeviceLookup::Missing),
        BootstrapEvent::KeyStatus(None),
        BootstrapEvent::Reset(ResetOutcome::NeedsPassword {
            session: Some("sess".to_string()),
            own_user_id: Some("@bot:example.org".to_string()),
        }),
        BootstrapEvent::Authenticated(true),
        BootstrapEvent::OwnDevice(DeviceLookup::Found { cross_signed: true }),
    ]);
    assert!(matches!(actions[2], BootstrapAction::ResetCrossSigning));
    match &actions[3] {
        BootstrapAction::AuthenticateWithPassword { user, password, session } => {
            assert_eq!(user, "bot");
            assert_eq!(password, PW);
            assert_eq!(session.as_deref(), Some("sess"));
        }
        other => panic!("unexpected {:?}", other),
    }
    assert!(matches!(actions[4], BootstrapAction::LookUpOwnDevice));
    assert!(finished_with(&actions).is_ok());
}

#[test]
fn reset_with_oauth() {
    let actions = run(vec![
        BootstrapEvent::OwnDevice(DeviceLookup::Found { cross_signed: false }),
        BootstrapEvent::KeyStatus(Some(false)),
        BootstrapEvent::Reset(ResetOutcome::NeedsOAuth {
            approval_url: "https://auth.example.org/approve".to_string(),
        }),
        BootstrapEvent::Authenticated(false),
    ]);
    match &actions[3] {
        BootstrapAction::AuthenticateWithOAuth { approval_url } => {
            assert_eq!(approval_url, "https://auth.example.org/approve")
        }
        other => panic!("unexpected {:?}", other),
    }
    let err = finished_with(&actions).as_ref().unwrap_err();
    assert_eq!(err.message(), "Failed to complete OAuth cross-signing reset");
}

#[test]
fn bootstrap_errors() {
    let cases: Vec<(Vec<BootstrapEvent>, &str)> = vec![
        (
            vec![BootstrapEvent::OwnDevice(DeviceLookup::Failed("store is locked".to_string()))],
            "store is locked",
        ),
        (
            vec![
                BootstrapEvent::OwnDevice(DeviceLookup::Missing),
                BootstrapEvent::KeyStatus(None),
                BootstrapEvent::Reset(ResetOutcome::Failed),
            ],
            "Failed to reset cross-signing",
        ),
        (
            vec![
                BootstrapEvent::OwnDevice(DeviceLookup::Missing),
                BootstrapEvent::KeyStatus(None),
                BootstrapEvent::Reset(ResetOutcome::NeedsPassword { session: None, own_user_id: None }),
            ],
            "User ID not available after login",
        ),
        (
            vec![
                BootstrapEvent::OwnDevice(DeviceLookup::Missing),
                BootstrapEvent::KeyStatus(None),
                BootstrapEvent::Reset(ResetOutcome::NeedsPassword {
                    session: None,
                    own_user_id: Some("@bot:example.org".to_string()),
                }),
                BootstrapEvent::Authenticated(false),
            ],
            "Failed to authenticate cross-signing reset",
        ),
        (
            vec![
                BootstrapEvent::OwnDevice(DeviceLookup::Missing),
                BootstrapEvent::KeyStatus(Some(true)),
                BootstrapEvent::OwnDevice(DeviceLookup::Missing),
            ],
            "Could not get own device",
        ),
        (
            vec![
                BootstrapEvent::OwnDevice(DeviceLookup::Missing),
                BootstrapEvent::KeyStatus(Some(true)),
                BootstrapEvent::OwnDevice(DeviceLookup::Found { cross_signed: false }),
                BootstrapEvent::Signed(false),
            ],
            "Failed to sign own device with self-signing key",
        ),
    ];
    for (events, message) in cases {
        let actions = run(events);
        let err = finished_with(&actions).as_ref().unwrap_err();
        assert_eq!(err.message(), message);
    }
}

#[test]
fn reset_without_auth_finishes() {
    let actions = run(vec![
        BootstrapEvent::OwnDevice(DeviceLookup::Missing),
        BootstrapEvent::KeyStatus(None),
        BootstrapEvent::Reset(ResetOutcome::CompletedWithoutAuth),
    ]);
    assert!(finished_with(&actions).is_ok());
}

#[test]
fn bootstrap_expects_only_replies() {
    let (state, _) = BootstrapState::start();
    assert!(!state.expects(&BootstrapEvent::Signed(true)));
    assert!(!state.is_finished());
    let (state, _) = state.step(BootstrapEvent::OwnDevice(DeviceLookup::Found { cross_signed: true }), PW);
    assert!(state.is_finished());
    assert!(!state.expects(&BootstrapEvent::OwnDevice(DeviceLookup::Missing)));
    assert_eq!(
        BootstrapState::Authenticating(AuthMethod::Password),
        BootstrapState::Authenticating(AuthMethod::Password)
    );
}
