use matrix_bot_test::verification::{
    emoji_lines, Emoji, FlowAction, FlowEvent, FlowState, IdentityLookup, RequestUpdate, Role,
    SasAction, SasEvent, SasStart, SasState, SasUpdate, VerificationError,
};

fn flow(start: (FlowState, FlowAction), events: Vec<FlowEvent>) -> Vec<FlowAction> {
    let (mut state, first) = start;
    let mut actions = vec![first];
    for event in events {
        assert!(state.expects(&event));
        let (next, action) = state.step(event);
        state = next;
        actions.push(action);
    }
    actions
}

fn outcome(actions: &[FlowAction]) -> &Result<(), VerificationError> {
    match actions.last().unwrap() {
        FlowAction::Finish(o) => o,
        other => panic!("not finished: {:?}", other),
    }
}

#[test]
fn initiator_starts_sas_when_ready() {
    let actions = flow(
        FlowState::start_outgoing(),
        vec![
            FlowEvent::OwnerIdentity(IdentityLookup::Found),
            FlowEvent::RequestSent(true),
            FlowEvent::Update(RequestUpdate::Created),
            FlowEvent::Update(RequestUpdate::Ready),
            FlowEvent::SasStarted(SasStart::Started),
            FlowEvent::SasFinished(Ok(())),
        ],
    );
    assert!(matches!(actions[0], FlowAction::LookUpOwnerIdentity));
    assert!(matches!(actions[1], FlowAction::SendRequest));
    assert!(matches!(actions[2], FlowAction::WaitForUpdate));
    assert!(matches!(actions[3], FlowAction::WaitForUpdate));
    assert!(matches!(actions[4], FlowAction::StartSas));
    assert!(matches!(actions[5], FlowAction::RunSas));
    assert!(outcome(&actions).is_ok());
}

#[test]
fn responder_waits_when_ready_and_runs_sas_started_by_owner() {
    let actions = flow(
        FlowState::start_incoming(),
        vec![
            FlowEvent::Accepted(true),
            FlowEvent::Update(RequestUpdate::Ready),
            FlowEvent::Update(RequestUpdate::TransitionedToSas),
            FlowEvent::SasFinished(Ok(())),
        ],
    );
    assert!(matches!(actions[0], FlowAction::AcceptRequest));
    assert!(matches!(actions[2], FlowAction::WaitForUpdate));
    assert!(matches!(actions[3], FlowAction::RunSas));
    assert!(outcome(&actions).is_ok());
}

#[test]
fn initiator_handles_sas_started_by_owner() {
    let actions = flow(
        FlowState::start_outgoing(),
        vec![
            FlowEvent::OwnerIdentity(IdentityLookup::Found),
            FlowEvent::RequestSent(true),
            FlowEvent::Update(RequestUpdate::TransitionedToSas),
        ],
    );
    assert!(matches!(actions[3], FlowAction::RunSas));
}

#[test]
fn request_errors() {
    let cases: Vec<((FlowState, FlowAction), Vec<FlowEvent>, String)> = vec![
        (
            FlowState::start_outgoing(),
            vec![FlowEvent::OwnerIdentity(IdentityLookup::Failed)],
            "Failed to request owner identity".to_string(),
        ),
        (
            FlowState::start_outgoing(),
            vec![FlowEvent::OwnerIdentity(IdentityLookup::Missing)],
            "Owner identity not found - owner may not have cross-signing set up".to_string(),
        ),
        (
            FlowState::start_outgoing(),
            vec![FlowEvent::OwnerIdentity(IdentityLookup::Found), FlowEvent::RequestSent(false)],
            "Failed to request verification".to_string(),
        ),
        (
            FlowState::start_incoming(),
            vec![FlowEvent::Accepted(false)],
            "Failed to accept verification request".to_string(),
        ),
        (
            FlowState::start_outgoing(),
            vec![
                FlowEvent::OwnerIdentity(IdentityLookup::Found),
                FlowEvent::RequestSent(true),
                FlowEvent::Update(RequestUpdate::Ready),
                FlowEvent::SasStarted(SasStart::Failed),
            ],
            "Failed to start SAS verification".to_string(),
        ),
        (
            FlowState::start_outgoing(),
            vec![
                FlowEvent::OwnerIdentity(IdentityLookup::Found),
                FlowEvent::RequestSent(true),
                FlowEvent::Update(RequestUpdate::Ready),
                FlowEvent::SasStarted(SasStart::NotSupported),
            ],
            "SAS verification not supported by the other side".to_string(),
        ),
        (
            FlowState::start_incoming(),
            vec![FlowEvent::Accepted(true), FlowEvent::Update(RequestUpdate::TransitionedToOther)],
            "Unsupported verification method".to_string(),
        ),
        (
            FlowState::start_incoming(),
            vec![
                FlowEvent::Accepted(true),
                FlowEvent::Update(RequestUpdate::Cancelled("The user cancelled".to_string())),
            ],
            "Verification cancelled: The user cancelled".to_string(),
        ),
        (
            FlowState::start_incoming(),
            vec![
                FlowEvent::Accepted(true),
                FlowEvent::Update(RequestUpdate::TransitionedToSas),
                FlowEvent::SasFinished(Err(VerificationError::ConfirmFailed)),
            ],
            "Failed to confirm SAS verification".to_string(),
        ),
    ];
    for (start, events, message) in cases {
        let actions = flow(start, events);
        assert_eq!(outcome(&actions).as_ref().unwrap_err().message(), message);
    }
}

#[test]
fn request_done_is_success_and_ended_is_not() {
    let actions = flow(
        FlowState::start_incoming(),
        vec![FlowEvent::Accepted(true), FlowEvent::Update(RequestUpdate::Done)],
    );
    assert!(outcome(&actions).is_ok());
    let actions = flow(
        FlowState::start_outgoing(),
        vec![
            FlowEvent::OwnerIdentity(IdentityLookup::Found),
            FlowEvent::RequestSent(true),
            FlowEvent::Update(RequestUpdate::Created),
            FlowEvent::Update(RequestUpdate::Ended),
        ],
    );
    assert_eq!(
        outcome(&actions).as_ref().unwrap_err().message(),
        "Verification ended before it completed"
    );
    let (state, _) = FlowState::start_incoming();
    let (state, _) = state.step(FlowEvent::Accepted(true));
    assert_eq!(state, FlowState::Watching(Role::Responder));
    let (state, action) = state.step(FlowEvent::Update(RequestUpdate::Requested));
    assert_eq!(state, FlowState::Watching(Role::Responder));
    assert!(matches!(action, FlowAction::WaitForUpdate));
    assert!(!state.is_finished());
}

fn emoji(symbol: &str, description: &str) -> Emoji {
    Emoji { symbol: symbol.to_string(), description: description.to_string() }
}

#[test]
fn emoji_lines_show_symbol_and_description() {
    let lines = emoji_lines(&vec![emoji("🐶", "Dog"), emoji("🔑", "Key")]);
    assert_eq!(lines, vec!["🐶 Dog".to_string(), "🔑 Key".to_string()]);
    assert!(emoji_lines(&vec![]).is_empty());
}

fn sas(we_started: bool, events: Vec<SasEvent>) -> Vec<SasAction> {
    let (mut state, first) = SasState::start(we_started);
    let mut actions = vec![first];
    for event in events {
        assert!(state.expects(&event));
        let (next, action) = state.step(event);
        state = next;
        actions.push(action);
    }
    actions
}

fn sas_outcome(actions: &[SasAction]) -> &Result<(), VerificationError> {
    match actions.last().unwrap() {
        SasAction::Finish(o) => o,
        other => panic!("not finished: {:?}", other),
    }
}

#[test]
fn sas_accepts_only_when_owner_started() {
    assert!(matches!(SasState::start(false), (SasState::Accepting, SasAction::AcceptSas)));
    assert!(matches!(SasState::start(true), (SasState::Watching, SasAction::WaitForUpdate)));
}

#[test]
fn sas_confirms_after_emojis() {
    let actions = sas(
        false,
        vec![
            SasEvent::AcceptResult(true),
            SasEvent::Update(SasUpdate::Accepted),
            SasEvent::Update(SasUpdate::KeysExchanged(Some(vec![emoji("🐱", "Cat")]))),
            SasEvent::ConfirmResult(true),
            SasEvent::Update(SasUpdate::Confirmed),
            SasEvent::Update(SasUpdate::Done),
        ],
    );
    match &actions[3] {
        SasAction::ShowEmojisAndConfirm(lines) => assert_eq!(lines, &vec!["🐱 Cat".to_string()]),
        other => panic!("unexpected {:?}", other),
    }
    assert!(matches!(actions[5], SasAction::WaitForUpdate));
    assert!(sas_outcome(&actions).is_ok());
}

#[test]
fn sas_without_emojis_does_not_confirm() {
    let actions = sas(
        true,
        vec![SasEvent::Update(SasUpdate::KeysExchanged(None)), SasEvent::Update(SasUpdate::Done)],
    );
    assert!(matches!(actions[1], SasAction::WaitForUpdate));
    assert!(sas_outcome(&actions).is_ok());
}

#[test]
fn sas_stream_ending_early_is_an_error() {
    let actions = sas(
        false,
        vec![
            SasEvent::AcceptResult(true),
            SasEvent::Update(SasUpdate::KeysExchanged(Some(vec![emoji("🐱", "Cat")]))),
            SasEvent::ConfirmResult(true),
            SasEvent::Update(SasUpdate::Ended),
        ],
    );
    assert_eq!(
        sas_outcome(&actions).as_ref().unwrap_err().message(),
        "SAS verification ended before it completed"
    );
}

#[test]
fn sas_errors() {
    let accept = sas(false, vec![SasEvent::AcceptResult(false)]);
    assert_eq!(
        sas_outcome(&accept).as_ref().unwrap_err().message(),
        "Failed to accept SAS verification"
    );
    let confirm = sas(
        true,
        vec![
            SasEvent::Update(SasUpdate::KeysExchanged(Some(vec![]))),
            SasEvent::ConfirmResult(false),
        ],
    );
    assert_eq!(
        sas_outcome(&confirm).as_ref().unwrap_err().message(),
        "Failed to confirm SAS verification"
    );
    let cancelled = sas(
        true,
        vec![SasEvent::Update(SasUpdate::Cancelled("Mismatched short authentication string".to_string()))],
    );
    assert_eq!(
        sas_outcome(&cancelled).as_ref().unwrap_err().message(),
        "SAS verification cancelled: Mismatched short authentication string"
    );
}
