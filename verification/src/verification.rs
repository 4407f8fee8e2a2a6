//! Interactive verification: the request flow (as initiator towards the owner, or as
//! responder) and the SAS (emoji) flow.
//!
//! The caller performs each requested action with the SDK and reports what came
//! back, or the next state change of the request or SAS stream, as the next event.
use vstd::prelude::*;

verus! {

/// Why a verification did not complete; each error has the message the bot reports.
#[derive(Debug)]
pub enum VerificationError {
    /// `Failed to request owner identity`
    IdentityLookupFailed,
    /// `Owner identity not found - owner may not have cross-signing set up`
    OwnerIdentityMissing,
    /// `Failed to request verification`
    RequestFailed,
    /// `Failed to accept verification request`
    AcceptFailed,
    /// `Failed to start SAS verification`
    StartSasFailed,
    /// `SAS verification not supported by the other side`
    SasNotSupported,
    /// `Unsupported verification method`
    UnsupportedMethod,
    /// `Verification cancelled: <reason>`
    Cancelled(String),
    /// `Failed to accept SAS verification`
    SasAcceptFailed,
    /// `Failed to confirm SAS verification`
    ConfirmFailed,
    /// `SAS verification cancelled: <reason>`
    SasCancelled(String),
    /// `Verification ended before it completed`
    RequestEnded,
    /// `SAS verification ended before it completed`
    SasEnded,
}

pub open spec fn verification_error_message(err: VerificationError) -> Seq<char> {
    match err {
        VerificationError::IdentityLookupFailed => "Failed to request owner identity"@,
        VerificationError::OwnerIdentityMissing =>
            "Owner identity not found - owner may not have cross-signing set up"@,
        VerificationError::RequestFailed => "Failed to request verification"@,
        VerificationError::AcceptFailed => "Failed to accept verification request"@,
        VerificationError::StartSasFailed => "Failed to start SAS verification"@,
        VerificationError::SasNotSupported => "SAS verification not supported by the other side"@,
        VerificationError::UnsupportedMethod => "Unsupported verification method"@,
        VerificationError::Cancelled(reason) => "Verification cancelled: "@ + reason@,
        VerificationError::SasAcceptFailed => "Failed to accept SAS verification"@,
        VerificationError::ConfirmFailed => "Failed to confirm SAS verification"@,
        VerificationError::SasCancelled(reason) => "SAS verification cancelled: "@ + reason@,
        VerificationError::RequestEnded => "Verification ended before it completed"@,
        VerificationError::SasEnded => "SAS verification ended before it completed"@,
    }
}

impl VerificationError {
    pub fn message(&self) -> (msg: String)
        ensures
            msg@ == verification_error_message(*self),
    {
        match self {
            VerificationError::IdentityLookupFailed => String::from_str("Failed to request owner identity"),
            VerificationError::OwnerIdentityMissing => String::from_str(
                "Owner identity not found - owner may not have cross-signing set up",
            ),
            VerificationError::RequestFailed => String::from_str("Failed to request verification"),
            VerificationError::AcceptFailed => String::from_str("Failed to accept verification request"),
            VerificationError::StartSasFailed => String::from_str("Failed to start SAS verification"),
            VerificationError::SasNotSupported => String::from_str(
                "SAS verification not supported by the other side",
            ),
            VerificationError::UnsupportedMethod => String::from_str("Unsupported verification method"),
            VerificationError::Cancelled(reason) => String::from_str("Verification cancelled: ").concat(
                reason.as_str(),
            ),
            VerificationError::SasAcceptFailed => String::from_str("Failed to accept SAS verification"),
            VerificationError::ConfirmFailed => String::from_str("Failed to confirm SAS verification"),
            VerificationError::SasCancelled(reason) => String::from_str(
                "SAS verification cancelled: ",
            ).concat(reason.as_str()),
            VerificationError::RequestEnded => String::from_str("Verification ended before it completed"),
            VerificationError::SasEnded => String::from_str("SAS verification ended before it completed"),
        }
    }
}

/// Which side of the verification request the bot is on.
#[derive(Debug, Clone, Copy, PartialEq, Eq)]
pub enum Role {
    /// The bot sent the request to the owner.
    Initiator,
    /// Another user sent the request to the bot (the bot answers any sender).
    Responder,
}

/// What looking up the owner's cross-signing identity gave.
#[derive(Debug, Clone, Copy, PartialEq, Eq)]
pub enum IdentityLookup {
    Failed,
    Missing,
    Found,
}

/// A state change of a verification request.
#[derive(Debug)]
pub enum RequestUpdate {
    Created,
    Requested,
    Ready,
    /// The request turned into a SAS verification.
    TransitionedToSas,
    /// The request turned into some other verification method.
    TransitionedToOther,
    Done,
    /// The request was cancelled, with the reason.
    Cancelled(String),
    /// The stream of changes ended without the request being done or cancelled.
    Ended,
}

/// What starting a SAS flow gave.
#[derive(Debug, Clone, Copy, PartialEq, Eq)]
pub enum SasStart {
    Failed,
    /// The other side does not support SAS.
    NotSupported,
    Started,
}

/// Where a verification request stands.
#[derive(Debug, Clone, Copy, PartialEq, Eq)]
pub enum FlowState {
    /// Waiting for the owner's identity (initiator).
    LookingUpOwner,
    /// Waiting for the request to be sent (initiator).
    SendingRequest,
    /// Waiting for the request to be accepted (responder).
    Accepting,
    /// Waiting for the next state change of the request.
    Watching(Role),
    /// Waiting for the SAS flow to start (initiator).
    StartingSas,
    /// Waiting for the SAS flow to finish.
    RunningSas,
    Finished,
}

/// A reply to the last action.
#[derive(Debug)]
pub enum FlowEvent {
    OwnerIdentity(IdentityLookup),
    /// Whether sending the request succeeded.
    RequestSent(bool),
    /// Whether accepting the request succeeded.
    Accepted(bool),
    Update(RequestUpdate),
    SasStarted(SasStart),
    /// The outcome of the SAS flow.
    SasFinished(Result<(), VerificationError>),
}

/// What the caller has to do next.
#[derive(Debug)]
pub enum FlowAction {
    LookUpOwnerIdentity,
    SendRequest,
    AcceptRequest,
    /// Wait for the next state change of the request.
    WaitForUpdate,
    /// Start a SAS flow on the request.
    StartSas,
    /// Run the SAS flow that the request turned into or that was started.
    RunSas,
    Finish(Result<(), VerificationError>),
}

pub open spec fn flow_expects(state: FlowState, event: FlowEvent) -> bool {
    match state {
        FlowState::LookingUpOwner => event is OwnerIdentity,
        FlowState::SendingRequest => event is RequestSent,
        FlowState::Accepting => event is Accepted,
        FlowState::Watching(_) => event is Update,
        FlowState::StartingSas => event is SasStarted,
        FlowState::RunningSas => event is SasFinished,
        FlowState::Finished => false,
    }
}

/// How the watched request reacts to a state change, for either role.
pub open spec fn on_update(role: Role, update: RequestUpdate) -> (FlowState, FlowAction) {
    match update {
        RequestUpdate::Ready => if role == Role::Initiator {
            (FlowState::StartingSas, FlowAction::StartSas)
        } else {
            (FlowState::Watching(role), FlowAction::WaitForUpdate)
        },
        RequestUpdate::TransitionedToSas => (FlowState::RunningSas, FlowAction::RunSas),
        RequestUpdate::TransitionedToOther => (
            FlowState::Finished,
            FlowAction::Finish(Err(VerificationError::UnsupportedMethod)),
        ),
        RequestUpdate::Done => (FlowState::Finished, FlowAction::Finish(Ok(()))),
        RequestUpdate::Cancelled(reason) => (
            FlowState::Finished,
            FlowAction::Finish(Err(VerificationError::Cancelled(reason))),
        ),
        RequestUpdate::Ended => (
            FlowState::Finished,
            FlowAction::Finish(Err(VerificationError::RequestEnded)),
        ),
        _ => (FlowState::Watching(role), FlowAction::WaitForUpdate),
    }
}

/// The transition function of a verification request.
pub open spec fn flow_transition(state: FlowState, event: FlowEvent) -> (FlowState, FlowAction) {
    match event {
        FlowEvent::OwnerIdentity(lookup) => match lookup {
            IdentityLookup::Failed => (
                FlowState::Finished,
                FlowAction::Finish(Err(VerificationError::IdentityLookupFailed)),
            ),
            IdentityLookup::Missing => (
                FlowState::Finished,
                FlowAction::Finish(Err(VerificationError::OwnerIdentityMissing)),
            ),
            IdentityLookup::Found => (FlowState::SendingRequest, FlowAction::SendRequest),
        },
        FlowEvent::RequestSent(ok) => if ok {
            (FlowState::Watching(Role::Initiator), FlowAction::WaitForUpdate)
        } else {
            (FlowState::Finished, FlowAction::Finish(Err(VerificationError::RequestFailed)))
        },
        FlowEvent::Accepted(ok) => if ok {
            (FlowState::Watching(Role::Responder), FlowAction::WaitForUpdate)
        } else {
            (FlowState::Finished, FlowAction::Finish(Err(VerificationError::AcceptFailed)))
        },
        FlowEvent::Update(update) => match state {
            FlowState::Watching(role) => on_update(role, update),
            _ => (state, FlowAction::WaitForUpdate),
        },
        FlowEvent::SasStarted(start) => match start {
            SasStart::Failed => (
                FlowState::Finished,
                FlowAction::Finish(Err(VerificationError::StartSasFailed)),
            ),
            SasStart::NotSupported => (
                FlowState::Finished,
                FlowAction::Finish(Err(VerificationError::SasNotSupported)),
            ),
            SasStart::Started => (FlowState::RunningSas, FlowAction::RunSas),
        },
        FlowEvent::SasFinished(outcome) => (FlowState::Finished, FlowAction::Finish(outcome)),
    }
}

impl FlowState {
    pub open spec fn start_incoming_spec() -> (FlowState, FlowAction) {
        (FlowState::Accepting, FlowAction::AcceptRequest)
    }

    /// The bot asks the owner for verification: it starts by looking up the
    /// owner's cross-signing identity.
    pub fn start_outgoing() -> (res: (FlowState, FlowAction))
        ensures
            res == (FlowState::LookingUpOwner, FlowAction::LookUpOwnerIdentity),
    {
        (FlowState::LookingUpOwner, FlowAction::LookUpOwnerIdentity)
    }

    /// Another user asked the bot for verification: it starts by accepting.
    pub fn start_incoming() -> (res: (FlowState, FlowAction))
        ensures
            res == Self::start_incoming_spec(),
    {
        (FlowState::Accepting, FlowAction::AcceptRequest)
    }

    pub fn is_finished(&self) -> (b: bool)
        ensures
            b == (*self is Finished),
    {
        matches!(self, FlowState::Finished)
    }

    pub fn expects(&self, event: &FlowEvent) -> (b: bool)
        ensures
            b == flow_expects(*self, *event),
            *self is Watching && *event is Update ==> b,
            *self == FlowState::LookingUpOwner && *event is OwnerIdentity ==> b,
            *self == FlowState::SendingRequest && *event is RequestSent ==> b,
            *self == FlowState::Accepting && *event is Accepted ==> b,
            *self == FlowState::StartingSas && *event is SasStarted ==> b,
            *self == FlowState::RunningSas && *event is SasFinished ==> b,
            *self is Finished ==> !b,
    {
        match self {
            FlowState::LookingUpOwner => matches!(event, FlowEvent::OwnerIdentity(_)),
            FlowState::SendingRequest => matches!(event, FlowEvent::RequestSent(_)),
            FlowState::Accepting => matches!(event, FlowEvent::Accepted(_)),
            FlowState::Watching(_) => matches!(event, FlowEvent::Update(_)),
            FlowState::StartingSas => matches!(event, FlowEvent::SasStarted(_)),
            FlowState::RunningSas => matches!(event, FlowEvent::SasFinished(_)),
            FlowState::Finished => false,
        }
    }

    /// Takes the reply to the last action and decides what comes next.
    pub fn step(self, event: FlowEvent) -> (res: (FlowState, FlowAction))
        requires
            flow_expects(self, event),
        ensures
            res == flow_transition(self, event),
    {
        match event {
            FlowEvent::OwnerIdentity(lookup) => match lookup {
                IdentityLookup::Failed => (
                    FlowState::Finished,
                    FlowAction::Finish(Err(VerificationError::IdentityLookupFailed)),
                ),
                IdentityLookup::Missing => (
                    FlowState::Finished,
                    FlowAction::Finish(Err(VerificationError::OwnerIdentityMissing)),
                ),
                IdentityLookup::Found => (FlowState::SendingRequest, FlowAction::SendRequest),
            },
            FlowEvent::RequestSent(ok) => if ok {
                (FlowState::Watching(Role::Initiator), FlowAction::WaitForUpdate)
            } else {
                (FlowState::Finished, FlowAction::Finish(Err(VerificationError::RequestFailed)))
            },
            FlowEvent::Accepted(ok) => if ok {
                (FlowState::Watching(Role::Responder), FlowAction::WaitForUpdate)
            } else {
                (FlowState::Finished, FlowAction::Finish(Err(VerificationError::AcceptFailed)))
            },
            FlowEvent::Update(update) => {
                let role = match self {
                    FlowState::Watching(r) => r,
                    _ => Role::Initiator,
                };
                match update {
                    RequestUpdate::Ready => match role {
                        Role::Initiator => (FlowState::StartingSas, FlowAction::StartSas),
                        Role::Responder => (FlowState::Watching(role), FlowAction::WaitForUpdate),
                    },
                    RequestUpdate::TransitionedToSas => (FlowState::RunningSas, FlowAction::RunSas),
                    RequestUpdate::TransitionedToOther => (
                        FlowState::Finished,
                        FlowAction::Finish(Err(VerificationError::UnsupportedMethod)),
                    ),
                    RequestUpdate::Done => (FlowState::Finished, FlowAction::Finish(Ok(()))),
                    RequestUpdate::Cancelled(reason) => (
                        FlowState::Finished,
                        FlowAction::Finish(Err(VerificationError::Cancelled(reason))),
                    ),
                    RequestUpdate::Ended => (
                        FlowState::Finished,
                        FlowAction::Finish(Err(VerificationError::RequestEnded)),
                    ),
                    RequestUpdate::Created => (FlowState::Watching(role), FlowAction::WaitForUpdate),
                    RequestUpdate::Requested => (FlowState::Watching(role), FlowAction::WaitForUpdate),
                }
            },
            FlowEvent::SasStarted(start) => match start {
                SasStart::Failed => (
                    FlowState::Finished,
                    FlowAction::Finish(Err(VerificationError::StartSasFailed)),
                ),
                SasStart::NotSupported => (
                    FlowState::Finished,
                    FlowAction::Finish(Err(VerificationError::SasNotSupported)),
                ),
                SasStart::Started => (FlowState::RunningSas, FlowAction::RunSas),
            },
            FlowEvent::SasFinished(outcome) => (FlowState::Finished, FlowAction::Finish(outcome)),
        }
    }
}

/// One emoji of the short authentication string.
#[derive(Debug)]
pub struct Emoji {
    pub symbol: String,
    pub description: String,
}

/// The line under which an emoji is shown: `<symbol> <description>`.
pub open spec fn emoji_line(emoji: Emoji) -> Seq<char> {
    emoji.symbol@ + " "@ + emoji.description@
}

pub open spec fn shows_emojis(lines: Seq<String>, emojis: Seq<Emoji>) -> bool {
    &&& lines.len() == emojis.len()
    &&& forall|i: int| 0 <= i < lines.len() ==> #[trigger] lines[i]@ == emoji_line(emojis[i])
}

/// The lines that show the emojis to compare with the owner's client.
pub fn emoji_lines(emojis: &Vec<Emoji>) -> (lines: Vec<String>)
    ensures
        shows_emojis(lines@, emojis@),
        lines.len() == emojis.len(),
        forall|i: int| 0 <= i < lines.len() ==> #[trigger] lines@[i]@ == emojis@[i].symbol@ + " "@
            + emojis@[i].description@,
{
    let mut lines: Vec<String> = Vec::new();
    let mut i: usize = 0;
    while i < emojis.len()
        invariant
            i <= emojis.len(),
            lines.len() == i,
            forall|j: int| 0 <= j < i ==> #[trigger] lines@[j]@ == emoji_line(emojis@[j]),
        decreases emojis.len() - i,
    {
        let emoji = &emojis[i];
        let line = emoji.symbol.clone().concat(" ").concat(emoji.description.as_str());
        lines.push(line);
        i = i + 1;
    }
    lines
}

/// A state change of a SAS verification.
#[derive(Debug)]
pub enum SasUpdate {
    Created,
    Started,
    Accepted,
    /// Keys were exchanged; the emojis, where the flow offers them.
    KeysExchanged(Option<Vec<Emoji>>),
    Confirmed,
    Done,
    /// The SAS flow was cancelled, with the reason.
    Cancelled(String),
    /// The stream of changes ended.
    Ended,
}

/// Where a SAS verification stands.
#[derive(Debug, Clone, Copy, PartialEq, Eq)]
pub enum SasState {
    /// Waiting for the SAS flow to be accepted.
    Accepting,
    /// Waiting for the next state change.
    Watching,
    /// Waiting for the confirmation to be sent.
    Confirming,
    Finished,
}

/// A reply to the last SAS action.
#[derive(Debug)]
pub enum SasEvent {
    /// Whether accepting succeeded.
    AcceptResult(bool),
    Update(SasUpdate),
    /// Whether confirming succeeded.
    ConfirmResult(bool),
}

/// What the caller has to do next in the SAS flow.
#[derive(Debug)]
pub enum SasAction {
    AcceptSas,
    WaitForUpdate,
    /// Show these lines, then confirm that the emojis match.
    ShowEmojisAndConfirm(Vec<String>),
    Finish(Result<(), VerificationError>),
}

pub open spec fn sas_expects(state: SasState, event: SasEvent) -> bool {
    match state {
        SasState::Accepting => event is AcceptResult,
        SasState::Watching => event is Update,
        SasState::Confirming => event is ConfirmResult,
        SasState::Finished => false,
    }
}

/// The transition relation of a SAS verification.
pub open spec fn sas_transition(event: SasEvent, next: SasState, action: SasAction) -> bool {
    match event {
        SasEvent::AcceptResult(ok) => if ok {
            next == SasState::Watching && action == SasAction::WaitForUpdate
        } else {
            next == SasState::Finished && action == SasAction::Finish(Err(VerificationError::SasAcceptFailed))
        },
        SasEvent::Update(update) => match update {
            SasUpdate::KeysExchanged(Some(emojis)) => {
                &&& next == SasState::Confirming
                &&& action matches SasAction::ShowEmojisAndConfirm(lines)
                &&& shows_emojis(lines@, emojis@)
            },
            SasUpdate::Done => next == SasState::Finished && action == SasAction::Finish(Ok(())),
            SasUpdate::Cancelled(reason) => next == SasState::Finished
                && action == SasAction::Finish(Err(VerificationError::SasCancelled(reason))),
            SasUpdate::Ended => next == SasState::Finished
                && action == SasAction::Finish(Err(VerificationError::SasEnded)),
            _ => next == SasState::Watching && action == SasAction::WaitForUpdate,
        },
        SasEvent::ConfirmResult(ok) => if ok {
            next == SasState::Watching && action == SasAction::WaitForUpdate
        } else {
            next == SasState::Finished && action == SasAction::Finish(Err(VerificationError::ConfirmFailed))
        },
    }
}

impl SasState {
    /// A SAS flow is accepted first unless the bot started it itself.
    pub fn start(we_started: bool) -> (res: (SasState, SasAction))
        ensures
            !we_started ==> res.0 == SasState::Accepting && res.1 == SasAction::AcceptSas,
            we_started ==> res.0 == SasState::Watching && res.1 == SasAction::WaitForUpdate,
    {
        if we_started {
            (SasState::Watching, SasAction::WaitForUpdate)
        } else {
            (SasState::Accepting, SasAction::AcceptSas)
        }
    }

    pub fn is_finished(&self) -> (b: bool)
        ensures
            b == (*self is Finished),
    {
        matches!(self, SasState::Finished)
    }

    pub fn expects(&self, event: &SasEvent) -> (b: bool)
        ensures
            b == sas_expects(*self, *event),
            *self == SasState::Accepting && *event is AcceptResult ==> b,
            *self == SasState::Watching && *event is Update ==> b,
            *self == SasState::Confirming && *event is ConfirmResult ==> b,
            *self is Finished ==> !b,
    {
        match self {
            SasState::Accepting => matches!(event, SasEvent::AcceptResult(_)),
            SasState::Watching => matches!(event, SasEvent::Update(_)),
            SasState::Confirming => matches!(event, SasEvent::ConfirmResult(_)),
            SasState::Finished => false,
        }
    }

    /// Takes the reply to the last action and decides what comes next.
    pub fn step(self, event: SasEvent) -> (res: (SasState, SasAction))
        requires
            sas_expects(self, event),
        ensures
            sas_transition(event, res.0, res.1),
    {
        match event {
            SasEvent::AcceptResult(ok) => if ok {
                (SasState::Watching, SasAction::WaitForUpdate)
            } else {
                (SasState::Finished, SasAction::Finish(Err(VerificationError::SasAcceptFailed)))
            },
            SasEvent::Update(update) => match update {
                SasUpdate::KeysExchanged(Some(emojis)) => {
                    let lines = emoji_lines(&emojis);
                    (SasState::Confirming, SasAction::ShowEmojisAndConfirm(lines))
                },
                SasUpdate::KeysExchanged(None) => (SasState::Watching, SasAction::WaitForUpdate),
                SasUpdate::Created => (SasState::Watching, SasAction::WaitForUpdate),
                SasUpdate::Started => (SasState::Watching, SasAction::WaitForUpdate),
                SasUpdate::Accepted => (SasState::Watching, SasAction::WaitForUpdate),
                SasUpdate::Confirmed => (SasState::Watching, SasAction::WaitForUpdate),
                SasUpdate::Done => (SasState::Finished, SasAction::Finish(Ok(()))),
                SasUpdate::Cancelled(reason) => (
                    SasState::Finished,
                    SasAction::Finish(Err(VerificationError::SasCancelled(reason))),
                ),
                SasUpdate::Ended => (SasState::Finished, SasAction::Finish(Err(VerificationError::SasEnded))),
            },
            SasEvent::ConfirmResult(ok) => if ok {
                (SasState::Watching, SasAction::WaitForUpdate)
            } else {
                (SasState::Finished, SasAction::Finish(Err(VerificationError::ConfirmFailed)))
            },
        }
    }
}

/// The bot never starts a SAS flow on a request that another user sent: only an
/// initiator whose request became ready does.
pub proof fn lemma_only_initiator_starts_sas(state: FlowState, event: FlowEvent)
    requires
        flow_expects(state, event),
        flow_transition(state, event).1 is StartSas,
    ensures
        state == FlowState::Watching(Role::Initiator),
        event matches FlowEvent::Update(RequestUpdate::Ready),
{
}

/// Apart from a request becoming ready, both sides react to every state change of
/// the request in the same way.
pub proof fn lemma_roles_agree(update: RequestUpdate)
    requires
        !(update is Ready),
    ensures
        on_update(Role::Initiator, update).1 == on_update(Role::Responder, update).1,
        on_update(Role::Initiator, update).0 is Watching <==> on_update(Role::Responder, update).0 is Watching,
{
}

/// A request ends exactly on a terminal change: success only when it is done, the
/// owner's reason when it is cancelled, an error when its stream ends before it
/// completed or when it turned into a method other than SAS.
pub proof fn lemma_request_terminal_updates(role: Role, update: RequestUpdate)
    ensures
        on_update(role, update).0 is Finished <==> (update is Done || update is Ended || update is Cancelled
            || update is TransitionedToOther),
        on_update(role, update).1 == FlowAction::Finish(Ok(())) <==> update is Done,
        update is Ended ==> on_update(role, update).1 == FlowAction::Finish(Err(VerificationError::RequestEnded)),
        update matches RequestUpdate::Cancelled(reason) ==> on_update(role, update).1
            == FlowAction::Finish(Err(VerificationError::Cancelled(reason))),
{
}

/// A verification is reported successful only once it completed: the request flow
/// succeeds only on a `Done` request or a successful SAS flow, and a SAS flow
/// succeeds only on `Done`. A stream that ends early is an error.
pub proof fn lemma_success_only_when_done(
    state: FlowState,
    event: FlowEvent,
    sas_event: SasEvent,
    sas_next: SasState,
)
    ensures
        flow_expects(state, event) && flow_transition(state, event).1 == FlowAction::Finish(Ok(()))
            ==> (event == FlowEvent::Update(RequestUpdate::Done) || event == FlowEvent::SasFinished(Ok(()))),
        sas_transition(sas_event, sas_next, SasAction::Finish(Ok(())))
            ==> sas_event == SasEvent::Update(SasUpdate::Done),
        !sas_transition(SasEvent::Update(SasUpdate::Ended), sas_next, SasAction::Finish(Ok(()))),
{
}

/// The bot confirms a SAS flow only right after the keys were exchanged and the
/// emojis to compare were shown.
pub proof fn lemma_confirm_only_after_emojis(event: SasEvent, next: SasState, action: SasAction)
    requires
        sas_transition(event, next, action),
        action is ShowEmojisAndConfirm,
    ensures
        event matches SasEvent::Update(SasUpdate::KeysExchanged(Some(emojis)))
            && shows_emojis(action->ShowEmojisAndConfirm_0@, emojis@),
        next == SasState::Confirming,
{
}

/// The bot accepts a request only as its responder: no reply in any flow leads to
/// accepting, only the start of an incoming flow does.
pub proof fn lemma_accept_only_as_responder(state: FlowState, event: FlowEvent)
    ensures
        !(flow_transition(state, event).1 is AcceptRequest),
        FlowState::start_incoming_spec().1 is AcceptRequest,
{
}

/// A request flow and a SAS flow end exactly when they announce their outcome, and
/// a finished flow takes no further event.
pub proof fn lemma_finish_is_final(state: FlowState, event: FlowEvent, sas_event: SasEvent, next: SasState, action: SasAction)
    ensures
        flow_expects(state, event) ==> (flow_transition(state, event).0 is Finished
            <==> flow_transition(state, event).1 is Finish),
        !flow_expects(FlowState::Finished, event),
        sas_transition(sas_event, next, action) ==> (next is Finished <==> action is Finish),
        !sas_expects(SasState::Finished, sas_event),
{
}

/// Whether the request flow is past watching the request: it has started a SAS
/// flow or runs one, or it is over.
pub open spec fn past_watching(state: FlowState) -> bool {
    state is StartingSas || state is RunningSas || state is Finished
}

/// Feeds `events` into the request flow from `state`; `None` where some event does
/// not answer the action before it. Gives the final state and the actions taken.
pub open spec fn flow_run(state: FlowState, events: Seq<FlowEvent>) -> Option<(FlowState, Seq<FlowAction>)>
    decreases events.len(),
{
    if events.len() == 0 {
        Some((state, Seq::empty()))
    } else if !flow_expects(state, events[0]) {
        None
    } else {
        let (next, action) = flow_transition(state, events[0]);
        match flow_run(next, events.drop_first()) {
            None => None,
            Some((last, actions)) => Some((last, seq![action] + actions)),
        }
    }
}

/// Once the request flow has left watching the request, it never watches it again
/// and never starts another SAS flow: a SAS flow is started at most once.
pub proof fn lemma_sas_started_at_most_once(state: FlowState, events: Seq<FlowEvent>)
    requires
        past_watching(state),
        flow_run(state, events) is Some,
    ensures
        past_watching(flow_run(state, events).unwrap().0),
        forall|i: int| 0 <= i < flow_run(state, events).unwrap().1.len()
            ==> !(#[trigger] flow_run(state, events).unwrap().1[i] is StartSas),
    decreases events.len(),
{
    if events.len() > 0 {
        let (next, action) = flow_transition(state, events[0]);
        lemma_sas_started_at_most_once(next, events.drop_first());
        let rest = flow_run(next, events.drop_first()).unwrap().1;
        assert forall|i: int| 0 <= i < flow_run(state, events).unwrap().1.len()
            implies !(#[trigger] flow_run(state, events).unwrap().1[i] is StartSas) by {
            if i > 0 {
                assert(flow_run(state, events).unwrap().1[i] == rest[i - 1]);
            }
        }
    }
}

/// Starting a SAS flow moves the request flow past watching.
pub proof fn lemma_start_sas_leaves_watching(state: FlowState, event: FlowEvent)
    requires
        flow_expects(state, event),
        flow_transition(state, event).1 is StartSas,
    ensures
        past_watching(flow_transition(state, event).0),
{
}

/// Showing the emojis leaves none out and adds none: one line per emoji offered,
/// in order, each the emoji's symbol, a space and its description.
pub proof fn lemma_every_emoji_shown(lines: Seq<String>, emojis: Seq<Emoji>)
    requires
        shows_emojis(lines, emojis),
    ensures
        lines.len() == emojis.len(),
        forall|i: int| 0 <= i < lines.len() ==> #[trigger] lines[i]@ == emojis[i].symbol@ + " "@
            + emojis[i].description@,
{
}

/// When keys are exchanged with emojis, the bot shows every one of them, then
/// confirms; when no emojis are offered it keeps waiting and confirms nothing.
pub proof fn lemma_keys_exchanged(emojis: Vec<Emoji>, next: SasState, action: SasAction)
    ensures
        sas_transition(SasEvent::Update(SasUpdate::KeysExchanged(Some(emojis))), next, action) ==> {
            &&& next == SasState::Confirming
            &&& action matches SasAction::ShowEmojisAndConfirm(lines)
            &&& lines@.len() == emojis@.len()
            &&& forall|i: int| 0 <= i < lines@.len() ==> #[trigger] lines@[i]@ == emojis@[i].symbol@ + " "@
                + emojis@[i].description@
        },
        sas_transition(SasEvent::Update(SasUpdate::KeysExchanged(None)), next, action) ==> next
            == SasState::Watching && action == SasAction::WaitForUpdate,
{
}

/// Every reply to the action a state asked for is taken, whatever it reports: any
/// state change of a watched request for either role (a cancellation included),
/// any identity lookup, both outcomes of sending or accepting, any way of starting
/// SAS and any SAS outcome; in the SAS flow both accept and confirm outcomes and
/// every state change.
pub proof fn lemma_flows_take_every_reply(
    role: Role,
    update: RequestUpdate,
    lookup: IdentityLookup,
    ok: bool,
    start: SasStart,
    outcome: Result<(), VerificationError>,
    sas_update: SasUpdate,
)
    ensures
        flow_expects(FlowState::Watching(role), FlowEvent::Update(update)),
        flow_expects(FlowState::LookingUpOwner, FlowEvent::OwnerIdentity(lookup)),
        flow_expects(FlowState::SendingRequest, FlowEvent::RequestSent(ok)),
        flow_expects(FlowState::Accepting, FlowEvent::Accepted(ok)),
        flow_expects(FlowState::StartingSas, FlowEvent::SasStarted(start)),
        flow_expects(FlowState::RunningSas, FlowEvent::SasFinished(outcome)),
        sas_expects(SasState::Accepting, SasEvent::AcceptResult(ok)),
        sas_expects(SasState::Watching, SasEvent::Update(sas_update)),
        sas_expects(SasState::Confirming, SasEvent::ConfirmResult(ok)),
{
}

/// What a watched request does on each change: the initiator starts SAS once the
/// request is ready while the responder waits; a request that became SAS runs it;
/// it ends with success when done, with the given reason when cancelled, and with
/// an error when it became another method or its stream ended early; other changes
/// keep it watching.
pub proof fn lemma_request_updates(role: Role, reason: String)
    ensures
        flow_transition(FlowState::Watching(Role::Initiator), FlowEvent::Update(RequestUpdate::Ready))
            == (FlowState::StartingSas, FlowAction::StartSas),
        flow_transition(FlowState::Watching(Role::Responder), FlowEvent::Update(RequestUpdate::Ready))
            == (FlowState::Watching(Role::Responder), FlowAction::WaitForUpdate),
        flow_transition(FlowState::Watching(role), FlowEvent::Update(RequestUpdate::TransitionedToSas))
            == (FlowState::RunningSas, FlowAction::RunSas),
        flow_transition(FlowState::Watching(role), FlowEvent::Update(RequestUpdate::Done)) == (
            FlowState::Finished,
            FlowAction::Finish(Ok(())),
        ),
        flow_transition(FlowState::Watching(role), FlowEvent::Update(RequestUpdate::Cancelled(reason))) == (
            FlowState::Finished,
            FlowAction::Finish(Err(VerificationError::Cancelled(reason))),
        ),
        flow_transition(FlowState::Watching(role), FlowEvent::Update(RequestUpdate::TransitionedToOther)) == (
            FlowState::Finished,
            FlowAction::Finish(Err(VerificationError::UnsupportedMethod)),
        ),
        flow_transition(FlowState::Watching(role), FlowEvent::Update(RequestUpdate::Ended)) == (
            FlowState::Finished,
            FlowAction::Finish(Err(VerificationError::RequestEnded)),
        ),
        flow_transition(FlowState::Watching(role), FlowEvent::Update(RequestUpdate::Created)) == (
            FlowState::Watching(role),
            FlowAction::WaitForUpdate,
        ),
        flow_transition(FlowState::Watching(role), FlowEvent::Update(RequestUpdate::Requested)) == (
            FlowState::Watching(role),
            FlowAction::WaitForUpdate,
        ),
{
}

/// The other replies of a request flow: a found identity is followed by sending
/// the request, a failed or missing one ends with its error; a sent or accepted
/// request is watched, a failure ends with its error; a started SAS flow is run,
/// a failed or unsupported start ends with its error; the SAS outcome is the
/// request's outcome.
pub proof fn lemma_request_replies(outcome: Result<(), VerificationError>)
    ensures
        flow_transition(FlowState::LookingUpOwner, FlowEvent::OwnerIdentity(IdentityLookup::Found))
            == (FlowState::SendingRequest, FlowAction::SendRequest),
        flow_transition(FlowState::LookingUpOwner, FlowEvent::OwnerIdentity(IdentityLookup::Failed)) == (
            FlowState::Finished,
            FlowAction::Finish(Err(VerificationError::IdentityLookupFailed)),
        ),
        flow_transition(FlowState::LookingUpOwner, FlowEvent::OwnerIdentity(IdentityLookup::Missing)) == (
            FlowState::Finished,
            FlowAction::Finish(Err(VerificationError::OwnerIdentityMissing)),
        ),
        flow_transition(FlowState::SendingRequest, FlowEvent::RequestSent(true)) == (
            FlowState::Watching(Role::Initiator),
            FlowAction::WaitForUpdate,
        ),
        flow_transition(FlowState::SendingRequest, FlowEvent::RequestSent(false)) == (
            FlowState::Finished,
            FlowAction::Finish(Err(VerificationError::RequestFailed)),
        ),
        flow_transition(FlowState::Accepting, FlowEvent::Accepted(true)) == (
            FlowState::Watching(Role::Responder),
            FlowAction::WaitForUpdate,
        ),
        flow_transition(FlowState::Accepting, FlowEvent::Accepted(false)) == (
            FlowState::Finished,
            FlowAction::Finish(Err(VerificationError::AcceptFailed)),
        ),
        flow_transition(FlowState::StartingSas, FlowEvent::SasStarted(SasStart::Started)) == (
            FlowState::RunningSas,
            FlowAction::RunSas,
        ),
        flow_transition(FlowState::StartingSas, FlowEvent::SasStarted(SasStart::Failed)) == (
            FlowState::Finished,
            FlowAction::Finish(Err(VerificationError::StartSasFailed)),
        ),
        flow_transition(FlowState::StartingSas, FlowEvent::SasStarted(SasStart::NotSupported)) == (
            FlowState::Finished,
            FlowAction::Finish(Err(VerificationError::SasNotSupported)),
        ),
        flow_transition(FlowState::RunningSas, FlowEvent::SasFinished(outcome)) == (
            FlowState::Finished,
            FlowAction::Finish(outcome),
        ),
{
}

/// What the SAS flow does on each reply: failed accepting or confirming ends with
/// its error, success goes on watching; `Done` ends with success, a cancellation
/// with its reason, a stream that ends early with an error; the other changes keep
/// it watching.
pub proof fn lemma_sas_replies(reason: String, ok: bool, next: SasState, action: SasAction)
    ensures
        sas_transition(SasEvent::AcceptResult(ok), next, action) ==> if ok {
            next == SasState::Watching && action == SasAction::WaitForUpdate
        } else {
            action == SasAction::Finish(Err(VerificationError::SasAcceptFailed))
        },
        sas_transition(SasEvent::ConfirmResult(ok), next, action) ==> if ok {
            next == SasState::Watching && action == SasAction::WaitForUpdate
        } else {
            action == SasAction::Finish(Err(VerificationError::ConfirmFailed))
        },
        sas_transition(SasEvent::Update(SasUpdate::Done), next, action) ==> action == SasAction::Finish(Ok(()))
            && next == SasState::Finished,
        sas_transition(SasEvent::Update(SasUpdate::Cancelled(reason)), next, action) ==> action
            == SasAction::Finish(Err(VerificationError::SasCancelled(reason))),
        sas_transition(SasEvent::Update(SasUpdate::Ended), next, action) ==> action == SasAction::Finish(
            Err(VerificationError::SasEnded),
        ),
        sas_transition(SasEvent::Update(SasUpdate::Created), next, action) ==> action == SasAction::WaitForUpdate,
        sas_transition(SasEvent::Update(SasUpdate::Started), next, action) ==> action == SasAction::WaitForUpdate,
        sas_transition(SasEvent::Update(SasUpdate::Accepted), next, action) ==> action == SasAction::WaitForUpdate,
        sas_transition(SasEvent::Update(SasUpdate::Confirmed), next, action) ==> action == SasAction::WaitForUpdate,
{
}

/// The reported texts: a fixed sentence for each failure, and the other side's
/// reason after a cancellation prefix.
pub proof fn lemma_verification_messages(reason: String)
    ensures
        verification_error_message(VerificationError::IdentityLookupFailed) == "Failed to request owner identity"@,
        verification_error_message(VerificationError::OwnerIdentityMissing)
            == "Owner identity not found - owner may not have cross-signing set up"@,
        verification_error_message(VerificationError::RequestFailed) == "Failed to request verification"@,
        verification_error_message(VerificationError::AcceptFailed) == "Failed to accept verification request"@,
        verification_error_message(VerificationError::StartSasFailed) == "Failed to start SAS verification"@,
        verification_error_message(VerificationError::SasNotSupported)
            == "SAS verification not supported by the other side"@,
        verification_error_message(VerificationError::UnsupportedMethod) == "Unsupported verification method"@,
        verification_error_message(VerificationError::Cancelled(reason)) == "Verification cancelled: "@ + reason@,
        verification_error_message(VerificationError::SasAcceptFailed) == "Failed to accept SAS verification"@,
        verification_error_message(VerificationError::ConfirmFailed) == "Failed to confirm SAS verification"@,
        verification_error_message(VerificationError::SasCancelled(reason))
            == "SAS verification cancelled: "@ + reason@,
        verification_error_message(VerificationError::RequestEnded) == "Verification ended before it completed"@,
        verification_error_message(VerificationError::SasEnded) == "SAS verification ended before it completed"@,
{
}

} // verus!
