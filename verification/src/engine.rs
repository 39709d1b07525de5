//! Executable device-flow engine.
//!
//! `AuthFlow` is the state machine of [`crate::model`] over real strings.
//! The host loop asks [`AuthFlow::current_action`] what to do, performs the
//! action, and hands the result to [`AuthFlow::step`]; every transition is
//! proved equal to the model's.

use vstd::prelude::*;

use crate::json::json_get_str;
use crate::json::json_get_u64;
use crate::json::json_parses;
use crate::model::ActionView;
use crate::model::AuthErrorView;
use crate::model::EventView;
use crate::model::FlowStateView;
use crate::model::FlowView;
use crate::model::GrantView;
use crate::model::OutcomeView;
use crate::model::PollVerdictView;
use crate::model::action_of;
use crate::model::classify_poll;
use crate::model::delay_of;
use crate::model::flow_init;
use crate::model::next;
use crate::model::outcome_exit_code;
use crate::model::parse_grant;
use crate::requests::code_request_body;
use crate::requests::token_poll_request_body;
use crate::session::Session;

verus! {

pub open spec fn opt_string_view(o: Option<String>) -> Option<Seq<char>> {
    match o {
        Some(s) => Some(s@),
        None => None,
    }
}

/// The grant returned by the code-request endpoint.
pub struct DeviceCodeGrant {
    pub device_code: String,
    pub user_code: String,
    pub verification_uri_complete: String,
    pub interval: u64,
}

impl View for DeviceCodeGrant {
    type V = GrantView;

    open spec fn view(&self) -> GrantView {
        GrantView {
            device_code: self.device_code@,
            user_code: self.user_code@,
            verification_uri_complete: self.verification_uri_complete@,
            interval: self.interval,
        }
    }
}

/// The fatal conditions of the flow.
#[derive(Debug, PartialEq, Eq)]
pub enum AuthError {
    TransportFailure,
    AuthorizationDenied { error: String },
    CredentialIoFailure,
    MissingNonInteractiveInput,
}

impl View for AuthError {
    type V = AuthErrorView;

    open spec fn view(&self) -> AuthErrorView {
        match *self {
            AuthError::TransportFailure => AuthErrorView::TransportFailure,
            AuthError::AuthorizationDenied { error } => AuthErrorView::AuthorizationDenied {
                error: error@,
            },
            AuthError::CredentialIoFailure => AuthErrorView::CredentialIoFailure,
            AuthError::MissingNonInteractiveInput => AuthErrorView::MissingNonInteractiveInput,
        }
    }
}

/// How a login attempt ends.
#[derive(Debug, PartialEq, Eq)]
pub enum Outcome {
    LoggedIn { token: String },
    Aborted,
    Failed { error: AuthError },
}

impl View for Outcome {
    type V = OutcomeView;

    open spec fn view(&self) -> OutcomeView {
        match *self {
            Outcome::LoggedIn { token } => OutcomeView::LoggedIn { token: token@ },
            Outcome::Aborted => OutcomeView::Aborted,
            Outcome::Failed { error } => OutcomeView::Failed { error: error@ },
        }
    }
}

impl Outcome {
    /// Exit code owed to the shell for this outcome.
    pub fn exit_code(&self) -> (r: i32)
        ensures
            r as int == outcome_exit_code(self@),
    {
        match self {
            Outcome::Failed { .. } => 1,
            _ => 0,
        }
    }
}

/// What the host reports back, one event per action.
pub enum FlowEvent {
    StoredToken { token: Option<String> },
    EnvToken { token: Option<String> },
    ReauthAnswer { reauth: bool },
    ProceedAnswer { proceed: bool },
    CodeResponse { body: Option<String> },
    PollResponse { body: Option<String> },
    SleepDone,
    SaveResult { ok: bool },
}

impl View for FlowEvent {
    type V = EventView;

    open spec fn view(&self) -> EventView {
        match *self {
            FlowEvent::StoredToken { token } => EventView::StoredToken {
                token: opt_string_view(token),
            },
            FlowEvent::EnvToken { token } => EventView::EnvToken {
                token: opt_string_view(token),
            },
            FlowEvent::ReauthAnswer { reauth } => EventView::ReauthAnswer { reauth },
            FlowEvent::ProceedAnswer { proceed } => EventView::ProceedAnswer { proceed },
            FlowEvent::CodeResponse { body } => EventView::CodeResponse {
                body: opt_string_view(body),
            },
            FlowEvent::PollResponse { body } => EventView::PollResponse {
                body: opt_string_view(body),
            },
            FlowEvent::SleepDone => EventView::SleepDone,
            FlowEvent::SaveResult { ok } => EventView::SaveResult { ok },
        }
    }
}

/// What the host must do next.
#[derive(Debug, PartialEq, Eq)]
pub enum FlowAction {
    LoadStore,
    ReadEnvToken,
    AskReauth,
    PostCodeRequest { body: String },
    AskProceed { user_code: String, verification_uri: String },
    PostPoll { body: String },
    SleepSeconds { seconds: u64 },
    SaveToken { token: String },
    Finish { outcome: Outcome },
}

impl View for FlowAction {
    type V = ActionView;

    open spec fn view(&self) -> ActionView {
        match *self {
            FlowAction::LoadStore => ActionView::LoadStore,
            FlowAction::ReadEnvToken => ActionView::ReadEnvToken,
            FlowAction::AskReauth => ActionView::AskReauth,
            FlowAction::PostCodeRequest { body } => ActionView::PostCodeRequest { body: body@ },
            FlowAction::AskProceed { user_code, verification_uri } => ActionView::AskProceed {
                user_code: user_code@,
                verification_uri: verification_uri@,
            },
            FlowAction::PostPoll { body } => ActionView::PostPoll { body: body@ },
            FlowAction::SleepSeconds { seconds } => ActionView::SleepSeconds { seconds },
            FlowAction::SaveToken { token } => ActionView::SaveToken { token: token@ },
            FlowAction::Finish { outcome } => ActionView::Finish { outcome: outcome@ },
        }
    }
}

enum FlowState {
    CheckingStore,
    CheckingEnv,
    AwaitingReauth { stored: String },
    RequestingCode,
    AwaitingConfirmation { grant: DeviceCodeGrant },
    Polling { grant: DeviceCodeGrant },
    Sleeping { grant: DeviceCodeGrant },
    Saving { token: String },
    Done { outcome: Outcome },
}

impl View for FlowState {
    type V = FlowStateView;

    closed spec fn view(&self) -> FlowStateView {
        match *self {
            FlowState::CheckingStore => FlowStateView::CheckingStore,
            FlowState::CheckingEnv => FlowStateView::CheckingEnv,
            FlowState::AwaitingReauth { stored } => FlowStateView::AwaitingReauth {
                stored: stored@,
            },
            FlowState::RequestingCode => FlowStateView::RequestingCode,
            FlowState::AwaitingConfirmation { grant } => FlowStateView::AwaitingConfirmation {
                grant: grant@,
            },
            FlowState::Polling { grant } => FlowStateView::Polling { grant: grant@ },
            FlowState::Sleeping { grant } => FlowStateView::Sleeping { grant: grant@ },
            FlowState::Saving { token } => FlowStateView::Saving { token: token@ },
            FlowState::Done { outcome } => FlowStateView::Done { outcome: outcome@ },
        }
    }
}

/// How a token-poll response is read.
#[derive(Debug, PartialEq, Eq)]
pub enum PollVerdict {
    Granted { token: String },
    Pending,
    Denied { error: String },
    Malformed,
}

impl View for PollVerdict {
    type V = PollVerdictView;

    open spec fn view(&self) -> PollVerdictView {
        match *self {
            PollVerdict::Granted { token } => PollVerdictView::Granted { token: token@ },
            PollVerdict::Pending => PollVerdictView::Pending,
            PollVerdict::Denied { error } => PollVerdictView::Denied { error: error@ },
            PollVerdict::Malformed => PollVerdictView::Malformed,
        }
    }
}

/// The grant in a code-request response, if all four fields are present.
pub fn parse_device_grant(body: &str) -> (r: Option<DeviceCodeGrant>)
    ensures
        (match r {
            Some(g) => parse_grant(body@) == Some(g@),
            None => parse_grant(body@) is None,
        }),
{
    let dc = json_get_str(body, "device_code");
    let uri = json_get_str(body, "verification_uri_complete");
    let uc = json_get_str(body, "user_code");
    let iv = json_get_u64(body, "interval");
    match (dc, uri, uc, iv) {
        (Some(device_code), Some(verification_uri_complete), Some(user_code), Some(interval)) => Some(
            DeviceCodeGrant { device_code, user_code, verification_uri_complete, interval },
        ),
        _ => None,
    }
}

/// Reads a token-poll response the way the model does.
pub fn classify_poll_response(body: &str) -> (r: PollVerdict)
    ensures
        r@ == classify_poll(body@),
{
    match json_get_str(body, "access_token") {
        Some(token) => PollVerdict::Granted { token },
        None => match json_get_str(body, "error") {
            Some(error) => {
                let pending = "authorization_pending".to_owned();
                if error == pending {
                    PollVerdict::Pending
                } else {
                    PollVerdict::Denied { error }
                }
            },
            None => if json_parses(body) {
                PollVerdict::Pending
            } else {
                PollVerdict::Malformed
            },
        },
    }
}

/// Seconds to wait before the next poll.
pub fn delay_seconds(interval: u64) -> (r: u64)
    ensures
        r == delay_of(interval),
{
    if interval == u64::MAX {
        u64::MAX
    } else {
        interval + 1
    }
}

fn clone_auth_error(e: &AuthError) -> (r: AuthError)
    ensures
        r@ == e@,
{
    match e {
        AuthError::TransportFailure => AuthError::TransportFailure,
        AuthError::AuthorizationDenied { error } => AuthError::AuthorizationDenied {
            error: error.clone(),
        },
        AuthError::CredentialIoFailure => AuthError::CredentialIoFailure,
        AuthError::MissingNonInteractiveInput => AuthError::MissingNonInteractiveInput,
    }
}

fn clone_outcome(o: &Outcome) -> (r: Outcome)
    ensures
        r@ == o@,
{
    match o {
        Outcome::LoggedIn { token } => Outcome::LoggedIn { token: token.clone() },
        Outcome::Aborted => Outcome::Aborted,
        Outcome::Failed { error } => Outcome::Failed { error: clone_auth_error(error) },
    }
}

/// The login flow of one process invocation.
pub struct AuthFlow {
    prompt_reauth: bool,
    noninteractive: bool,
    state: FlowState,
}

impl View for AuthFlow {
    type V = FlowView;

    closed spec fn view(&self) -> FlowView {
        FlowView {
            prompt_reauth: self.prompt_reauth,
            noninteractive: self.noninteractive,
            state: self.state@,
        }
    }
}

impl AuthFlow {
    /// Enters the flow: a token already cached in the session resolves at
    /// once, otherwise the credential store is consulted first.
    pub fn begin(session: &Session, prompt_reauth: bool, noninteractive: bool) -> (r: AuthFlow)
        ensures
            r@ == flow_init(prompt_reauth, noninteractive, session@),
    {
        if session.is_set() {
            let token = session.get_token();
            AuthFlow {
                prompt_reauth,
                noninteractive,
                state: FlowState::Done { outcome: Outcome::LoggedIn { token } },
            }
        } else {
            AuthFlow { prompt_reauth, noninteractive, state: FlowState::CheckingStore }
        }
    }

    /// Whether the flow has reached its terminal state.
    pub fn is_done(&self) -> (r: bool)
        ensures
            r == (self@.state is Done),
    {
        match self.state {
            FlowState::Done { .. } => true,
            _ => false,
        }
    }

    /// The action the host owes in the current state.
    pub fn current_action(&self) -> (r: FlowAction)
        ensures
            r@ == action_of(self@),
    {
        match &self.state {
            FlowState::CheckingStore => FlowAction::LoadStore,
            FlowState::CheckingEnv => FlowAction::ReadEnvToken,
            FlowState::AwaitingReauth { .. } => FlowAction::AskReauth,
            FlowState::RequestingCode => FlowAction::PostCodeRequest {
                body: code_request_body(),
            },
            FlowState::AwaitingConfirmation { grant } => FlowAction::AskProceed {
                user_code: grant.user_code.clone(),
                verification_uri: grant.verification_uri_complete.clone(),
            },
            FlowState::Polling { grant } => FlowAction::PostPoll {
                body: token_poll_request_body(grant.device_code.as_str()),
            },
            FlowState::Sleeping { grant } => FlowAction::SleepSeconds {
                seconds: delay_seconds(grant.interval),
            },
            FlowState::Saving { token } => FlowAction::SaveToken { token: token.clone() },
            FlowState::Done { outcome } => FlowAction::Finish { outcome: clone_outcome(outcome) },
        }
    }

    /// One transition of the machine.
    pub fn step(self, event: FlowEvent) -> (r: AuthFlow)
        ensures
            r@ == next(self@, event@),
    {
        let AuthFlow { prompt_reauth, noninteractive, state } = self;
        let state = match (state, event) {
            (FlowState::CheckingStore, FlowEvent::StoredToken { token }) => match token {
                Some(t) => if prompt_reauth && !noninteractive {
                    FlowState::AwaitingReauth { stored: t }
                } else {
                    FlowState::Done { outcome: Outcome::LoggedIn { token: t } }
                },
                None => FlowState::CheckingEnv,
            },
            (FlowState::CheckingEnv, FlowEvent::EnvToken { token }) => match token {
                Some(t) => FlowState::Done { outcome: Outcome::LoggedIn { token: t } },
                None => if noninteractive {
                    FlowState::Done {
                        outcome: Outcome::Failed {
                            error: AuthError::MissingNonInteractiveInput,
                        },
                    }
                } else {
                    FlowState::RequestingCode
                },
            },
            (FlowState::AwaitingReauth { stored }, FlowEvent::ReauthAnswer { reauth }) => if reauth {
                FlowState::RequestingCode
            } else {
                FlowState::Done { outcome: Outcome::LoggedIn { token: stored } }
            },
            (FlowState::RequestingCode, FlowEvent::CodeResponse { body }) => match body {
                Some(b) => match parse_device_grant(b.as_str()) {
                    Some(grant) => FlowState::AwaitingConfirmation { grant },
                    None => FlowState::Done {
                        outcome: Outcome::Failed { error: AuthError::TransportFailure },
                    },
                },
                None => FlowState::Done {
                    outcome: Outcome::Failed { error: AuthError::TransportFailure },
                },
            },
            (
                FlowState::AwaitingConfirmation { grant },
                FlowEvent::ProceedAnswer { proceed },
            ) => if proceed {
                FlowState::Polling { grant }
            } else {
                FlowState::Done { outcome: Outcome::Aborted }
            },
            (FlowState::Polling { grant }, FlowEvent::PollResponse { body }) => match body {
                Some(b) => match classify_poll_response(b.as_str()) {
                    PollVerdict::Granted { token } => FlowState::Saving { token },
                    PollVerdict::Pending => FlowState::Sleeping { grant },
                    PollVerdict::Denied { error } => FlowState::Done {
                        outcome: Outcome::Failed {
                            error: AuthError::AuthorizationDenied { error },
                        },
                    },
                    PollVerdict::Malformed => FlowState::Done {
                        outcome: Outcome::Failed { error: AuthError::TransportFailure },
                    },
                },
                None => FlowState::Done {
                    outcome: Outcome::Failed { error: AuthError::TransportFailure },
                },
            },
            (FlowState::Sleeping { grant }, FlowEvent::SleepDone) => FlowState::Polling { grant },
            (FlowState::Saving { token }, FlowEvent::SaveResult { ok }) => if ok {
                FlowState::Done { outcome: Outcome::LoggedIn { token } }
            } else {
                FlowState::Done {
                    outcome: Outcome::Failed { error: AuthError::CredentialIoFailure },
                }
            },
            (st, _) => st,
        };
        AuthFlow { prompt_reauth, noninteractive, state }
    }
}

} // verus!
