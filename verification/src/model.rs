//! Mathematical model of the login flow.
//!
//! The flow is a state machine.  In each state the machine asks the host for
//! one action ([`action_of`]); the host performs it (a prompt, an HTTP POST, a
//! sleep, a file access) and feeds the result back as an event; [`next`]
//! gives the state that follows.  [`run`] folds a whole sequence of events,
//! which is what the laws in [`crate::laws`] quantify over.
//!
//! States follow the device-authorization flow: resolve a cached or stored or
//! environment token first; otherwise request a device code, ask the user to
//! confirm the browser step, then poll the token endpoint until it answers
//! with a token, keeps the request pending, or denies it.

use vstd::prelude::*;

use crate::json::json_document_valid;
use crate::json::json_str_field;
use crate::json::json_u64_field;
use crate::requests::code_request_body_spec;
use crate::requests::poll_request_body_spec;

verus! {

/// What the code-request endpoint grants: the opaque device code that is
/// polled with, the short code the user types, the page to open, and the
/// minimum number of seconds between polls.
pub struct GrantView {
    pub device_code: Seq<char>,
    pub user_code: Seq<char>,
    pub verification_uri_complete: Seq<char>,
    pub interval: u64,
}

/// The fatal conditions of the flow.
pub enum AuthErrorView {
    /// The authorization server was unreachable or answered unparseably.
    TransportFailure,
    /// The token endpoint answered with a terminal error.
    AuthorizationDenied { error: Seq<char> },
    /// The credential could not be persisted.
    CredentialIoFailure,
    /// Non-interactive mode with no cached, stored or environment token.
    MissingNonInteractiveInput,
}

/// How a login attempt ends.
pub enum OutcomeView {
    LoggedIn { token: Seq<char> },
    /// The user declined the browser step: a normal choice, not an error.
    Aborted,
    Failed { error: AuthErrorView },
}

/// The states of the flow.
pub enum FlowStateView {
    /// Asking the credential store for an existing token.
    CheckingStore,
    /// Asking the environment for a pre-issued token.
    CheckingEnv,
    /// A stored token exists; asking whether to re-authenticate anyway.
    AwaitingReauth { stored: Seq<char> },
    /// Posting to the code-request endpoint.
    RequestingCode,
    /// Asking the user to start the browser confirmation step.
    AwaitingConfirmation { grant: GrantView },
    /// Posting to the token endpoint.
    Polling { grant: GrantView },
    /// Waiting out the poll interval.
    Sleeping { grant: GrantView },
    /// Persisting a freshly granted token.
    Saving { token: Seq<char> },
    /// Terminal.
    Done { outcome: OutcomeView },
}

/// A machine: the two mode flags fixed at entry, and the current state.
pub struct FlowView {
    pub prompt_reauth: bool,
    pub noninteractive: bool,
    pub state: FlowStateView,
}

/// What the host reports back, one event per action.
pub enum EventView {
    /// Result of `LoadStore`: the stored token, if a readable file exists.
    StoredToken { token: Option<Seq<char>> },
    /// Result of `ReadEnvToken`: the environment token, if the variable is set.
    EnvToken { token: Option<Seq<char>> },
    /// Result of `AskReauth`.
    ReauthAnswer { reauth: bool },
    /// Result of `AskProceed`.
    ProceedAnswer { proceed: bool },
    /// Result of `PostCodeRequest`: the response body, `None` on transport failure.
    CodeResponse { body: Option<Seq<char>> },
    /// Result of `PostPoll`: the response body, `None` on transport failure.
    PollResponse { body: Option<Seq<char>> },
    /// Result of `SleepSeconds`.
    SleepDone,
    /// Result of `SaveToken`.
    SaveResult { ok: bool },
}

/// What the host must do in the current state.
pub enum ActionView {
    /// Read the credential file.
    LoadStore,
    /// Read the token environment variable.
    ReadEnvToken,
    /// Ask whether to re-authenticate although a stored token exists.
    AskReauth,
    /// POST `body` to the code-request endpoint.
    PostCodeRequest { body: Seq<char> },
    /// Show the user code, ask to proceed, and offer to open the page.
    AskProceed { user_code: Seq<char>, verification_uri: Seq<char> },
    /// POST `body` to the token endpoint.
    PostPoll { body: Seq<char> },
    /// Sleep before the next poll.
    SleepSeconds { seconds: u64 },
    /// Write the token to the credential store.
    SaveToken { token: Seq<char> },
    /// Nothing is left to do: report the outcome.
    Finish { outcome: OutcomeView },
}

/// The grant carried in a code-request response, if the response carries one.
pub open spec fn parse_grant(body: Seq<char>) -> Option<GrantView> {
    match (
        json_str_field(body, "device_code"@),
        json_str_field(body, "verification_uri_complete"@),
        json_str_field(body, "user_code"@),
        json_u64_field(body, "interval"@),
    ) {
        (Some(dc), Some(uri), Some(uc), Some(iv)) => Some(
            GrantView {
                device_code: dc,
                user_code: uc,
                verification_uri_complete: uri,
                interval: iv,
            },
        ),
        _ => None,
    }
}

/// How a token-poll response is read.
pub enum PollVerdictView {
    /// The response carries an access token.
    Granted { token: Seq<char> },
    /// The request is still pending (or the response, though well-formed,
    /// carries neither a token nor an error): poll again.
    Pending,
    /// A terminal error.
    Denied { error: Seq<char> },
    /// The response is not a JSON document.
    Malformed,
}

pub open spec fn classify_poll(body: Seq<char>) -> PollVerdictView {
    match json_str_field(body, "access_token"@) {
        Some(t) => PollVerdictView::Granted { token: t },
        None => match json_str_field(body, "error"@) {
            Some(e) => if e == "authorization_pending"@ {
                PollVerdictView::Pending
            } else {
                PollVerdictView::Denied { error: e }
            },
            None => if json_document_valid(body) {
                PollVerdictView::Pending
            } else {
                PollVerdictView::Malformed
            },
        },
    }
}

/// Seconds to wait between polls: one more than the server-advertised
/// interval, to absorb clock skew (capped only at the integer's limit).
pub open spec fn delay_of(interval: u64) -> u64 {
    if interval == u64::MAX {
        u64::MAX
    } else {
        (interval + 1) as u64
    }
}

/// Where the flow starts: a token already cached in the session resolves at
/// once; otherwise the credential store is consulted first.
pub open spec fn flow_init(
    prompt_reauth: bool,
    noninteractive: bool,
    session_token: Option<Seq<char>>,
) -> FlowView {
    FlowView {
        prompt_reauth,
        noninteractive,
        state: match session_token {
            Some(t) => FlowStateView::Done {
                outcome: OutcomeView::LoggedIn { token: t },
            },
            None => FlowStateView::CheckingStore,
        },
    }
}

/// The transition relation.  An event that does not answer the current
/// state's action leaves the machine unchanged; the `Done` state absorbs
/// every event.
pub open spec fn next(m: FlowView, ev: EventView) -> FlowView {
    FlowView { state: next_state(m, ev), ..m }
}

pub open spec fn next_state(m: FlowView, ev: EventView) -> FlowStateView {
    match (m.state, ev) {
        (FlowStateView::CheckingStore, EventView::StoredToken { token }) => match token {
            Some(t) => if m.prompt_reauth && !m.noninteractive {
                FlowStateView::AwaitingReauth { stored: t }
            } else {
                FlowStateView::Done { outcome: OutcomeView::LoggedIn { token: t } }
            },
            None => FlowStateView::CheckingEnv,
        },
        (FlowStateView::CheckingEnv, EventView::EnvToken { token }) => match token {
            Some(t) => FlowStateView::Done { outcome: OutcomeView::LoggedIn { token: t } },
            None => if m.noninteractive {
                FlowStateView::Done {
                    outcome: OutcomeView::Failed {
                        error: AuthErrorView::MissingNonInteractiveInput,
                    },
                }
            } else {
                FlowStateView::RequestingCode
            },
        },
        (FlowStateView::AwaitingReauth { stored }, EventView::ReauthAnswer { reauth }) => if reauth {
            FlowStateView::RequestingCode
        } else {
            FlowStateView::Done { outcome: OutcomeView::LoggedIn { token: stored } }
        },
        (FlowStateView::RequestingCode, EventView::CodeResponse { body }) => match body {
            Some(b) => match parse_grant(b) {
                Some(grant) => FlowStateView::AwaitingConfirmation { grant },
                None => FlowStateView::Done {
                    outcome: OutcomeView::Failed { error: AuthErrorView::TransportFailure },
                },
            },
            None => FlowStateView::Done {
                outcome: OutcomeView::Failed { error: AuthErrorView::TransportFailure },
            },
        },
        (FlowStateView::AwaitingConfirmation { grant }, EventView::ProceedAnswer { proceed }) => if proceed {
            FlowStateView::Polling { grant }
        } else {
            FlowStateView::Done { outcome: OutcomeView::Aborted }
        },
        (FlowStateView::Polling { grant }, EventView::PollResponse { body }) => match body {
            Some(b) => match classify_poll(b) {
                PollVerdictView::Granted { token } => FlowStateView::Saving { token },
                PollVerdictView::Pending => FlowStateView::Sleeping { grant },
                PollVerdictView::Denied { error } => FlowStateView::Done {
                    outcome: OutcomeView::Failed {
                        error: AuthErrorView::AuthorizationDenied { error },
                    },
                },
                PollVerdictView::Malformed => FlowStateView::Done {
                    outcome: OutcomeView::Failed { error: AuthErrorView::TransportFailure },
                },
            },
            None => FlowStateView::Done {
                outcome: OutcomeView::Failed { error: AuthErrorView::TransportFailure },
            },
        },
        (FlowStateView::Sleeping { grant }, EventView::SleepDone) => FlowStateView::Polling {
            grant,
        },
        (FlowStateView::Saving { token }, EventView::SaveResult { ok }) => if ok {
            FlowStateView::Done { outcome: OutcomeView::LoggedIn { token } }
        } else {
            FlowStateView::Done {
                outcome: OutcomeView::Failed { error: AuthErrorView::CredentialIoFailure },
            }
        },
        (st, _) => st,
    }
}

/// The action owed by the host in the current state.
pub open spec fn action_of(m: FlowView) -> ActionView {
    match m.state {
        FlowStateView::CheckingStore => ActionView::LoadStore,
        FlowStateView::CheckingEnv => ActionView::ReadEnvToken,
        FlowStateView::AwaitingReauth { .. } => ActionView::AskReauth,
        FlowStateView::RequestingCode => ActionView::PostCodeRequest {
            body: code_request_body_spec(),
        },
        FlowStateView::AwaitingConfirmation { grant } => ActionView::AskProceed {
            user_code: grant.user_code,
            verification_uri: grant.verification_uri_complete,
        },
        FlowStateView::Polling { grant } => ActionView::PostPoll {
            body: poll_request_body_spec(grant.device_code),
        },
        FlowStateView::Sleeping { grant } => ActionView::SleepSeconds {
            seconds: delay_of(grant.interval),
        },
        FlowStateView::Saving { token } => ActionView::SaveToken { token },
        FlowStateView::Done { outcome } => ActionView::Finish { outcome },
    }
}

/// The machine after a whole sequence of events.
pub open spec fn run(m: FlowView, evs: Seq<EventView>) -> FlowView
    decreases evs.len(),
{
    if evs.len() == 0 {
        m
    } else {
        run(next(m, evs[0]), evs.drop_first())
    }
}

/// Process exit code owed for an outcome: success and the user's own abort
/// exit clean, every fatal condition exits non-zero.
pub open spec fn outcome_exit_code(o: OutcomeView) -> int {
    match o {
        OutcomeView::LoggedIn { .. } => 0,
        OutcomeView::Aborted => 0,
        OutcomeView::Failed { .. } => 1,
    }
}

} // verus!
