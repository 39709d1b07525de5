//! Laws of the login flow, proved over the model in [`crate::model`].
//!
//! Each law quantifies over whole event traces: `run` folds the trace, and
//! `take(i)` ranges over every prefix, so a statement about
//! `action_of(run(m, evs.take(i)))` covers every action the machine ever
//! asks of the host.

use vstd::prelude::*;

use crate::model::ActionView;
use crate::model::AuthErrorView;
use crate::model::EventView;
use crate::model::FlowStateView;
use crate::model::FlowView;
use crate::model::GrantView;
use crate::model::OutcomeView;
use crate::model::PollVerdictView;
use crate::model::action_of;
use crate::model::classify_poll;
use crate::model::delay_of;
use crate::model::flow_init;
use crate::model::next;
use crate::model::run;

verus! {

/// The terminal state absorbs every event: once done, nothing more happens.
proof fn lemma_done_absorbing(m: FlowView, evs: Seq<EventView>)
    requires
        m.state is Done,
    ensures
        run(m, evs) == m,
    decreases evs.len(),
{
    if evs.len() > 0 {
        assert(next(m, evs[0]) == m);
        lemma_done_absorbing(next(m, evs[0]), evs.drop_first());
    }
}

/// Unfolds one step of `run` on a prefix: the machine after `i >= 1` events
/// is the machine after the first transition and the remaining `i - 1`.
proof fn lemma_run_take_step(m: FlowView, evs: Seq<EventView>, i: int)
    requires
        1 <= i <= evs.len(),
    ensures
        run(m, evs.take(i)) == run(next(m, evs[0]), evs.drop_first().take(i - 1)),
{
    let p = evs.take(i);
    assert(p[0] == evs[0]);
    assert(p.drop_first() =~= evs.drop_first().take(i - 1));
}

/// **Idempotent session resolution.**  With a token already cached in the
/// session, the resolution path is a no-op: every prefix of every event
/// trace leaves the machine in the terminal logged-in state, whose only
/// action reports the cached token — so no store read or write and no
/// network request is ever issued, however often login runs in one process.
pub proof fn lemma_cached_session_resolves_immediately(
    prompt_reauth: bool,
    noninteractive: bool,
    token: Seq<char>,
    evs: Seq<EventView>,
    i: int,
)
    requires
        0 <= i <= evs.len(),
    ensures
        ({
            let m = run(flow_init(prompt_reauth, noninteractive, Some(token)), evs.take(i));
            &&& m.state == (FlowStateView::Done {
                outcome: OutcomeView::LoggedIn { token },
            })
            &&& action_of(m) == (ActionView::Finish {
                outcome: OutcomeView::LoggedIn { token },
            })
        }),
{
    let m0 = flow_init(prompt_reauth, noninteractive, Some(token));
    lemma_done_absorbing(m0, evs.take(i));
}

/// **Load-before-generate ordering.**  When a readable stored token exists
/// and re-authentication is not requested, the flow adopts the stored token:
/// no prefix of any trace ever asks the host to post to the code-request or
/// token endpoint.
pub proof fn lemma_stored_token_skips_network(
    noninteractive: bool,
    token: Seq<char>,
    evs: Seq<EventView>,
    i: int,
)
    requires
        0 <= i <= evs.len(),
        evs.len() >= 1,
        evs[0] == (EventView::StoredToken { token: Some(token) }),
    ensures
        !(action_of(run(flow_init(false, noninteractive, None), evs.take(i)))
            is PostCodeRequest),
        !(action_of(run(flow_init(false, noninteractive, None), evs.take(i))) is PostPoll),
        i >= 1 ==> run(flow_init(false, noninteractive, None), evs.take(i)).state
            == (FlowStateView::Done { outcome: OutcomeView::LoggedIn { token } }),
{
    let m0 = flow_init(false, noninteractive, None);
    if i >= 1 {
        lemma_run_take_step(m0, evs, i);
        let m1 = next(m0, evs[0]);
        assert(m1.state == (FlowStateView::Done {
            outcome: OutcomeView::LoggedIn { token },
        }));
        lemma_done_absorbing(m1, evs.drop_first().take(i - 1));
    }
}

/// **Environment override precedence.**  With no stored token but an
/// environment token set, the flow resolves to exactly the environment value,
/// and no prefix of any trace ever asks the host to write the credential
/// store: environment-sourced tokens stay ephemeral.
pub proof fn lemma_env_token_precedence(
    prompt_reauth: bool,
    noninteractive: bool,
    token: Seq<char>,
    evs: Seq<EventView>,
    i: int,
)
    requires
        0 <= i <= evs.len(),
        evs.len() >= 2,
        evs[0] == (EventView::StoredToken { token: None }),
        evs[1] == (EventView::EnvToken { token: Some(token) }),
    ensures
        !(action_of(run(flow_init(prompt_reauth, noninteractive, None), evs.take(i)))
            is SaveToken),
        i >= 2 ==> run(flow_init(prompt_reauth, noninteractive, None), evs.take(i)).state
            == (FlowStateView::Done { outcome: OutcomeView::LoggedIn { token } }),
{
    let m0 = flow_init(prompt_reauth, noninteractive, None);
    if i >= 1 {
        lemma_run_take_step(m0, evs, i);
        let m1 = next(m0, evs[0]);
        assert(m1.state is CheckingEnv);
        let rest = evs.drop_first();
        if i >= 2 {
            lemma_run_take_step(m1, rest, i - 1);
            let m2 = next(m1, rest[0]);
            assert(rest[0] == evs[1]);
            assert(m2.state == (FlowStateView::Done {
                outcome: OutcomeView::LoggedIn { token },
            }));
            lemma_done_absorbing(m2, rest.drop_first().take(i - 2));
        }
    }
}

/// **Non-interactive missing-input failure.**  In non-interactive mode with
/// no cached, stored or environment token, the flow fails with the directive
/// error and exits non-zero; no prefix of any trace ever asks the host to
/// prompt, open a browser, or post to either endpoint.
pub proof fn lemma_noninteractive_needs_a_token(
    prompt_reauth: bool,
    evs: Seq<EventView>,
    i: int,
)
    requires
        0 <= i <= evs.len(),
        evs.len() >= 2,
        evs[0] == (EventView::StoredToken { token: None }),
        evs[1] == (EventView::EnvToken { token: None }),
    ensures
        !(action_of(run(flow_init(prompt_reauth, true, None), evs.take(i))) is AskProceed),
        !(action_of(run(flow_init(prompt_reauth, true, None), evs.take(i)))
            is PostCodeRequest),
        !(action_of(run(flow_init(prompt_reauth, true, None), evs.take(i))) is PostPoll),
        i >= 2 ==> action_of(run(flow_init(prompt_reauth, true, None), evs.take(i)))
            == (ActionView::Finish {
            outcome: OutcomeView::Failed { error: AuthErrorView::MissingNonInteractiveInput },
        }),
{
    let m0 = flow_init(prompt_reauth, true, None);
    if i >= 1 {
        lemma_run_take_step(m0, evs, i);
        let m1 = next(m0, evs[0]);
        assert(m1.state is CheckingEnv);
        let rest = evs.drop_first();
        if i >= 2 {
            lemma_run_take_step(m1, rest, i - 1);
            let m2 = next(m1, rest[0]);
            assert(rest[0] == evs[1]);
            assert(m2.state == (FlowStateView::Done {
                outcome: OutcomeView::Failed {
                    error: AuthErrorView::MissingNonInteractiveInput,
                },
            }));
            lemma_done_absorbing(m2, rest.drop_first().take(i - 2));
        }
    }
}

/// **Terminal-error abort.**  Once the token endpoint answers with a
/// terminal error, the flow fails at once: after that answer, every prefix of
/// every trace sits in the terminal failed state, so no further poll is ever
/// issued and the owed exit code is non-zero.
pub proof fn lemma_terminal_error_stops_polling(
    m: FlowView,
    err: Seq<char>,
    body: Seq<char>,
    evs: Seq<EventView>,
    i: int,
)
    requires
        1 <= i <= evs.len(),
        m.state is Polling,
        evs[0] == (EventView::PollResponse { body: Some(body) }),
        classify_poll(body) == (PollVerdictView::Denied { error: err }),
    ensures
        run(m, evs.take(i)).state == (FlowStateView::Done {
            outcome: OutcomeView::Failed {
                error: AuthErrorView::AuthorizationDenied { error: err },
            },
        }),
        !(action_of(run(m, evs.take(i))) is PostPoll),
{
    lemma_run_take_step(m, evs, i);
    let m1 = next(m, evs[0]);
    assert(m1.state == (FlowStateView::Done {
        outcome: OutcomeView::Failed {
            error: AuthErrorView::AuthorizationDenied { error: err },
        },
    }));
    lemma_done_absorbing(m1, evs.drop_first().take(i - 1));
}

/// **Pending retry.**  A pending answer keeps the same grant and schedules
/// exactly one delayed retry, one second longer than the server-advertised
/// interval, after which the flow polls again with the same device code.
pub proof fn lemma_pending_schedules_retry(m: FlowView, grant: GrantView, body: Seq<char>)
    requires
        m.state == (FlowStateView::Polling { grant }),
        classify_poll(body) == PollVerdictView::Pending,
    ensures
        ({
            let m1 = next(m, EventView::PollResponse { body: Some(body) });
            &&& m1.state == (FlowStateView::Sleeping { grant })
            &&& action_of(m1) == (ActionView::SleepSeconds {
                seconds: delay_of(grant.interval),
            })
            &&& next(m1, EventView::SleepDone).state == (FlowStateView::Polling { grant })
        }),
{
}

/// **Granted token is persisted, then cached.**  An answer carrying an
/// access token moves the flow to saving exactly that token; a successful
/// save ends the flow logged in with it.
pub proof fn lemma_granted_token_is_saved(m: FlowView, token: Seq<char>, body: Seq<char>)
    requires
        m.state is Polling,
        classify_poll(body) == (PollVerdictView::Granted { token }),
    ensures
        ({
            let m1 = next(m, EventView::PollResponse { body: Some(body) });
            &&& m1.state == (FlowStateView::Saving { token })
            &&& action_of(m1) == (ActionView::SaveToken { token })
            &&& next(m1, EventView::SaveResult { ok: true }).state == (FlowStateView::Done {
                outcome: OutcomeView::LoggedIn { token },
            })
        }),
{
}

} // verus!
