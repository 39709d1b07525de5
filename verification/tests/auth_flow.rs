//! The device-authorization flow, driven the way the host binary drives it:
//! ask for the current action, perform it (here: scripted), feed the result
//! back as an event.

use iasql_cli::engine::AuthError;
use iasql_cli::engine::AuthFlow;
use iasql_cli::engine::FlowAction;
use iasql_cli::engine::FlowEvent;
use iasql_cli::engine::Outcome;
use iasql_cli::session::Session;

const GRANT_JSON: &str = "{\"device_code\":\"dev-1\",\"user_code\":\"ABCD-EFGH\",\"verification_uri_complete\":\"https://auth.iasql.com/activate?user_code=ABCD-EFGH\",\"interval\":5}";
const PENDING_JSON: &str = "{\"error\":\"authorization_pending\"}";

/// Drives a fresh interactive flow up to the polling state.
fn flow_at_polling() -> AuthFlow {
    let session = Session::new();
    let mut flow = AuthFlow::begin(&session, false, false);
    assert!(matches!(flow.current_action(), FlowAction::LoadStore));
    flow = flow.step(FlowEvent::StoredToken { token: None });
    assert!(matches!(flow.current_action(), FlowAction::ReadEnvToken));
    flow = flow.step(FlowEvent::EnvToken { token: None });
    match flow.current_action() {
        FlowAction::PostCodeRequest { body } => {
            assert_eq!(
                body,
                "{\"client_id\": \"FWIYK0GhLdMCLid0hxjmEEwxaifdAkpQ\",\"scope\": \"openid+profile+offline_access\",\"audience\": \"https://api.iasql.com\"}"
            );
        }
        other => panic!("expected a code request, got {:?}", other),
    }
    flow = flow.step(FlowEvent::CodeResponse {
        body: Some(GRANT_JSON.to_string()),
    });
    match flow.current_action() {
        FlowAction::AskProceed {
            user_code,
            verification_uri,
        } => {
            assert_eq!(user_code, "ABCD-EFGH");
            assert_eq!(
                verification_uri,
                "https://auth.iasql.com/activate?user_code=ABCD-EFGH"
            );
        }
        other => panic!("expected the proceed prompt, got {:?}", other),
    }
    flow.step(FlowEvent::ProceedAnswer { proceed: true })
}

fn expected_poll_body() -> String {
    "{\"client_id\":\"FWIYK0GhLdMCLid0hxjmEEwxaifdAkpQ\",\"device_code\":\"dev-1\",\"grant_type\":\"urn:ietf:params:oauth:grant-type:device_code\"}".to_string()
}

#[test]
fn pending_retry_loop() {
    // Two pending answers, then the token: exactly two delayed retries,
    // then the token is saved and the flow finishes logged in with it.
    let mut flow = flow_at_polling();
    let mut sleeps = 0;
    for _ in 0..2 {
        match flow.current_action() {
            FlowAction::PostPoll { body } => assert_eq!(body, expected_poll_body()),
            other => panic!("expected a poll, got {:?}", other),
        }
        flow = flow.step(FlowEvent::PollResponse {
            body: Some(PENDING_JSON.to_string()),
        });
        match flow.current_action() {
            FlowAction::SleepSeconds { seconds } => {
                assert_eq!(seconds, 6); // advertised interval 5, plus one
                sleeps += 1;
            }
            other => panic!("expected a sleep, got {:?}", other),
        }
        flow = flow.step(FlowEvent::SleepDone);
    }
    match flow.current_action() {
        FlowAction::PostPoll { body } => assert_eq!(body, expected_poll_body()),
        other => panic!("expected a poll, got {:?}", other),
    }
    flow = flow.step(FlowEvent::PollResponse {
        body: Some("{\"access_token\":\"T\"}".to_string()),
    });
    assert_eq!(sleeps, 2);
    match flow.current_action() {
        FlowAction::SaveToken { token } => assert_eq!(token, "T"),
        other => panic!("expected a save, got {:?}", other),
    }
    flow = flow.step(FlowEvent::SaveResult { ok: true });
    assert!(flow.is_done());
    match flow.current_action() {
        FlowAction::Finish { outcome } => {
            assert_eq!(
                outcome,
                Outcome::LoggedIn {
                    token: "T".to_string()
                }
            );
            assert_eq!(outcome.exit_code(), 0);
        }
        other => panic!("expected the finish, got {:?}", other),
    }
}

#[test]
fn terminal_error_aborts() {
    // A terminal poll error ends the flow at once with a non-zero exit code;
    // no further poll is ever asked for.
    let mut flow = flow_at_polling();
    flow = flow.step(FlowEvent::PollResponse {
        body: Some("{\"error\":\"expired_token\"}".to_string()),
    });
    assert!(flow.is_done());
    match flow.current_action() {
        FlowAction::Finish { outcome } => {
            assert_eq!(
                outcome,
                Outcome::Failed {
                    error: AuthError::AuthorizationDenied {
                        error: "expired_token".to_string()
                    }
                }
            );
            assert_eq!(outcome.exit_code(), 1);
        }
        other => panic!("expected the finish, got {:?}", other),
    }
    // Even a spurious further event leaves the machine finished.
    flow = flow.step(FlowEvent::PollResponse {
        body: Some(PENDING_JSON.to_string()),
    });
    assert!(matches!(
        flow.current_action(),
        FlowAction::Finish { .. }
    ));
}

#[test]
fn cached_session_resolves_immediately() {
    // A token already cached in the session resolves without any action:
    // run the resolution twice; neither asks for the store or the network.
    let mut session = Session::new();
    assert!(session.set_if_absent("cached".to_string()));
    for _ in 0..2 {
        let flow = AuthFlow::begin(&session, false, false);
        assert!(flow.is_done());
        match flow.current_action() {
            FlowAction::Finish { outcome } => assert_eq!(
                outcome,
                Outcome::LoggedIn {
                    token: "cached".to_string()
                }
            ),
            other => panic!("expected the finish, got {:?}", other),
        }
    }
}

#[test]
fn stored_token_adopted_without_network() {
    // With a stored token and no re-auth request, the flow finishes right
    // after the store answers: no code request, no poll.
    let session = Session::new();
    let mut flow = AuthFlow::begin(&session, false, false);
    assert!(matches!(flow.current_action(), FlowAction::LoadStore));
    flow = flow.step(FlowEvent::StoredToken {
        token: Some("stored".to_string()),
    });
    assert!(flow.is_done());
    match flow.current_action() {
        FlowAction::Finish { outcome } => assert_eq!(
            outcome,
            Outcome::LoggedIn {
                token: "stored".to_string()
            }
        ),
        other => panic!("expected the finish, got {:?}", other),
    }
}

#[test]
fn reauth_declined_keeps_stored_token() {
    let session = Session::new();
    let mut flow = AuthFlow::begin(&session, true, false);
    flow = flow.step(FlowEvent::StoredToken {
        token: Some("stored".to_string()),
    });
    assert!(matches!(flow.current_action(), FlowAction::AskReauth));
    flow = flow.step(FlowEvent::ReauthAnswer { reauth: false });
    match flow.current_action() {
        FlowAction::Finish { outcome } => assert_eq!(
            outcome,
            Outcome::LoggedIn {
                token: "stored".to_string()
            }
        ),
        other => panic!("expected the finish, got {:?}", other),
    }
}

#[test]
fn reauth_accepted_runs_device_flow() {
    let session = Session::new();
    let mut flow = AuthFlow::begin(&session, true, false);
    flow = flow.step(FlowEvent::StoredToken {
        token: Some("stored".to_string()),
    });
    flow = flow.step(FlowEvent::ReauthAnswer { reauth: true });
    assert!(matches!(
        flow.current_action(),
        FlowAction::PostCodeRequest { .. }
    ));
}

#[test]
fn reauth_not_prompted_noninteractively() {
    // Non-interactive mode adopts the stored token even when re-auth was
    // requested: there is no terminal to ask on.
    let session = Session::new();
    let mut flow = AuthFlow::begin(&session, true, true);
    flow = flow.step(FlowEvent::StoredToken {
        token: Some("stored".to_string()),
    });
    assert!(flow.is_done());
}

#[test]
fn env_token_precedence() {
    // No stored token, environment token set: the resolved token is the
    // environment value and nothing is ever saved to the store.
    let session = Session::new();
    let mut flow = AuthFlow::begin(&session, false, false);
    flow = flow.step(FlowEvent::StoredToken { token: None });
    assert!(matches!(flow.current_action(), FlowAction::ReadEnvToken));
    flow = flow.step(FlowEvent::EnvToken {
        token: Some("from-env".to_string()),
    });
    assert!(flow.is_done());
    match flow.current_action() {
        FlowAction::Finish { outcome } => assert_eq!(
            outcome,
            Outcome::LoggedIn {
                token: "from-env".to_string()
            }
        ),
        other => panic!("expected the finish, got {:?}", other),
    }
}

#[test]
fn noninteractive_missing_input_fails() {
    // Non-interactive, no cached, stored or environment token: a directive
    // failure with exit code 1, and no browser interaction was ever asked.
    let session = Session::new();
    let mut flow = AuthFlow::begin(&session, false, true);
    flow = flow.step(FlowEvent::StoredToken { token: None });
    flow = flow.step(FlowEvent::EnvToken { token: None });
    assert!(flow.is_done());
    match flow.current_action() {
        FlowAction::Finish { outcome } => {
            assert_eq!(
                outcome,
                Outcome::Failed {
                    error: AuthError::MissingNonInteractiveInput
                }
            );
            assert_eq!(outcome.exit_code(), 1);
        }
        other => panic!("expected the finish, got {:?}", other),
    }
}

#[test]
fn declined_confirmation_aborts_silently() {
    let session = Session::new();
    let mut flow = AuthFlow::begin(&session, false, false);
    flow = flow.step(FlowEvent::StoredToken { token: None });
    flow = flow.step(FlowEvent::EnvToken { token: None });
    flow = flow.step(FlowEvent::CodeResponse {
        body: Some(GRANT_JSON.to_string()),
    });
    flow = flow.step(FlowEvent::ProceedAnswer { proceed: false });
    match flow.current_action() {
        FlowAction::Finish { outcome } => {
            assert_eq!(outcome, Outcome::Aborted);
            assert_eq!(outcome.exit_code(), 0);
        }
        other => panic!("expected the finish, got {:?}", other),
    }
}

#[test]
fn code_request_transport_failure_is_fatal() {
    let session = Session::new();
    let mut flow = AuthFlow::begin(&session, false, false);
    flow = flow.step(FlowEvent::StoredToken { token: None });
    flow = flow.step(FlowEvent::EnvToken { token: None });
    flow = flow.step(FlowEvent::CodeResponse { body: None });
    match flow.current_action() {
        FlowAction::Finish { outcome } => assert_eq!(
            outcome,
            Outcome::Failed {
                error: AuthError::TransportFailure
            }
        ),
        other => panic!("expected the finish, got {:?}", other),
    }
}

#[test]
fn code_response_missing_field_is_fatal() {
    // The grant needs all four fields; one missing is a parse failure.
    let session = Session::new();
    let mut flow = AuthFlow::begin(&session, false, false);
    flow = flow.step(FlowEvent::StoredToken { token: None });
    flow = flow.step(FlowEvent::EnvToken { token: None });
    flow = flow.step(FlowEvent::CodeResponse {
        body: Some("{\"device_code\":\"dev-1\",\"user_code\":\"ABCD\"}".to_string()),
    });
    match flow.current_action() {
        FlowAction::Finish { outcome } => assert_eq!(
            outcome,
            Outcome::Failed {
                error: AuthError::TransportFailure
            }
        ),
        other => panic!("expected the finish, got {:?}", other),
    }
}

#[test]
fn unparseable_poll_body_is_fatal() {
    let mut flow = flow_at_polling();
    flow = flow.step(FlowEvent::PollResponse {
        body: Some("not json at all".to_string()),
    });
    match flow.current_action() {
        FlowAction::Finish { outcome } => assert_eq!(
            outcome,
            Outcome::Failed {
                error: AuthError::TransportFailure
            }
        ),
        other => panic!("expected the finish, got {:?}", other),
    }
}

#[test]
fn well_formed_poll_body_without_fields_keeps_polling() {
    // A JSON answer with neither token nor error is treated like pending.
    let mut flow = flow_at_polling();
    flow = flow.step(FlowEvent::PollResponse {
        body: Some("{\"unrelated\":1}".to_string()),
    });
    assert!(matches!(
        flow.current_action(),
        FlowAction::SleepSeconds { .. }
    ));
}

#[test]
fn failed_save_is_fatal() {
    let mut flow = flow_at_polling();
    flow = flow.step(FlowEvent::PollResponse {
        body: Some("{\"access_token\":\"T\"}".to_string()),
    });
    flow = flow.step(FlowEvent::SaveResult { ok: false });
    match flow.current_action() {
        FlowAction::Finish { outcome } => {
            assert_eq!(
                outcome,
                Outcome::Failed {
                    error: AuthError::CredentialIoFailure
                }
            );
            assert_eq!(outcome.exit_code(), 1);
        }
        other => panic!("expected the finish, got {:?}", other),
    }
}

#[test]
fn mismatched_event_changes_nothing() {
    // An event that does not answer the pending action leaves the state as
    // it was.
    let mut flow = flow_at_polling();
    flow = flow.step(FlowEvent::SleepDone);
    assert!(matches!(flow.current_action(), FlowAction::PostPoll { .. }));
}
