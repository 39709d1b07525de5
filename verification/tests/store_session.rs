//! The credential-store model, the in-process session cache, and the
//! logout decisions.

use iasql_cli::logout::logout_after_confirm;
use iasql_cli::logout::logout_begin;
use iasql_cli::logout::LogoutOutcome;
use iasql_cli::logout::LogoutStep;
use iasql_cli::session::Session;
use iasql_cli::store::TokenStore;

#[test]
fn store_round_trip() {
    // save("abc123") then load() returns exactly "abc123"; delete() then
    // load() reports nothing stored.
    let mut store = TokenStore::absent();
    assert_eq!(store.load(), None);
    store.save("abc123");
    assert_eq!(store.load(), Some("abc123".to_string()));
    store.delete();
    assert_eq!(store.load(), None);
}

#[test]
fn store_save_replaces() {
    // At most one credential exists: a second save replaces the first.
    let mut store = TokenStore::absent();
    store.save("first");
    store.save("second");
    assert_eq!(store.load(), Some("second".to_string()));
}

#[test]
fn session_starts_empty() {
    let session = Session::new();
    assert!(!session.is_set());
    assert_eq!(session.get_token(), "");
}

#[test]
fn session_sets_once() {
    let mut session = Session::new();
    assert!(session.set_if_absent("one".to_string()));
    assert!(session.is_set());
    assert_eq!(session.get_token(), "one");
    // A second set never overwrites the first token.
    assert!(!session.set_if_absent("two".to_string()));
    assert_eq!(session.get_token(), "one");
}

#[test]
fn logout_with_nothing_stored_is_informational() {
    // No stored credential: only the informational message, exit 0, and no
    // deletion is ever decided, interactive or not.
    assert_eq!(
        logout_begin(false, false, false),
        LogoutStep::InformNothingStored
    );
    assert_eq!(
        logout_begin(false, false, true),
        LogoutStep::InformNothingStored
    );
    assert_eq!(LogoutOutcome::NothingStored.exit_code(), 0);
}

#[test]
fn logout_confirms_interactively() {
    assert_eq!(logout_begin(false, true, false), LogoutStep::ConfirmRemoval);
    assert_eq!(logout_after_confirm(true), LogoutStep::RemoveCredential);
    assert_eq!(logout_after_confirm(false), LogoutStep::DoNothing);
    assert_eq!(LogoutOutcome::Skipped.exit_code(), 0);
}

#[test]
fn logout_skips_prompt_noninteractively() {
    assert_eq!(logout_begin(false, true, true), LogoutStep::RemoveCredential);
    assert_eq!(LogoutOutcome::Removed.exit_code(), 0);
}

#[test]
fn logout_does_nothing_with_cached_token() {
    assert_eq!(logout_begin(true, true, false), LogoutStep::DoNothing);
    assert_eq!(logout_begin(true, false, false), LogoutStep::DoNothing);
}

#[test]
fn failed_deletion_exits_nonzero() {
    assert_eq!(LogoutOutcome::IoFailure.exit_code(), 1);
}
