use pullomatic::config::Config;
use pullomatic::creds::{
    answer_challenge, AllowedTypes, CredChoice, ResolvedCredentials, ResolvedPassword,
    ResolvedSsh,
};
use pullomatic::repo::{
    fetch_refspec, needs_reset, target_ref, AttemptEvents, CommitId, FetchOutcome, RepoState,
    UpdateError,
};
use pullomatic::ticker::{should_run_script, tick_due};

fn commit(b: u8) -> CommitId {
    CommitId { bytes: vec![b; 20] }
}

fn fetched(head: Option<CommitId>, target: CommitId, reset_ok: bool) -> AttemptEvents {
    AttemptEvents {
        opened: true,
        fetch: Some(FetchOutcome::Fetched),
        head,
        target: Some(target),
        reset_ok,
    }
}

#[test]
fn new_repository_scenario_reports_changed() {
    // Local path did not exist: a fresh repository has no head yet.
    let mut state = RepoState::new();
    state.begin_attempt(5);
    let events = fetched(None, commit(0xa), true);
    assert!(needs_reset(&events));
    let result = state.conclude_attempt(5, &events);
    assert_eq!(result, Ok(true));
    assert_eq!(state.last_checked, Some(5));
    assert_eq!(state.last_changed, Some(5));
}

#[test]
fn unchanged_scenario_leaves_last_changed_alone() {
    let mut state = RepoState::new();
    state.begin_attempt(3);
    let first = fetched(None, commit(0xa), true);
    assert_eq!(state.conclude_attempt(3, &first), Ok(true));

    state.begin_attempt(9);
    let second = fetched(Some(commit(0xa)), commit(0xa), true);
    assert!(!needs_reset(&second));
    let result = state.conclude_attempt(9, &second);
    assert_eq!(result, Ok(false));
    assert_eq!(state.last_checked, Some(9));
    assert_eq!(state.last_changed, Some(3));
}

#[test]
fn auth_failure_advances_only_last_checked() {
    // The remote demanded credentials and none were configured.
    let challenge = answer_challenge(
        None,
        Some("git".to_string()),
        AllowedTypes { username: false, ssh_key: true, user_pass_plaintext: true },
    );
    assert!(matches!(challenge, Err(UpdateError::Auth)));

    let mut state = RepoState::new();
    state.begin_attempt(7);
    let events = AttemptEvents {
        opened: true,
        fetch: Some(FetchOutcome::AuthFailed),
        head: None,
        target: None,
        reset_ok: true,
    };
    let result = state.conclude_attempt(7, &events);
    assert_eq!(result, Err(UpdateError::Auth));
    assert_eq!(state.last_checked, Some(7));
    assert_eq!(state.last_changed, None);
}

#[test]
fn open_failure_is_a_storage_error() {
    let mut state = RepoState::new();
    state.begin_attempt(2);
    let events = AttemptEvents {
        opened: false,
        fetch: None,
        head: None,
        target: None,
        reset_ok: true,
    };
    assert!(!needs_reset(&events));
    assert_eq!(state.conclude_attempt(2, &events), Err(UpdateError::Storage));
    assert_eq!(state.last_changed, None);
}

#[test]
fn transport_failure_is_a_remote_error() {
    let mut state = RepoState::new();
    state.begin_attempt(2);
    let events = AttemptEvents {
        opened: true,
        fetch: Some(FetchOutcome::TransportFailed),
        head: None,
        target: None,
        reset_ok: true,
    };
    assert_eq!(state.conclude_attempt(2, &events), Err(UpdateError::Remote));
    assert_eq!(state.last_changed, None);
}

#[test]
fn reset_failure_is_a_storage_error() {
    let mut state = RepoState::new();
    state.begin_attempt(4);
    let events = fetched(Some(commit(1)), commit(2), false);
    assert!(needs_reset(&events));
    assert_eq!(state.conclude_attempt(4, &events), Err(UpdateError::Storage));
    assert_eq!(state.last_checked, Some(4));
    assert_eq!(state.last_changed, None);
}

#[test]
fn attempts_advance_last_checked_monotonically() {
    let mut state = RepoState::new();
    state.begin_attempt(5);
    let first = fetched(None, commit(1), true);
    assert_eq!(state.conclude_attempt(5, &first), Ok(true));
    assert_eq!(state.last_checked, Some(5));

    state.begin_attempt(9);
    let second = AttemptEvents {
        opened: true,
        fetch: Some(FetchOutcome::TransportFailed),
        head: None,
        target: None,
        reset_ok: true,
    };
    assert!(state.conclude_attempt(9, &second).is_err());
    // Strictly increased, and never below the last change.
    assert_eq!(state.last_checked, Some(9));
    assert_eq!(state.last_changed, Some(5));
}

#[test]
fn commit_identity_is_byte_equality() {
    assert!(commit(3).same_as(&commit(3)));
    assert!(!commit(3).same_as(&commit(4)));
    let short = CommitId { bytes: vec![3; 19] };
    assert!(!short.same_as(&commit(3)));
}

#[test]
fn ticker_fires_when_no_check_ever_ran() {
    assert!(tick_due(None, 60_000, 0));
}

#[test]
fn ticker_fires_only_after_the_interval_elapsed() {
    assert!(!tick_due(Some(10_000), 5_000, 12_000));
    assert!(!tick_due(Some(10_000), 5_000, 15_000));
    assert!(tick_due(Some(10_000), 5_000, 15_001));
    assert!(!tick_due(Some(10_000), 5_000, 9_000));
}

#[test]
fn script_runs_only_after_a_change_with_a_script() {
    let script = Some("make deploy".to_string());
    assert!(should_run_script(true, &script));
    assert!(!should_run_script(false, &script));
    assert!(!should_run_script(true, &None));
    assert!(!should_run_script(false, &None));
}

fn password_creds() -> Option<ResolvedCredentials> {
    Some(ResolvedCredentials::Password(ResolvedPassword {
        username: "deploy".to_string(),
        password: "SECRET-REDACTED".to_string(),
    }))
}

fn ssh_creds() -> Option<ResolvedCredentials> {
    Some(ResolvedCredentials::Ssh(ResolvedSsh {
        username: "git".to_string(),
        public_key: None,
        private_key: "SECRET-REDACTED".to_string(),
        passphrase: Some("SECRET-REDACTED".to_string()),
    }))
}

fn allow(username: bool, ssh_key: bool, user_pass_plaintext: bool) -> AllowedTypes {
    AllowedTypes { username, ssh_key, user_pass_plaintext }
}

#[test]
fn password_round_answers_username_first() {
    let r = answer_challenge(password_creds(), Some("deploy".to_string()), allow(true, false, true));
    assert!(matches!(r, Ok(CredChoice::Username(u)) if u == "deploy"));
}

#[test]
fn password_round_answers_the_pair_when_asked() {
    let r = answer_challenge(password_creds(), Some("deploy".to_string()), allow(false, false, true));
    assert!(matches!(r, Ok(CredChoice::UserPass(u, p)) if u == "deploy" && p == "SECRET-REDACTED"));
}

#[test]
fn password_round_rejects_a_foreign_username_hint() {
    let r = answer_challenge(password_creds(), Some("someoneelse".to_string()), allow(true, false, true));
    assert_eq!(r.unwrap_err(), UpdateError::Auth);
    let r = answer_challenge(password_creds(), None, allow(true, false, true));
    assert_eq!(r.unwrap_err(), UpdateError::Auth);
}

#[test]
fn password_round_fails_when_only_keys_are_accepted() {
    let r = answer_challenge(password_creds(), Some("deploy".to_string()), allow(false, true, false));
    assert_eq!(r.unwrap_err(), UpdateError::Auth);
}

#[test]
fn ssh_round_answers_username_first() {
    let r = answer_challenge(ssh_creds(), None, allow(true, true, false));
    assert!(matches!(r, Ok(CredChoice::Username(u)) if u == "git"));
}

#[test]
fn ssh_round_answers_the_key_when_asked() {
    let r = answer_challenge(ssh_creds(), Some("git".to_string()), allow(false, true, false));
    match r {
        Ok(CredChoice::SshKey { username, public_key, private_key, passphrase }) => {
            assert_eq!(username, "git");
            assert_eq!(public_key, None);
            assert_eq!(private_key, "SECRET-REDACTED");
            assert_eq!(passphrase, Some("SECRET-REDACTED".to_string()));
        }
        other => panic!("unexpected answer: {:?}", other),
    }
}

#[test]
fn ssh_round_fails_when_only_passwords_are_accepted() {
    let r = answer_challenge(ssh_creds(), None, allow(false, false, true));
    assert_eq!(r.unwrap_err(), UpdateError::Auth);
}

#[test]
fn no_credentials_fail_every_challenge() {
    let r = answer_challenge(None, None, allow(true, true, true));
    assert_eq!(r.unwrap_err(), UpdateError::Auth);
}

#[test]
fn remote_ref_is_fully_qualified() {
    let c = Config {
        path: "/var/lib/checkout".to_string(),
        remote_url: "https://example.invalid/repo.git".to_string(),
        remote_branch: "main".to_string(),
        on_change: None,
        credentials: None,
        interval: None,
        webhook: None,
    };
    assert_eq!(c.remote_ref(), "refs/heads/main");
}

#[test]
fn fetch_refspec_forces_the_branch_into_the_tracking_ref() {
    let c = Config {
        path: "/var/lib/checkout".to_string(),
        remote_url: "https://example.invalid/repo.git".to_string(),
        remote_branch: "main".to_string(),
        on_change: None,
        credentials: None,
        interval: None,
        webhook: None,
    };
    assert_eq!(fetch_refspec(&c), "+refs/heads/main:refs/pullomatic");
    assert_eq!(target_ref(), "refs/pullomatic");
}

#[test]
fn fresh_state_has_no_timestamps() {
    let state = RepoState::new();
    assert_eq!(state.last_checked(), None);
    assert_eq!(state.last_changed, None);
}
