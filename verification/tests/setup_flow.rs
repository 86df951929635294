//! Scenario tests of the bootstrap state machine, driven by a scripted fake
//! of the external messaging client that records the actions it is asked to
//! perform.

use matrixbot_ezlogin::{
    SetupAction, SetupConfig, SetupError, SetupEvent, SetupFlow,
};

fn config(dir: &tempfile::TempDir) -> SetupConfig {
    SetupConfig {
        data_dir: dir.path().to_str().unwrap().to_string(),
        homeserver: "https://matrix.example.org".to_string(),
        username: "@bot:example.org".to_string(),
        password: "hunter2".to_string(),
        device_name: "test rig".to_string(),
    }
}

/// Drives the flow up to the point where the backup check is answered:
/// purge, client build, login, session hand-over.  Returns the recorded
/// actions so far.
fn drive_to_backup_check(flow: &mut SetupFlow, first: SetupAction) -> Vec<SetupAction> {
    let mut actions: Vec<SetupAction> = vec![first];

    let a = flow.step(SetupEvent::PurgeDone).unwrap();
    assert!(matches!(a, SetupAction::BuildClient { .. }));
    actions.push(a);

    let a = flow.step(SetupEvent::ClientBuilt).unwrap();
    assert_eq!(
        a,
        SetupAction::PasswordLogin {
            username: "@bot:example.org".to_string(),
            password: "hunter2".to_string(),
            device_name: "test rig".to_string(),
        }
    );
    actions.push(a);

    let a = flow.step(SetupEvent::LoginOk).unwrap();
    assert_eq!(a, SetupAction::FetchSession);
    actions.push(a);

    let a = flow
        .step(SetupEvent::SessionInfo {
            homeserver_url: "https://matrix-client.example.org".to_string(),
            session_blob: "{\"session\":1}".to_string(),
        })
        .unwrap();
    assert_eq!(a, SetupAction::CheckBackupExists);
    actions.push(a);

    actions
}

#[test]
fn fresh_setup_creates_new_backup() {
    let dir = tempfile::TempDir::new().unwrap();
    let (mut flow, first) = SetupFlow::begin(config(&dir)).unwrap();
    assert_eq!(first, SetupAction::PurgeStaleKeystore);

    // The generated storage passphrase is 32 alphanumeric characters.
    let mut actions = drive_to_backup_check(&mut flow, first);
    let passphrase = match &actions[1] {
        SetupAction::BuildClient { homeserver, passphrase } => {
            assert_eq!(homeserver, "https://matrix.example.org");
            assert_eq!(passphrase.len(), 32);
            assert!(passphrase.chars().all(|c| c.is_ascii_alphanumeric()));
            passphrase.clone()
        }
        other => panic!("expected BuildClient, got {:?}", other),
    };

    // No backup on the server: confirm, reset with the password challenge,
    // enable a backup, announce the fresh key.
    let a = flow.step(SetupEvent::BackupMissing).unwrap();
    assert_eq!(a, SetupAction::ConfirmBeforeReset);
    actions.push(a);

    let a = flow.step(SetupEvent::ResetConfirmed).unwrap();
    assert_eq!(a, SetupAction::ResetIdentity);
    actions.push(a);

    let a = flow.step(SetupEvent::ResetChallengePassword).unwrap();
    assert_eq!(
        a,
        SetupAction::AnswerPasswordChallenge {
            username: "@bot:example.org".to_string(),
            password: "hunter2".to_string(),
        }
    );
    actions.push(a);

    let a = flow.step(SetupEvent::ChallengeAnswered).unwrap();
    assert_eq!(a, SetupAction::EnableBackup);
    actions.push(a);

    let a = flow
        .step(SetupEvent::BackupEnabled { recovery_key: "EsTk fresh key".to_string() })
        .unwrap();
    assert_eq!(
        a,
        SetupAction::AnnounceRecoveryKey { recovery_key: "EsTk fresh key".to_string() }
    );
    actions.push(a);

    let end = flow.step(SetupEvent::AnnounceOk);
    assert_eq!(end, None);
    assert_eq!(flow.outcome(), Some(Ok(())));

    // The key was announced exactly once.
    let announces = actions
        .iter()
        .filter(|a| matches!(a, SetupAction::AnnounceRecoveryKey { .. }))
        .count();
    assert_eq!(announces, 1);

    // The persisted records match what the fake client saw.
    let store = flow.into_store();
    assert_eq!(
        store.get_recovery_secret().unwrap(),
        Some("EsTk fresh key".to_string())
    );
    let rec = store.get_session().unwrap().unwrap();
    assert_eq!(rec.homeserver, "https://matrix-client.example.org");
    assert_eq!(rec.passphrase, passphrase);
    assert_eq!(rec.session_blob, "{\"session\":1}");
    assert_eq!(store.get_cursor().unwrap(), None);
}

#[test]
fn setup_abort_logs_out_before_failure() {
    let dir = tempfile::TempDir::new().unwrap();
    let (mut flow, first) = SetupFlow::begin(config(&dir)).unwrap();
    let mut actions = drive_to_backup_check(&mut flow, first);

    let a = flow.step(SetupEvent::BackupMissing).unwrap();
    assert_eq!(a, SetupAction::ConfirmBeforeReset);
    actions.push(a);

    // The human declines the destructive reset: the very next action is the
    // rollback logout, and only after it completes does the machine report
    // the abort.
    assert_eq!(flow.outcome(), None);
    let a = flow.step(SetupEvent::ResetDeclined).unwrap();
    assert_eq!(a, SetupAction::Logout);
    assert_eq!(flow.outcome(), None);
    actions.push(a);

    let end = flow.step(SetupEvent::LogoutDone);
    assert_eq!(end, None);
    assert_eq!(flow.outcome(), Some(Err(SetupError::SetupAborted)));

    // The logout was requested exactly once, after the confirmation and
    // before the end.
    let logouts: Vec<usize> = actions
        .iter()
        .enumerate()
        .filter(|(_, a)| matches!(a, SetupAction::Logout))
        .map(|(i, _)| i)
        .collect();
    assert_eq!(logouts.len(), 1);
    assert_eq!(logouts[0], actions.len() - 1);
}

#[test]
fn existing_backup_recovers_with_held_key() {
    let dir = tempfile::TempDir::new().unwrap();
    let (mut flow, first) = SetupFlow::begin(config(&dir)).unwrap();
    drive_to_backup_check(&mut flow, first);

    let a = flow.step(SetupEvent::BackupExists).unwrap();
    assert_eq!(a, SetupAction::AskRecoveryKey);

    let a = flow
        .step(SetupEvent::RecoveryKeyProvided { recovery_key: "EsTk held key".to_string() })
        .unwrap();
    assert_eq!(a, SetupAction::Recover { recovery_key: "EsTk held key".to_string() });

    let end = flow.step(SetupEvent::RecoverOk);
    assert_eq!(end, None);
    assert_eq!(flow.outcome(), Some(Ok(())));

    // The held key is cached for unattended re-recovery, and no
    // announcement happened on this branch.
    let store = flow.into_store();
    assert_eq!(
        store.get_recovery_secret().unwrap(),
        Some("EsTk held key".to_string())
    );
}

#[test]
fn approval_url_challenge_is_forwarded() {
    let dir = tempfile::TempDir::new().unwrap();
    let (mut flow, first) = SetupFlow::begin(config(&dir)).unwrap();
    drive_to_backup_check(&mut flow, first);

    flow.step(SetupEvent::BackupMissing).unwrap();
    flow.step(SetupEvent::ResetConfirmed).unwrap();
    let a = flow
        .step(SetupEvent::ResetChallengeApproval {
            approval_url: "https://example.org/approve/123".to_string(),
        })
        .unwrap();
    assert_eq!(
        a,
        SetupAction::AnswerApprovalChallenge {
            approval_url: "https://example.org/approve/123".to_string(),
        }
    );
}

#[test]
fn login_failure_fails_without_logout() {
    // Before a session exists there is nothing to roll back: a failed
    // password login ends the bootstrap directly.
    let dir = tempfile::TempDir::new().unwrap();
    let (mut flow, _) = SetupFlow::begin(config(&dir)).unwrap();
    flow.step(SetupEvent::PurgeDone).unwrap();
    flow.step(SetupEvent::ClientBuilt).unwrap();
    let end = flow.step(SetupEvent::LoginFailed);
    assert_eq!(end, None);
    assert_eq!(flow.outcome(), Some(Err(SetupError::Transport)));
}

#[test]
fn session_missing_aborts_with_logout() {
    let dir = tempfile::TempDir::new().unwrap();
    let (mut flow, _) = SetupFlow::begin(config(&dir)).unwrap();
    flow.step(SetupEvent::PurgeDone).unwrap();
    flow.step(SetupEvent::ClientBuilt).unwrap();
    flow.step(SetupEvent::LoginOk).unwrap();
    let a = flow.step(SetupEvent::SessionMissing).unwrap();
    assert_eq!(a, SetupAction::Logout);

    // Even when the rollback logout itself fails, the original failure is
    // the one reported.
    let end = flow.step(SetupEvent::LogoutFailed);
    assert_eq!(end, None);
    assert_eq!(flow.outcome(), Some(Err(SetupError::SessionMissing)));
}

#[test]
fn unsupported_session_kind_is_reported() {
    let dir = tempfile::TempDir::new().unwrap();
    let (mut flow, _) = SetupFlow::begin(config(&dir)).unwrap();
    flow.step(SetupEvent::PurgeDone).unwrap();
    flow.step(SetupEvent::ClientBuilt).unwrap();
    flow.step(SetupEvent::LoginOk).unwrap();
    let a = flow.step(SetupEvent::SessionUnsupported).unwrap();
    assert_eq!(a, SetupAction::Logout);
    flow.step(SetupEvent::LogoutDone);
    assert_eq!(
        flow.outcome(),
        Some(Err(SetupError::UnsupportedSessionKind))
    );
}

#[test]
fn a_new_setup_overwrites_an_abandoned_one() {
    let dir = tempfile::TempDir::new().unwrap();

    // A first attempt writes its session row and is then abandoned.
    let (mut flow, first) = SetupFlow::begin(config(&dir)).unwrap();
    drive_to_backup_check(&mut flow, first);
    drop(flow);

    // A retried bootstrap starts from the schema reset: nothing of the
    // first attempt survives.
    let (flow, _) = SetupFlow::begin(config(&dir)).unwrap();
    let store = flow.into_store();
    assert!(store.get_session().unwrap().is_none());
    assert_eq!(store.get_recovery_secret().unwrap(), None);
    assert_eq!(store.get_cursor().unwrap(), None);
}

#[test]
fn persistence_failure_turns_into_rollback_logout() {
    let dir = tempfile::TempDir::new().unwrap();
    let (mut flow, _) = SetupFlow::begin(config(&dir)).unwrap();
    flow.step(SetupEvent::PurgeDone).unwrap();
    flow.step(SetupEvent::ClientBuilt).unwrap();
    flow.step(SetupEvent::LoginOk).unwrap();

    // Occupy the singleton session row behind the machine's back, so its own
    // write of the session row fails.
    flow.store.put_session("other", "other", "other").unwrap();

    let a = flow
        .step(SetupEvent::SessionInfo {
            homeserver_url: "hs".to_string(),
            session_blob: "blob".to_string(),
        })
        .unwrap();
    assert_eq!(a, SetupAction::Logout);
    let end = flow.step(SetupEvent::LogoutDone);
    assert_eq!(end, None);
    assert_eq!(flow.outcome(), Some(Err(SetupError::Persistence)));
}
