//! Tests of the resume path and the sync cursor manager.

use matrixbot_ezlogin::{
    login, SQLiteHelper, StoreError, SyncHelper, SyncResponse, SyncSettings, LoopCtrl,
};

fn db_file(dir: &tempfile::TempDir) -> String {
    format!("{}/matrixbot-ezlogin.sqlite3", dir.path().to_str().unwrap())
}

fn data_dir(dir: &tempfile::TempDir) -> &str {
    dir.path().to_str().unwrap()
}

/// Lays down a finished bootstrap's row set and closes the store.
fn seeded_dir(cursor: Option<&str>) -> tempfile::TempDir {
    let dir = tempfile::TempDir::new().unwrap();
    let mut store = SQLiteHelper::open(&db_file(&dir), true).unwrap();
    store.reset_schema().unwrap();
    store
        .put_session("https://hs.example.org", "storage-pass", "{\"blob\":true}")
        .unwrap();
    store.put_recovery_secret("EsTk seed").unwrap();
    if let Some(tok) = cursor {
        store.put_cursor(tok).unwrap();
    }
    store.close();
    dir
}

#[test]
fn login_returns_saved_session() {
    let dir = seeded_dir(Some("batch-42"));
    let (record, sync) = login(data_dir(&dir)).unwrap();
    assert_eq!(record.homeserver, "https://hs.example.org");
    assert_eq!(record.passphrase, "storage-pass");
    assert_eq!(record.session_blob, "{\"blob\":true}");
    assert_eq!(sync.get_sync_token(), Some("batch-42".to_string()));
}

#[test]
fn login_without_setup_reports_no_session() {
    let dir = tempfile::TempDir::new().unwrap();
    let mut store = SQLiteHelper::open(&db_file(&dir), true).unwrap();
    store.reset_schema().unwrap();
    store.close();

    assert!(matches!(login(data_dir(&dir)), Err(StoreError::NoSessionFound)));
}

#[test]
fn login_without_database_fails() {
    let dir = tempfile::TempDir::new().unwrap();
    assert!(matches!(
        login(data_dir(&dir)),
        Err(StoreError::Persistence { .. })
    ));
}

#[test]
fn sync_token_round_trip() {
    let dir = seeded_dir(None);
    let mut sync = SyncHelper::new(data_dir(&dir)).unwrap();
    assert_eq!(sync.get_sync_token(), None);

    sync.set_sync_token("t1".to_string()).unwrap();
    assert_eq!(sync.get_sync_token(), Some("t1".to_string()));

    sync.set_sync_token("t2".to_string()).unwrap();
    assert_eq!(sync.get_sync_token(), Some("t2".to_string()));
}

#[test]
fn sync_token_is_durable_before_it_is_visible() {
    // What get_sync_token shows is already committed: after a simulated
    // crash (drop without close), a fresh manager reads the same token.
    let dir = seeded_dir(None);
    let mut sync = SyncHelper::new(data_dir(&dir)).unwrap();
    sync.set_sync_token("t1".to_string()).unwrap();
    sync.set_sync_token("t2".to_string()).unwrap();
    drop(sync);

    let sync = SyncHelper::new(data_dir(&dir)).unwrap();
    assert_eq!(sync.get_sync_token(), Some("t2".to_string()));
}

#[test]
fn process_sync_response_persists_then_continues() {
    let dir = seeded_dir(None);
    let mut sync = SyncHelper::new(data_dir(&dir)).unwrap();
    let response = SyncResponse { next_batch: "batch-7".to_string() };
    let ctrl = sync.process_sync_response(&response).unwrap();
    assert_eq!(ctrl, LoopCtrl::Continue);
    assert_eq!(sync.get_sync_token(), Some("batch-7".to_string()));

    drop(sync);
    let sync = SyncHelper::new(data_dir(&dir)).unwrap();
    assert_eq!(sync.get_sync_token(), Some("batch-7".to_string()));
}

#[test]
fn process_sync_settings_stamps_known_cursor() {
    let dir = seeded_dir(Some("resume-here"));
    let sync = SyncHelper::new(data_dir(&dir)).unwrap();

    // A saved cursor overrides whatever the request carried.
    let out = sync.process_sync_settings(SyncSettings { token: None });
    assert_eq!(out.token, Some("resume-here".to_string()));
    let out = sync.process_sync_settings(SyncSettings { token: Some("stale".to_string()) });
    assert_eq!(out.token, Some("resume-here".to_string()));
}

#[test]
fn process_sync_settings_without_cursor_keeps_request() {
    // First request after a fresh bootstrap: no cursor, the request is
    // passed through so the server chooses the starting point.
    let dir = seeded_dir(None);
    let sync = SyncHelper::new(data_dir(&dir)).unwrap();
    let out = sync.process_sync_settings(SyncSettings { token: None });
    assert_eq!(out.token, None);
    let out = sync.process_sync_settings(SyncSettings { token: Some("kept".to_string()) });
    assert_eq!(out.token, Some("kept".to_string()));
}

#[test]
fn sync_helper_never_creates_a_database() {
    let dir = tempfile::TempDir::new().unwrap();
    assert!(matches!(
        SyncHelper::new(data_dir(&dir)),
        Err(StoreError::Persistence { .. })
    ));
}

#[test]
fn sync_helper_holds_the_exclusive_lock() {
    let dir = seeded_dir(Some("tok"));
    let sync = SyncHelper::new(data_dir(&dir)).unwrap();

    // While the manager lives, no second handle can open the store.
    assert!(matches!(
        SQLiteHelper::open(&db_file(&dir), false),
        Err(StoreError::Persistence { .. })
    ));
    assert_eq!(sync.get_sync_token(), Some("tok".to_string()));
}

#[test]
fn session_or_error_decides_resume() {
    let rec = matrixbot_ezlogin::SessionRecord {
        homeserver: "hs".to_string(),
        passphrase: "pp".to_string(),
        session_blob: "blob".to_string(),
    };
    match matrixbot_ezlogin::session_or_error(Some(rec)) {
        Ok(out) => {
            assert_eq!(out.homeserver, "hs");
            assert_eq!(out.passphrase, "pp");
            assert_eq!(out.session_blob, "blob");
        }
        Err(e) => panic!("expected the loaded row back, got {:?}", e),
    }
    assert!(matches!(
        matrixbot_ezlogin::session_or_error(None),
        Err(StoreError::NoSessionFound)
    ));
}
