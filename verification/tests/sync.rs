use r_shell::editor::identity::hash_bytes;
use r_shell::editor::sync::{
    SyncErrorEvent, SyncEvent, SyncInput, SyncLoop, SyncNotice, SyncStage, SyncState,
    ERROR_BACKOFF_TICKS, POLL_INTERVAL_MS,
};
use r_shell::editor::transfer::Direction;

fn start(content: &[u8]) -> SyncLoop {
    SyncLoop::new(
        "id".to_string(),
        "c1".to_string(),
        "/etc/hosts".to_string(),
        "hosts".to_string(),
        "/tmp/r-shell-edit/id-0/hosts".to_string(),
        "/tmp/r-shell-edit/id-0".to_string(),
        hash_bytes(content),
    )
}

/// Polls once, and answers an upload with the given result: what was told, if it was tried.
fn poll(
    sync: &mut SyncLoop,
    content: &[u8],
    result: Result<u64, &str>,
) -> Option<Option<SyncNotice>> {
    assert_eq!(sync.step(SyncInput::Tick), None);
    assert_eq!(sync.stage, SyncStage::ReadFile);
    assert_eq!(sync.step(SyncInput::FileRead(Some(content.to_vec()))), None);
    if sync.stage == SyncStage::Wait {
        return None;
    }
    assert_eq!(sync.stage, SyncStage::Upload { hash: hash_bytes(content) });
    let notice = sync.step(SyncInput::Uploaded(result.map_err(|e| e.to_string())));
    assert_eq!(sync.stage, SyncStage::Wait);
    Some(notice)
}

fn synced(bytes: u64) -> Option<Option<SyncNotice>> {
    Some(Some(SyncNotice::Synced(SyncEvent {
        session_id: "id".to_string(),
        file_name: "hosts".to_string(),
        remote_path: "/etc/hosts".to_string(),
        bytes,
    })))
}

fn failed(error: &str) -> Option<Option<SyncNotice>> {
    Some(Some(SyncNotice::Failed(SyncErrorEvent {
        session_id: "id".to_string(),
        file_name: "hosts".to_string(),
        error: error.to_string(),
    })))
}

#[test]
fn polls_once_a_second_and_backs_off_four_polls() {
    assert_eq!(POLL_INTERVAL_MS, 1000);
    assert_eq!(ERROR_BACKOFF_TICKS, 4);
}

#[test]
fn a_loop_starts_on_the_downloaded_content() {
    let sync = start(b"one");
    assert_eq!(sync.state, SyncState::new(hash_bytes(b"one")));
    assert_eq!(sync.state.failing, None);
    assert_eq!(sync.state.backoff, 0);
    assert_eq!(sync.stage, SyncStage::Wait);
}

#[test]
fn unchanged_content_is_not_uploaded() {
    let mut sync = start(b"one");
    for _ in 0..10 {
        assert_eq!(poll(&mut sync, b"one", Ok(3)), None);
    }
}

#[test]
fn every_save_is_uploaded_once() {
    let mut sync = start(b"one");
    assert_eq!(poll(&mut sync, b"two", Ok(3)), synced(3));
    assert_eq!(poll(&mut sync, b"two", Ok(3)), None);
    assert_eq!(poll(&mut sync, b"three", Ok(5)), synced(5));
    assert_eq!(poll(&mut sync, b"one", Ok(3)), synced(3));
}

#[test]
fn an_absent_file_is_waited_for() {
    let mut sync = start(b"one");
    sync.step(SyncInput::Tick);
    assert_eq!(sync.step(SyncInput::FileRead(None)), None);
    assert_eq!(sync.stage, SyncStage::Wait);
    assert_eq!(sync.state, SyncState::new(hash_bytes(b"one")));
}

#[test]
fn a_failing_save_is_retried_every_fifth_poll_and_told_once() {
    let mut sync = start(b"one");
    for n in 0..23 {
        let expected = if n == 0 {
            failed("offline")
        } else if n % 5 == 0 {
            Some(None)
        } else {
            None
        };
        assert_eq!(poll(&mut sync, b"two", Err("offline")), expected);
    }
}

#[test]
fn a_failing_save_recovers_by_itself() {
    let mut sync = start(b"one");
    assert_eq!(poll(&mut sync, b"two", Err("offline")), failed("offline"));
    for _ in 0..4 {
        assert_eq!(poll(&mut sync, b"two", Ok(3)), None);
    }
    assert_eq!(poll(&mut sync, b"two", Ok(3)), synced(3));
    assert_eq!(poll(&mut sync, b"two", Ok(3)), None);
}

#[test]
fn a_new_save_does_not_wait_for_the_backoff() {
    let mut sync = start(b"one");
    assert_eq!(poll(&mut sync, b"two", Err("offline")), failed("offline"));
    assert_eq!(poll(&mut sync, b"three", Err("still offline")), failed("still offline"));
    assert_eq!(sync.state.failing, Some(hash_bytes(b"three")));
    assert_eq!(sync.state.backoff, 4);
    assert_eq!(poll(&mut sync, b"two", Err("offline")), failed("offline"));
}

#[test]
fn going_back_to_the_synced_content_clears_the_failure() {
    let mut sync = start(b"one");
    assert_eq!(poll(&mut sync, b"two", Err("offline")), failed("offline"));
    assert_eq!(poll(&mut sync, b"one", Ok(3)), None);
    assert_eq!(sync.state, SyncState::new(hash_bytes(b"one")));
    assert_eq!(poll(&mut sync, b"two", Err("offline")), failed("offline"));
}

#[test]
fn an_absent_file_does_not_use_up_the_backoff() {
    let mut sync = start(b"one");
    assert_eq!(poll(&mut sync, b"two", Err("offline")), failed("offline"));
    sync.step(SyncInput::Tick);
    sync.step(SyncInput::FileRead(None));
    assert_eq!(sync.state.backoff, 4);
}

#[test]
fn a_closed_session_removes_its_directory_and_stops() {
    let mut sync = start(b"one");
    assert_eq!(sync.step(SyncInput::Cancelled), None);
    assert_eq!(sync.stage, SyncStage::RemoveTempDir);
    sync.step(SyncInput::Tick);
    assert_eq!(sync.stage, SyncStage::RemoveTempDir);
    sync.step(SyncInput::TempDirRemoved);
    assert_eq!(sync.stage, SyncStage::Stopped);
    sync.step(SyncInput::Tick);
    assert_eq!(sync.stage, SyncStage::Stopped);
}

#[test]
fn an_input_out_of_place_changes_nothing() {
    let mut sync = start(b"one");
    assert_eq!(sync.step(SyncInput::Uploaded(Ok(3))), None);
    assert_eq!(sync.step(SyncInput::FileRead(Some(b"two".to_vec()))), None);
    assert_eq!(sync.stage, SyncStage::Wait);
    assert_eq!(sync.state, SyncState::new(hash_bytes(b"one")));
}

#[test]
fn the_upload_goes_from_the_local_to_the_remote_path() {
    let upload = start(b"one").upload();
    assert_eq!(upload.direction, Direction::Upload);
    assert_eq!(upload.connection_id, "c1");
    assert_eq!(upload.source(), "/tmp/r-shell-edit/id-0/hosts");
    assert_eq!(upload.destination(), "/etc/hosts");
}

#[test]
fn states_decide_by_hashes_alone() {
    let mut state = SyncState::new(1);
    assert!(!state.poll(1));
    assert!(state.poll(2));
    assert!(state.upload_failed(2));
    assert!(!state.poll(2));
    assert_eq!(state.backoff, 3);
    assert!(!state.upload_failed(2));
    state.uploaded(2);
    assert_eq!(state, SyncState::new(2));
}

#[test]
fn notices_go_out_under_their_names() {
    let mut sync = start(b"one");
    let told = poll(&mut sync, b"two", Ok(3)).flatten().expect("a notice");
    assert_eq!(told.event_name(), "editor-sync");
    let told = poll(&mut sync, b"three", Err("offline")).flatten().expect("a notice");
    assert_eq!(told.event_name(), "editor-sync-error");
}

#[test]
fn unreadable_polls_do_not_shorten_the_backoff() {
    let mut sync = start(b"one");
    assert_eq!(poll(&mut sync, b"two", Err("offline")), failed("offline"));
    for _ in 0..4 {
        sync.step(SyncInput::Tick);
        sync.step(SyncInput::FileRead(None));
        assert_eq!(poll(&mut sync, b"two", Err("offline")), None);
    }
    assert_eq!(poll(&mut sync, b"two", Err("offline")), Some(None));
}
