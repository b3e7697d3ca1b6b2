use r_shell::editor::identity::{hash_bytes, session_id_for};
use r_shell::editor::launch::LaunchStage;
use r_shell::editor::open::{open_in_external_editor, OpenEditor, OpenInput, OpenStage};
use r_shell::editor::paths::PathStyle;
use r_shell::editor::registry::{
    close_external_editor_session, list_external_editor_sessions, EditSessionRegistry,
};
use r_shell::editor::sync::{SyncStage, SyncState};

fn open(registry: &mut EditSessionRegistry<u32>) -> OpenEditor {
    open_in_external_editor(
        registry,
        "/tmp",
        PathStyle::Unix,
        "c1".to_string(),
        "/etc/hosts".to_string(),
        "../hosts".to_string(),
        1,
    )
}

fn id() -> String {
    session_id_for("c1", "/etc/hosts")
}

fn sessions(registry: &EditSessionRegistry<u32>) -> usize {
    list_external_editor_sessions(registry).len()
}

/// Runs an opening up to the question whether the session was closed.
fn set_up(registry: &mut EditSessionRegistry<u32>) -> OpenEditor {
    let mut opening = open(registry);
    assert_eq!(opening.stage, OpenStage::CreateTempDir);
    opening.step(registry, OpenInput::TempDirCreated(Ok(())));
    assert_eq!(opening.stage, OpenStage::Download);
    opening.step(registry, OpenInput::Downloaded(Ok(3)));
    assert_eq!(opening.stage, OpenStage::ReadLocalFile);
    opening.step(registry, OpenInput::FileRead(Ok(b"one".to_vec())));
    assert_eq!(opening.stage, OpenStage::LaunchEditor { initial_hash: hash_bytes(b"one") });
    opening.step(registry, OpenInput::EditorLaunched(Ok(())));
    assert_eq!(opening.stage, OpenStage::CheckClosed { initial_hash: hash_bytes(b"one") });
    opening
}

#[test]
fn a_new_file_is_set_up_and_synced() {
    let mut registry = EditSessionRegistry::new();
    let mut opening = set_up(&mut registry);
    assert!(opening.sync_loop().is_none());
    opening.step(&mut registry, OpenInput::Closed(false));
    assert_eq!(opening.stage, OpenStage::StartSync { initial_hash: hash_bytes(b"one") });
    let sync = opening.sync_loop().expect("a loop");
    assert_eq!(sync.session_id, id());
    assert_eq!(sync.connection_id, "c1");
    assert_eq!(sync.remote_path, "/etc/hosts");
    assert_eq!(sync.file_name, "../hosts");
    assert_eq!(sync.temp_dir, format!("/tmp/r-shell-edit/{}-0", id()));
    assert_eq!(sync.local_path, format!("/tmp/r-shell-edit/{}-0/hosts", id()));
    assert_eq!(sync.state, SyncState::new(hash_bytes(b"one")));
    assert_eq!(sync.stage, SyncStage::Wait);
    opening.step(&mut registry, OpenInput::SyncStarted);
    assert_eq!(opening.stage, OpenStage::Done(Ok(id())));
    assert_eq!(sessions(&registry), 1);
}

#[test]
fn the_download_and_the_launch_use_the_local_path() {
    let mut registry = EditSessionRegistry::new();
    let opening = open(&mut registry);
    let download = opening.download();
    assert_eq!(download.connection_id, "c1");
    assert_eq!(download.source(), "/etc/hosts");
    assert_eq!(download.destination(), format!("/tmp/r-shell-edit/{}-0/hosts", id()));
    let launch = opening.launch(true);
    assert_eq!(launch.local_path, format!("/tmp/r-shell-edit/{}-0/hosts", id()));
    assert!(launch.macos);
    assert_eq!(launch.stage, LaunchStage::FindMacCli);
}

#[test]
fn an_open_file_is_brought_to_the_front() {
    let mut registry = EditSessionRegistry::new();
    open(&mut registry);
    let mut again = open(&mut registry);
    assert_eq!(again.stage, OpenStage::CheckLocalFile);
    assert_eq!(again.session_id, id());
    assert_eq!(again.local_path, format!("/tmp/r-shell-edit/{}-0/hosts", id()));
    assert_eq!(again.temp_dir, None);
    again.step(&mut registry, OpenInput::LocalFileExists(true));
    assert_eq!(again.stage, OpenStage::Refocus);
    again.step(&mut registry, OpenInput::EditorLaunched(Ok(())));
    assert_eq!(again.stage, OpenStage::Done(Ok(id())));
    assert_eq!(sessions(&registry), 1);
}

#[test]
fn a_file_that_is_still_downloading_is_left_alone() {
    let mut registry = EditSessionRegistry::new();
    open(&mut registry);
    let mut again = open(&mut registry);
    again.step(&mut registry, OpenInput::LocalFileExists(false));
    assert_eq!(again.stage, OpenStage::Done(Ok(id())));
}

#[test]
fn bringing_to_the_front_may_fail_and_keeps_the_session() {
    let mut registry = EditSessionRegistry::new();
    open(&mut registry);
    let mut again = open(&mut registry);
    again.step(&mut registry, OpenInput::LocalFileExists(true));
    again.step(&mut registry, OpenInput::EditorLaunched(Err("no editor".to_string())));
    assert_eq!(again.stage, OpenStage::Done(Err("no editor".to_string())));
    assert_eq!(sessions(&registry), 1);
}

/// Expects that the input takes the opening back with the error.
fn expect_roll_back(
    registry: &mut EditSessionRegistry<u32>,
    opening: &mut OpenEditor,
    input: OpenInput,
    error: &str,
) {
    assert_eq!(sessions(registry), 1);
    opening.step(registry, input);
    assert_eq!(opening.stage, OpenStage::RollBack { error: error.to_string() });
    assert_eq!(sessions(registry), 0);
    opening.step(registry, OpenInput::TempDirRemoved);
    assert_eq!(opening.stage, OpenStage::Done(Err(error.to_string())));
}

#[test]
fn a_failed_directory_is_rolled_back() {
    let mut registry = EditSessionRegistry::new();
    let mut opening = open(&mut registry);
    let input = OpenInput::TempDirCreated(Err("disk full".to_string()));
    expect_roll_back(&mut registry, &mut opening, input, "Failed to create temp dir: disk full");
}

#[test]
fn a_failed_download_is_rolled_back() {
    let mut registry = EditSessionRegistry::new();
    let mut opening = open(&mut registry);
    opening.step(&mut registry, OpenInput::TempDirCreated(Ok(())));
    let input = OpenInput::Downloaded(Err("SFTP connection not found".to_string()));
    expect_roll_back(&mut registry, &mut opening, input, "SFTP connection not found");
}

#[test]
fn a_failed_read_is_rolled_back() {
    let mut registry = EditSessionRegistry::new();
    let mut opening = open(&mut registry);
    opening.step(&mut registry, OpenInput::TempDirCreated(Ok(())));
    opening.step(&mut registry, OpenInput::Downloaded(Ok(3)));
    let input = OpenInput::FileRead(Err("gone".to_string()));
    expect_roll_back(&mut registry, &mut opening, input, "Failed to read downloaded file: gone");
}

#[test]
fn a_failed_launch_is_rolled_back() {
    let mut registry = EditSessionRegistry::new();
    let mut opening = open(&mut registry);
    opening.step(&mut registry, OpenInput::TempDirCreated(Ok(())));
    opening.step(&mut registry, OpenInput::Downloaded(Ok(3)));
    opening.step(&mut registry, OpenInput::FileRead(Ok(b"one".to_vec())));
    let input = OpenInput::EditorLaunched(Err("no editor".to_string()));
    expect_roll_back(&mut registry, &mut opening, input, "no editor");
}

#[test]
fn a_session_closed_during_setup_is_discarded() {
    let mut registry = EditSessionRegistry::new();
    let mut opening = set_up(&mut registry);
    assert_eq!(close_external_editor_session(&mut registry, &id()), Some(1));
    opening.step(&mut registry, OpenInput::Closed(true));
    assert_eq!(opening.stage, OpenStage::Discard);
    opening.step(&mut registry, OpenInput::TempDirRemoved);
    assert_eq!(opening.stage, OpenStage::Done(Ok(id())));
    assert_eq!(sessions(&registry), 0);
}

#[test]
fn a_failing_opening_leaves_a_reopened_session_alone() {
    let mut registry = EditSessionRegistry::new();
    let mut first = open(&mut registry);
    first.step(&mut registry, OpenInput::TempDirCreated(Ok(())));
    assert_eq!(close_external_editor_session(&mut registry, &id()), Some(1));
    let second = open(&mut registry);
    assert_eq!(second.stage, OpenStage::CreateTempDir);
    first.step(&mut registry, OpenInput::Downloaded(Err("offline".to_string())));
    assert_eq!(first.stage, OpenStage::RollBack { error: "offline".to_string() });
    first.step(&mut registry, OpenInput::TempDirRemoved);
    assert_eq!(first.stage, OpenStage::Done(Err("offline".to_string())));
    let listed = list_external_editor_sessions(&registry);
    assert_eq!(listed.len(), 1);
    assert_eq!(listed[0].local_path, second.local_path);
    assert_eq!(close_external_editor_session(&mut registry, &id()), Some(1));
}

#[test]
fn an_answer_out_of_place_is_ignored() {
    let mut registry = EditSessionRegistry::new();
    let mut opening = open(&mut registry);
    opening.step(&mut registry, OpenInput::Downloaded(Err("early".to_string())));
    opening.step(&mut registry, OpenInput::SyncStarted);
    assert_eq!(opening.stage, OpenStage::CreateTempDir);
    assert_eq!(sessions(&registry), 1);
}
