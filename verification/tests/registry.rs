use r_shell::editor::identity::session_id_for;
use r_shell::editor::paths::PathStyle;
use r_shell::editor::registry::{
    close_external_editor_session, list_external_editor_sessions, EditSessionInfo,
    EditSessionRegistry, Reservation,
};

fn reserve(registry: &mut EditSessionRegistry<u32>, path: &str, cancel: u32) -> Reservation {
    registry.reserve(
        "/tmp",
        PathStyle::Unix,
        "c1".to_string(),
        path.to_string(),
        "hosts".to_string(),
        cancel,
    )
}

fn created(path: &str, instance: u32) -> Reservation {
    let session_id = session_id_for("c1", path);
    let temp_dir = format!("/tmp/r-shell-edit/{}-{}", session_id, instance);
    let local_path = format!("{}/hosts", temp_dir);
    Reservation::Created { session_id, temp_dir, local_path }
}

fn existing(path: &str, instance: u32) -> Reservation {
    let session_id = session_id_for("c1", path);
    let local_path = format!("/tmp/r-shell-edit/{}-{}/hosts", session_id, instance);
    Reservation::Existing { session_id, local_path }
}

fn info(path: &str, instance: u32) -> EditSessionInfo {
    let session_id = session_id_for("c1", path);
    EditSessionInfo {
        local_path: format!("/tmp/r-shell-edit/{}-{}/hosts", session_id, instance),
        session_id,
        connection_id: "c1".to_string(),
        remote_path: path.to_string(),
        file_name: "hosts".to_string(),
    }
}

fn sorted(mut infos: Vec<EditSessionInfo>) -> Vec<EditSessionInfo> {
    infos.sort_by(|a, b| a.session_id.cmp(&b.session_id));
    infos
}

#[test]
fn a_new_registry_is_empty() {
    assert_eq!(list_external_editor_sessions(&EditSessionRegistry::<u32>::new()), vec![]);
    assert_eq!(list_external_editor_sessions(&EditSessionRegistry::<u32>::default()), vec![]);
}

#[test]
fn a_session_is_registered_once() {
    let mut registry = EditSessionRegistry::new();
    assert_eq!(reserve(&mut registry, "/etc/hosts", 7), created("/etc/hosts", 0));
    assert_eq!(reserve(&mut registry, "/etc/hosts", 8), existing("/etc/hosts", 0));
    assert_eq!(list_external_editor_sessions(&registry), vec![info("/etc/hosts", 0)]);
}

#[test]
fn every_open_uses_up_an_instance() {
    let mut registry = EditSessionRegistry::new();
    reserve(&mut registry, "/a", 1);
    reserve(&mut registry, "/a", 2);
    reserve(&mut registry, "/a", 3);
    assert_eq!(reserve(&mut registry, "/b", 4), created("/b", 3));
}

#[test]
fn reopening_uses_a_new_directory() {
    let mut registry = EditSessionRegistry::new();
    assert_eq!(reserve(&mut registry, "/a", 1), created("/a", 0));
    assert_eq!(close_external_editor_session(&mut registry, &session_id_for("c1", "/a")), Some(1));
    assert_eq!(reserve(&mut registry, "/a", 2), created("/a", 1));
}

#[test]
fn closing_hands_over_what_stops_the_loop() {
    let mut registry = EditSessionRegistry::new();
    for (path, cancel) in [("/a", 1), ("/b", 2), ("/c", 3)] {
        reserve(&mut registry, path, cancel);
    }
    let id = session_id_for("c1", "/b");
    assert_eq!(close_external_editor_session(&mut registry, &id), Some(2));
    assert_eq!(close_external_editor_session(&mut registry, &id), None);
    assert_eq!(
        sorted(list_external_editor_sessions(&registry)),
        sorted(vec![info("/a", 0), info("/c", 2)])
    );
}

#[test]
fn closing_an_unknown_session_changes_nothing() {
    let mut registry = EditSessionRegistry::new();
    reserve(&mut registry, "/a", 1);
    assert_eq!(close_external_editor_session(&mut registry, "no such id"), None);
    assert_eq!(list_external_editor_sessions(&registry), vec![info("/a", 0)]);
}

#[test]
fn closing_undoes_creating() {
    let mut registry = EditSessionRegistry::new();
    reserve(&mut registry, "/a", 1);
    reserve(&mut registry, "/b", 2);
    close_external_editor_session(&mut registry, &session_id_for("c1", "/b"));
    assert_eq!(list_external_editor_sessions(&registry), vec![info("/a", 0)]);
}

#[test]
fn all_sessions_are_listed() {
    let mut registry = EditSessionRegistry::new();
    let paths = ["/a", "/b", "/c", "/d"];
    let mut expected = Vec::new();
    for (i, path) in paths.iter().enumerate() {
        reserve(&mut registry, path, 0);
        expected.push(info(path, i as u32));
    }
    assert_eq!(sorted(list_external_editor_sessions(&registry)), sorted(expected));
}

#[test]
fn removing_returns_the_session() {
    let mut registry = EditSessionRegistry::new();
    reserve(&mut registry, "/a", 9);
    let id = session_id_for("c1", "/a");
    let session = registry.remove(&id).expect("a session");
    assert_eq!(session.connection_id, "c1");
    assert_eq!(session.remote_path, "/a");
    assert_eq!(session.temp_dir, format!("/tmp/r-shell-edit/{}-0", id));
    assert_eq!(session.cancel, 9);
    assert!(registry.remove(&id).is_none());
}

#[test]
fn infos_can_be_cloned() {
    assert_eq!(info("/a", 0).clone(), info("/a", 0));
}

#[test]
fn only_the_own_session_is_taken_back() {
    let mut registry = EditSessionRegistry::new();
    reserve(&mut registry, "/a", 1);
    let id = session_id_for("c1", "/a");
    registry.take_back(&id, &format!("/tmp/r-shell-edit/{}-1", id));
    registry.take_back("no such id", &format!("/tmp/r-shell-edit/{}-0", id));
    assert_eq!(list_external_editor_sessions(&registry), vec![info("/a", 0)]);
    registry.take_back(&id, &format!("/tmp/r-shell-edit/{}-0", id));
    assert_eq!(list_external_editor_sessions(&registry), vec![]);
}

#[test]
fn opens_of_different_files_have_different_directories() {
    let mut registry = EditSessionRegistry::new();
    let mut dirs = Vec::new();
    for path in ["/a", "/b", "/c"] {
        match reserve(&mut registry, path, 0) {
            Reservation::Created { temp_dir, .. } => dirs.push(temp_dir),
            Reservation::Existing { .. } => panic!("no session yet"),
        }
    }
    assert_ne!(dirs[0], dirs[1]);
    assert_ne!(dirs[0], dirs[2]);
    assert_ne!(dirs[1], dirs[2]);
}
