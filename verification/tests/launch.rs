use r_shell::editor::launch::{mac_cli_path, spawn_vscode, Launch, LaunchInput, LaunchStage};

const FILE: &str = "/tmp/r-shell-edit/id-0/hosts";

fn launch(macos: bool) -> Launch {
    spawn_vscode(FILE.to_string(), macos)
}

fn command(launch: &Launch) -> (String, Vec<String>) {
    let command = launch.command().expect("a command");
    (command.program, command.args)
}

fn failed(error: &str) -> LaunchInput {
    LaunchInput::Spawned(Err(error.to_string()))
}

#[test]
fn the_tool_of_the_application_comes_first() {
    let mut launch = launch(true);
    assert_eq!(launch.stage, LaunchStage::FindMacCli);
    assert_eq!(launch.command(), None);
    launch.step(LaunchInput::Exists(true));
    assert_eq!(
        command(&launch),
        (
            "/Applications/Visual Studio Code.app/Contents/Resources/app/bin/code".to_string(),
            vec![FILE.to_string()]
        )
    );
    assert_eq!(command(&launch).0, mac_cli_path());
    launch.step(LaunchInput::Spawned(Ok(())));
    assert_eq!(launch.stage, LaunchStage::Done(Ok(())));
    assert_eq!(launch.command(), None);
}

#[test]
fn code_is_tried_where_the_tool_of_the_application_does_not_start() {
    let mut launch = launch(true);
    launch.step(LaunchInput::Exists(true));
    launch.step(failed("denied"));
    assert_eq!(command(&launch), ("code".to_string(), vec![FILE.to_string()]));
    launch.step(LaunchInput::Spawned(Ok(())));
    assert_eq!(launch.stage, LaunchStage::Done(Ok(())));
}

#[test]
fn all_launchers_are_tried_before_a_launch_fails() {
    let mut launch = launch(true);
    launch.step(LaunchInput::Exists(true));
    for stage in [LaunchStage::RunMacCli, LaunchStage::RunCode, LaunchStage::RunOpen] {
        assert_eq!(launch.stage, stage);
        launch.step(failed("denied"));
    }
    assert_eq!(
        launch.stage,
        LaunchStage::Done(Err("Failed to open in VS Code: denied".to_string()))
    );
}

#[test]
fn code_on_the_path_comes_second() {
    let mut launch = launch(false);
    launch.step(LaunchInput::Exists(false));
    assert_eq!(command(&launch), ("code".to_string(), vec![FILE.to_string()]));
    launch.step(LaunchInput::Spawned(Ok(())));
    assert_eq!(launch.stage, LaunchStage::Done(Ok(())));
}

#[test]
fn open_comes_last_on_macos() {
    let mut launch = launch(true);
    launch.step(LaunchInput::Exists(false));
    launch.step(failed("not found"));
    assert_eq!(
        command(&launch),
        (
            "open".to_string(),
            vec!["-a".to_string(), "Visual Studio Code".to_string(), FILE.to_string()]
        )
    );
    launch.step(failed("denied"));
    assert_eq!(
        launch.stage,
        LaunchStage::Done(Err("Failed to open in VS Code: denied".to_string()))
    );
}

#[test]
fn open_may_succeed() {
    let mut launch = launch(true);
    launch.step(LaunchInput::Exists(false));
    launch.step(failed("not found"));
    launch.step(LaunchInput::Spawned(Ok(())));
    assert_eq!(launch.stage, LaunchStage::Done(Ok(())));
}

#[test]
fn elsewhere_there_is_nothing_after_code() {
    let mut launch = launch(false);
    launch.step(LaunchInput::Exists(false));
    launch.step(failed("not found"));
    assert_eq!(
        launch.stage,
        LaunchStage::Done(Err(
            "VS Code executable not found. Ensure `code` is on your PATH.".to_string()
        ))
    );
}
