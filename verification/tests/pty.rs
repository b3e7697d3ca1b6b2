use r_shell::local_pty::input::{InputEvent, InputPump, InputStage};
use r_shell::local_pty::output::{OutputInput, OutputPump, OutputStage};
use r_shell::local_pty::session::{
    create_local_pty_session, plan_local_pty_session, pty_dimensions, PtyDimensions, OUTPUT_CHUNK,
    OUTPUT_POLL_TIMEOUT_MS,
};
use r_shell::local_pty::shell::InstalledShells;
use r_shell::local_pty::supervisor::{Supervisor, SupervisorEvent, SupervisorStage};

fn size(cols: u16, rows: u16) -> PtyDimensions {
    PtyDimensions { rows, cols, pixel_width: 0, pixel_height: 0 }
}

#[test]
fn ordinary_sizes_are_kept() {
    assert_eq!(pty_dimensions(80, 24), size(80, 24));
    assert_eq!(pty_dimensions(65535, 0), size(65535, 0));
}

#[test]
fn large_sizes_lose_their_high_bits() {
    assert_eq!(pty_dimensions(65536, 65537), size(0, 1));
    assert_eq!(pty_dimensions(u32::MAX, 0x0012_0034), size(65535, 0x34));
}

#[test]
fn a_session_is_planned() {
    let plan = plan_local_pty_session(80, 24, "/bin/zsh".to_string(), Some("/work"));
    assert_eq!(plan.size, size(80, 24));
    assert_eq!(plan.command.program, "/bin/zsh");
    assert_eq!(plan.command.term, "xterm-256color");
    assert_eq!(plan.command.cwd, Some("/work"));
    assert_eq!(plan.input_capacity, 1000);
    assert_eq!(plan.output_capacity, 128);
    assert_eq!(plan.resize_capacity, 16);
    assert_eq!(OUTPUT_POLL_TIMEOUT_MS, 200);
    assert_eq!(OUTPUT_CHUNK, 8192);
}

#[test]
fn a_session_may_have_no_start_directory() {
    let plan = plan_local_pty_session::<String>(1, 1, "/bin/sh".to_string(), None);
    assert_eq!(plan.command.cwd, None);
}

#[test]
fn a_session_picks_its_shell_and_its_directory() {
    let installed = InstalledShells { zsh: false, bash: true, sh: true };
    let root = std::path::PathBuf::from("/");
    let plan = create_local_pty_session(120, 40, Some(root.clone()), true, None, installed);
    assert_eq!(plan.size, size(120, 40));
    assert_eq!(plan.command.program, "/bin/bash");
    assert_eq!(plan.command.term, "xterm-256color");
    assert_eq!(plan.command.cwd, Some(root.clone()));
    let shell = Some("/opt/fish".to_string());
    let plan = create_local_pty_session(120, 40, Some(root), false, shell, installed);
    assert_eq!(plan.command.program, "/opt/fish");
    assert_eq!(plan.command.cwd, dirs::home_dir());
}

fn polled(ready: i32, interrupted: bool) -> OutputInput {
    OutputInput::Polled { ready, interrupted }
}

fn reading() -> OutputPump {
    let mut pump = OutputPump::new(true);
    assert_eq!(pump.stage, OutputStage::CheckCancelled);
    pump.step(OutputInput::Cancelled(false));
    assert_eq!(pump.stage, OutputStage::Poll);
    pump.step(polled(1, false));
    assert_eq!(pump.stage, OutputStage::Read);
    pump
}

#[test]
fn output_is_read_and_sent() {
    let mut pump = reading();
    pump.step(OutputInput::Read(Some(b"hello".to_vec())));
    assert_eq!(pump.stage, OutputStage::Send(b"hello".to_vec()));
    pump.step(OutputInput::Sent(true));
    assert_eq!(pump.stage, OutputStage::CheckCancelled);
}

#[test]
fn output_stops_at_its_end() {
    let mut pump = reading();
    pump.step(OutputInput::Read(Some(Vec::new())));
    assert_eq!(pump.stage, OutputStage::Stopped);
}

#[test]
fn output_stops_on_a_failed_read() {
    let mut pump = reading();
    pump.step(OutputInput::Read(None));
    assert_eq!(pump.stage, OutputStage::Stopped);
}

#[test]
fn output_stops_where_no_one_takes_it() {
    let mut pump = reading();
    pump.step(OutputInput::Read(Some(b"x".to_vec())));
    pump.step(OutputInput::Sent(false));
    assert_eq!(pump.stage, OutputStage::Stopped);
}

#[test]
fn output_stops_when_cancelled() {
    let mut pump = OutputPump::new(true);
    pump.step(OutputInput::Cancelled(true));
    assert_eq!(pump.stage, OutputStage::Stopped);
}

#[test]
fn output_checks_again_after_a_timeout_or_an_interruption() {
    for (ready, interrupted) in [(0, false), (-1, true)] {
        let mut pump = OutputPump::new(true);
        pump.step(OutputInput::Cancelled(false));
        pump.step(polled(ready, interrupted));
        assert_eq!(pump.stage, OutputStage::CheckCancelled);
    }
}

#[test]
fn output_stops_on_a_failed_poll() {
    let mut pump = OutputPump::new(true);
    pump.step(OutputInput::Cancelled(false));
    pump.step(polled(-1, false));
    assert_eq!(pump.stage, OutputStage::Stopped);
}

#[test]
fn output_without_poll_only_reads_and_sends() {
    let mut pump = OutputPump::new(false);
    assert_eq!(pump.stage, OutputStage::Read);
    pump.step(OutputInput::Read(Some(b"x".to_vec())));
    pump.step(OutputInput::Sent(true));
    assert_eq!(pump.stage, OutputStage::Read);
}

#[test]
fn input_is_written_and_flushed() {
    let mut pump = InputPump::new();
    assert_eq!(pump.stage, InputStage::Receive);
    pump.step(InputEvent::Received(Some(b"ls\n".to_vec())));
    assert_eq!(pump.stage, InputStage::Write(b"ls\n".to_vec()));
    pump.step(InputEvent::Written(true));
    assert_eq!(pump.stage, InputStage::Flush);
    pump.step(InputEvent::Flushed);
    assert_eq!(pump.stage, InputStage::Receive);
    pump.step(InputEvent::Received(None));
    assert_eq!(pump.stage, InputStage::Stopped);
}

#[test]
fn input_stops_on_a_failed_write() {
    let mut pump = InputPump::new();
    pump.step(InputEvent::Received(Some(Vec::new())));
    pump.step(InputEvent::Written(false));
    assert_eq!(pump.stage, InputStage::Stopped);
}

#[test]
fn a_size_is_passed_on() {
    let mut supervisor = Supervisor::new();
    supervisor.step(SupervisorEvent::SizeAsked { cols: 100, rows: 30 });
    assert_eq!(supervisor.stage, SupervisorStage::Resize(size(100, 30)));
    supervisor.step(SupervisorEvent::Resized);
    assert_eq!(supervisor.stage, SupervisorStage::Listen);
}

#[test]
fn the_shell_is_killed_and_reaped() {
    for end in [SupervisorEvent::Cancelled, SupervisorEvent::ChannelClosed] {
        let mut supervisor = Supervisor::new();
        supervisor.step(end);
        assert_eq!(supervisor.stage, SupervisorStage::Kill);
        supervisor.step(SupervisorEvent::SizeAsked { cols: 1, rows: 1 });
        assert_eq!(supervisor.stage, SupervisorStage::Kill);
        supervisor.step(SupervisorEvent::Killed);
        assert_eq!(supervisor.stage, SupervisorStage::Reap);
        supervisor.step(SupervisorEvent::Reaped);
        assert_eq!(supervisor.stage, SupervisorStage::Stopped);
    }
}

#[test]
fn an_ended_shell_is_not_killed_again() {
    let mut supervisor = Supervisor::new();
    for event in [SupervisorEvent::Cancelled, SupervisorEvent::Killed, SupervisorEvent::Reaped] {
        supervisor.step(event);
    }
    for event in [
        SupervisorEvent::Cancelled,
        SupervisorEvent::ChannelClosed,
        SupervisorEvent::Killed,
        SupervisorEvent::Reaped,
    ] {
        supervisor.step(event);
        assert_eq!(supervisor.stage, SupervisorStage::Stopped);
    }
}
