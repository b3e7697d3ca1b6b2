//! Starting VS Code on a local file.
//!
//! Tried in order: the command line tool inside the macOS application, which is there even
//! where `code` is not on the path; `code` on the path; and, on macOS, `open`.
use vstd::prelude::*;

verus! {

/// The command line tool inside the macOS application.
pub open spec fn mac_cli() -> Seq<char> {
    "/Applications/Visual Studio Code.app/Contents/Resources/app/bin/code"@
}

/// What the launch is to do next.
#[derive(Debug, PartialEq, Eq)]
pub enum LaunchStage {
    /// Find out whether the command line tool of the application exists.
    FindMacCli,
    /// Start that tool.
    RunMacCli,
    /// Start `code` from the path.
    RunCode,
    /// Have macOS open the application.
    RunOpen,
    /// Whether the editor was started, or why it was not.
    Done(Result<(), String>),
}

/// What came of the launch's last stage.
#[derive(Debug, PartialEq, Eq)]
pub enum LaunchInput {
    /// Whether the tool exists.
    Exists(bool),
    /// Whether the command could be started, or why it could not.
    Spawned(Result<(), String>),
}

/// A stage with its text taken by its characters.
pub ghost enum LaunchStageView {
    FindMacCli,
    RunMacCli,
    RunCode,
    RunOpen,
    Done(Result<(), Seq<char>>),
}

/// An input with its text taken by its characters.
pub ghost enum LaunchInputView {
    Exists(bool),
    Spawned(Result<(), Seq<char>>),
}

impl View for LaunchStage {
    type V = LaunchStageView;

    open spec fn view(&self) -> LaunchStageView {
        match *self {
            LaunchStage::FindMacCli => LaunchStageView::FindMacCli,
            LaunchStage::RunMacCli => LaunchStageView::RunMacCli,
            LaunchStage::RunCode => LaunchStageView::RunCode,
            LaunchStage::RunOpen => LaunchStageView::RunOpen,
            LaunchStage::Done(Ok(_)) => LaunchStageView::Done(Ok(())),
            LaunchStage::Done(Err(error)) => LaunchStageView::Done(Err(error@)),
        }
    }
}

impl View for LaunchInput {
    type V = LaunchInputView;

    open spec fn view(&self) -> LaunchInputView {
        match *self {
            LaunchInput::Exists(exists) => LaunchInputView::Exists(exists),
            LaunchInput::Spawned(Ok(_)) => LaunchInputView::Spawned(Ok(())),
            LaunchInput::Spawned(Err(error)) => LaunchInputView::Spawned(Err(error@)),
        }
    }
}

/// The stage that follows on an input. An input that does not answer the stage changes nothing.
pub open spec fn launch_next(
    macos: bool,
    stage: LaunchStageView,
    input: LaunchInputView,
) -> LaunchStageView {
    match (stage, input) {
        (LaunchStageView::FindMacCli, LaunchInputView::Exists(exists)) => if exists {
            LaunchStageView::RunMacCli
        } else {
            LaunchStageView::RunCode
        },
        (LaunchStageView::RunMacCli, LaunchInputView::Spawned(Ok(_))) => LaunchStageView::Done(
            Ok(()),
        ),
        (LaunchStageView::RunMacCli, LaunchInputView::Spawned(Err(_))) => LaunchStageView::RunCode,
        (LaunchStageView::RunCode, LaunchInputView::Spawned(Ok(_))) => LaunchStageView::Done(
            Ok(()),
        ),
        (LaunchStageView::RunCode, LaunchInputView::Spawned(Err(_))) => if macos {
            LaunchStageView::RunOpen
        } else {
            LaunchStageView::Done(
                Err("VS Code executable not found. Ensure `code` is on your PATH."@),
            )
        },
        (LaunchStageView::RunOpen, LaunchInputView::Spawned(Ok(_))) => LaunchStageView::Done(
            Ok(()),
        ),
        (LaunchStageView::RunOpen, LaunchInputView::Spawned(Err(error))) => LaunchStageView::Done(
            Err("Failed to open in VS Code: "@ + error),
        ),
        _ => stage,
    }
}

/// A program and its arguments.
#[derive(Debug, PartialEq, Eq)]
pub struct LaunchCommand {
    pub program: String,
    pub args: Vec<String>,
}

/// The program and the arguments of the command that a stage starts.
pub open spec fn command_of(stage: LaunchStageView, local_path: Seq<char>) -> Option<
    (Seq<char>, Seq<Seq<char>>),
> {
    match stage {
        LaunchStageView::RunMacCli => Some((mac_cli(), seq![local_path])),
        LaunchStageView::RunCode => Some(("code"@, seq![local_path])),
        LaunchStageView::RunOpen => Some(
            ("open"@, seq!["-a"@, "Visual Studio Code"@, local_path]),
        ),
        _ => None,
    }
}

/// The path of the command line tool inside the macOS application.
pub fn mac_cli_path() -> (path: &'static str)
    ensures
        path@ == mac_cli(),
{
    "/Applications/Visual Studio Code.app/Contents/Resources/app/bin/code"
}

/// One launch of the editor.
pub struct Launch {
    pub local_path: String,
    /// Whether the local machine runs macOS.
    pub macos: bool,
    pub stage: LaunchStage,
}

/// Starts the launch of VS Code on a local file.
pub fn spawn_vscode(local_path: String, macos: bool) -> (launch: Launch)
    ensures
        launch.local_path@ == local_path@,
        launch.macos == macos,
        launch.stage@ == LaunchStageView::FindMacCli,
{
    Launch { local_path, macos, stage: LaunchStage::FindMacCli }
}

impl Launch {
    /// The command that the stage starts, where it starts one.
    pub fn command(&self) -> (command: Option<LaunchCommand>)
        ensures
            match (command, command_of(self.stage@, self.local_path@)) {
                (Some(found), Some((program, args))) => {
                    &&& found.program@ == program
                    &&& found.args@.map_values(|arg: String| arg@) == args
                },
                (None, None) => true,
                _ => false,
            },
    {
        let mut args: Vec<String> = Vec::new();
        match self.stage {
            LaunchStage::RunMacCli => {
                args.push(self.local_path.clone());
                proof {
                    assert(args@.map_values(|arg: String| arg@) == seq![self.local_path@]);
                }
                Some(LaunchCommand { program: mac_cli_path().to_owned(), args })
            },
            LaunchStage::RunCode => {
                args.push(self.local_path.clone());
                proof {
                    assert(args@.map_values(|arg: String| arg@) == seq![self.local_path@]);
                }
                Some(LaunchCommand { program: "code".to_owned(), args })
            },
            LaunchStage::RunOpen => {
                args.push("-a".to_owned());
                args.push("Visual Studio Code".to_owned());
                args.push(self.local_path.clone());
                proof {
                    assert(args@.map_values(|arg: String| arg@) == seq![
                        "-a"@,
                        "Visual Studio Code"@,
                        self.local_path@,
                    ]);
                }
                Some(LaunchCommand { program: "open".to_owned(), args })
            },
            _ => None,
        }
    }

    /// Takes what came of the stage and moves on to the next one.
    pub fn step(&mut self, input: LaunchInput)
        ensures
            final(self).stage@ == launch_next(old(self).macos, old(self).stage@, input@),
            final(self).local_path@ == old(self).local_path@,
            final(self).macos == old(self).macos,
    {
        match (&self.stage, input) {
            (LaunchStage::FindMacCli, LaunchInput::Exists(exists)) => {
                self.stage = if exists {
                    LaunchStage::RunMacCli
                } else {
                    LaunchStage::RunCode
                };
            },
            (LaunchStage::RunMacCli, LaunchInput::Spawned(Ok(_))) => {
                self.stage = LaunchStage::Done(Ok(()));
            },
            (LaunchStage::RunMacCli, LaunchInput::Spawned(Err(_))) => {
                self.stage = LaunchStage::RunCode;
            },
            (LaunchStage::RunCode, LaunchInput::Spawned(Ok(_))) => {
                self.stage = LaunchStage::Done(Ok(()));
            },
            (LaunchStage::RunCode, LaunchInput::Spawned(Err(_))) => {
                self.stage = if self.macos {
                    LaunchStage::RunOpen
                } else {
                    LaunchStage::Done(
                        Err(
                            "VS Code executable not found. Ensure `code` is on your PATH.".to_owned(),
                        ),
                    )
                };
            },
            (LaunchStage::RunOpen, LaunchInput::Spawned(Ok(_))) => {
                self.stage = LaunchStage::Done(Ok(()));
            },
            (LaunchStage::RunOpen, LaunchInput::Spawned(Err(error))) => {
                self.stage = LaunchStage::Done(
                    Err("Failed to open in VS Code: ".to_owned().concat(error.as_str())),
                );
            },
            _ => {},
        }
    }
}

/// Every command that a launch starts gets the file as its last argument.
pub proof fn every_command_opens_the_file(stage: LaunchStageView, local_path: Seq<char>)
    ensures
        command_of(stage, local_path) matches Some((_, args)) ==> args.len() > 0 && args.last()
            == local_path,
{
}

/// Where the application's own tool is missing or cannot be started, `code` on the path is
/// tried, and nothing after it where it starts or where the machine does not run macOS.
pub proof fn open_is_the_last_resort(
    macos: bool,
    error: Seq<char>,
    spawned: Result<(), Seq<char>>,
)
    ensures
        ({
            let missing = launch_next(
                macos,
                LaunchStageView::FindMacCli,
                LaunchInputView::Exists(false),
            );
            let broken = launch_next(
                macos,
                LaunchStageView::RunMacCli,
                LaunchInputView::Spawned(Err::<(), Seq<char>>(error)),
            );
            let next = launch_next(macos, missing, LaunchInputView::Spawned(spawned));
            &&& missing == LaunchStageView::RunCode
            &&& broken == LaunchStageView::RunCode
            &&& next == LaunchStageView::RunOpen <==> macos && spawned is Err
            &&& next == LaunchStageView::Done(Ok(())) <==> spawned is Ok
        }),
{
}

/// The stage of a launch after a run of inputs.
pub open spec fn launch_run(macos: bool, inputs: Seq<LaunchInputView>) -> LaunchStageView
    decreases inputs.len(),
{
    if inputs.len() == 0 {
        LaunchStageView::FindMacCli
    } else {
        launch_next(macos, launch_run(macos, inputs.drop_last()), inputs.last())
    }
}

/// A launch succeeds only where a command was started.
pub proof fn a_launch_succeeds_with_a_command(
    macos: bool,
    inputs: Seq<LaunchInputView>,
    local_path: Seq<char>,
) -> (i: int)
    requires
        launch_run(macos, inputs) == LaunchStageView::Done(Ok::<(), Seq<char>>(())),
    ensures
        0 <= i < inputs.len(),
        command_of(launch_run(macos, inputs.take(i)), local_path) is Some,
        inputs[i] matches LaunchInputView::Spawned(Ok(_)),
{
    lemma_launch_entered(macos, inputs)
}

/// A launch fails only after `code` could not be started, and on macOS only after `open` could
/// not be started either.
pub proof fn a_launch_fails_after_every_launcher(
    macos: bool,
    inputs: Seq<LaunchInputView>,
    error: Seq<char>,
) -> (steps: (int, int))
    requires
        launch_run(macos, inputs) == LaunchStageView::Done(Err::<(), Seq<char>>(error)),
    ensures
        ({
            let (code, last) = steps;
            &&& 0 <= code <= last < inputs.len()
            &&& launch_run(macos, inputs.take(code)) is RunCode
            &&& inputs[code] matches LaunchInputView::Spawned(Err(_))
            &&& inputs[last] matches LaunchInputView::Spawned(Err(_))
            &&& if macos {
                launch_run(macos, inputs.take(last)) is RunOpen
            } else {
                last == code
            }
        }),
{
    let last = lemma_launch_entered(macos, inputs);
    if macos {
        let before = inputs.take(last);
        lemma_open_means_macos(macos, before);
        let code = lemma_launch_entered(macos, before);
        assert(before.take(code) == inputs.take(code));
        (code, last)
    } else {
        lemma_open_means_macos(macos, inputs.take(last));
        (last, last)
    }
}

proof fn lemma_open_means_macos(macos: bool, inputs: Seq<LaunchInputView>)
    ensures
        launch_run(macos, inputs) is RunOpen ==> macos,
    decreases inputs.len(),
{
    if inputs.len() > 0 {
        lemma_open_means_macos(macos, inputs.drop_last());
    }
}

proof fn lemma_launch_entered(macos: bool, inputs: Seq<LaunchInputView>) -> (i: int)
    requires
        launch_run(macos, inputs) != LaunchStageView::FindMacCli,
    ensures
        0 <= i < inputs.len(),
        launch_run(macos, inputs.take(i)) != launch_run(macos, inputs),
        launch_next(macos, launch_run(macos, inputs.take(i)), inputs[i]) == launch_run(
            macos,
            inputs,
        ),
    decreases inputs.len(),
{
    let n = inputs.len() - 1;
    let earlier = inputs.drop_last();
    assert(inputs.take(n) == earlier);
    if launch_run(macos, earlier) != launch_run(macos, inputs) {
        n
    } else {
        let i = lemma_launch_entered(macos, earlier);
        assert(earlier.take(i) == inputs.take(i));
        i
    }
}

proof fn lemma_launch_push(macos: bool, inputs: Seq<LaunchInputView>, input: LaunchInputView)
    ensures
        launch_run(macos, inputs.push(input)) == launch_next(
            macos,
            launch_run(macos, inputs),
            input,
        ),
{
    assert(inputs.push(input).drop_last() == inputs);
}

/// A command that starts is the end of a launch, with success, whichever command it is.
pub proof fn a_command_that_starts_is_enough(
    macos: bool,
    inputs: Seq<LaunchInputView>,
    local_path: Seq<char>,
)
    requires
        command_of(launch_run(macos, inputs), local_path) is Some,
    ensures
        launch_run(
            macos,
            inputs.push(LaunchInputView::Spawned(Ok::<(), Seq<char>>(()))),
        ) matches LaunchStageView::Done(Ok(_)),
{
    lemma_launch_push(macos, inputs, LaunchInputView::Spawned(Ok::<(), Seq<char>>(())));
}

/// The application's own tool is tried where it exists, then `code`, then, on macOS, `open`,
/// whatever the errors of the earlier ones are; and the last one that is tried decides what the
/// launch fails with.
pub proof fn the_launchers_are_tried_in_order(
    macos: bool,
    inputs: Seq<LaunchInputView>,
    exists: bool,
    error: Seq<char>,
)
    ensures
        ({
            let stage = launch_run(macos, inputs);
            let found = launch_run(macos, inputs.push(LaunchInputView::Exists(exists)));
            let failed = launch_run(
                macos,
                inputs.push(LaunchInputView::Spawned(Err::<(), Seq<char>>(error))),
            );
            &&& stage is FindMacCli && exists ==> found is RunMacCli
            &&& stage is FindMacCli && !exists ==> found is RunCode
            &&& stage is RunMacCli ==> failed is RunCode
            &&& stage is RunCode && macos ==> failed is RunOpen
            &&& stage is RunCode && !macos ==> failed == LaunchStageView::Done(
                Err::<(), Seq<char>>("VS Code executable not found. Ensure `code` is on your PATH."@),
            )
            &&& stage is RunOpen ==> failed == LaunchStageView::Done(
                Err::<(), Seq<char>>("Failed to open in VS Code: "@ + error),
            )
        }),
{
    lemma_launch_push(macos, inputs, LaunchInputView::Exists(exists));
    lemma_launch_push(macos, inputs, LaunchInputView::Spawned(Err::<(), Seq<char>>(error)));
}

/// Only the answer to its stage moves a launch on, and nothing moves one that has ended.
pub proof fn a_launch_waits_for_its_answer(
    macos: bool,
    inputs: Seq<LaunchInputView>,
    input: LaunchInputView,
)
    requires
        match launch_run(macos, inputs) {
            LaunchStageView::FindMacCli => !(input is Exists),
            LaunchStageView::Done(_) => true,
            _ => !(input is Spawned),
        },
    ensures
        launch_run(macos, inputs.push(input)) == launch_run(macos, inputs),
{
    lemma_launch_push(macos, inputs, input);
}

/// Each launcher is started with the file, whatever its path is: the application's own tool and
/// `code` with the file alone, and `open` with the application to open it in.
pub proof fn each_launcher_gets_the_file(stage: LaunchStageView, local_path: Seq<char>)
    ensures
        command_of(LaunchStageView::RunMacCli, local_path) == Some(
            (
                "/Applications/Visual Studio Code.app/Contents/Resources/app/bin/code"@,
                seq![local_path],
            ),
        ),
        command_of(LaunchStageView::RunCode, local_path) == Some(("code"@, seq![local_path])),
        command_of(LaunchStageView::RunOpen, local_path) == Some(
            ("open"@, seq!["-a"@, "Visual Studio Code"@, local_path]),
        ),
        command_of(stage, local_path) is Some <==> stage is RunMacCli || stage is RunCode || stage
            is RunOpen,
{
}

/// A launch is seen as it is: no character of its stage or of its inputs is lost or changed in
/// the view of it.
pub proof fn a_launch_is_seen_as_it_is(stage: LaunchStage, input: LaunchInput)
    ensures
        match stage {
            LaunchStage::FindMacCli => stage@ is FindMacCli,
            LaunchStage::RunMacCli => stage@ is RunMacCli,
            LaunchStage::RunCode => stage@ is RunCode,
            LaunchStage::RunOpen => stage@ is RunOpen,
            LaunchStage::Done(Ok(_)) => (stage@ matches LaunchStageView::Done(Ok(_))),
            LaunchStage::Done(Err(error)) => stage@ == LaunchStageView::Done(
                Err::<(), Seq<char>>(error@),
            ),
        },
        match input {
            LaunchInput::Exists(exists) => input@ == LaunchInputView::Exists(exists),
            LaunchInput::Spawned(Ok(_)) => (input@ matches LaunchInputView::Spawned(Ok(_))),
            LaunchInput::Spawned(Err(error)) => input@ == LaunchInputView::Spawned(
                Err::<(), Seq<char>>(error@),
            ),
        },
{
}

} // verus!
