//! What a local shell session is made of.
use std::path::PathBuf;
use vstd::prelude::*;

use crate::local_pty::shell::{pick_shell, picked_shell, resolve_start_dir, InstalledShells};

verus! {

/// Milliseconds for which the output is waited for before the session's end is looked for again.
pub const OUTPUT_POLL_TIMEOUT_MS: i32 = 200;

/// Bytes that one read of the output takes at most.
pub const OUTPUT_CHUNK: usize = 8192;

/// Chunks of input that wait for the shell at most.
pub const INPUT_CAPACITY: usize = 1000;

/// Chunks of output that wait for the terminal at most.
pub const OUTPUT_CAPACITY: usize = 128;

/// Changes of size that wait at most.
pub const RESIZE_CAPACITY: usize = 16;

/// The size of a pseudo terminal, in characters and in pixels.
#[derive(Clone, Copy, Debug, PartialEq, Eq, Structural)]
pub struct PtyDimensions {
    pub rows: u16,
    pub cols: u16,
    pub pixel_width: u16,
    pub pixel_height: u16,
}

/// The size for a number of columns and rows: the low sixteen bits of each, and no pixels.
pub open spec fn dimensions(cols: u32, rows: u32) -> PtyDimensions {
    PtyDimensions {
        rows: (rows % 0x1_0000) as u16,
        cols: (cols % 0x1_0000) as u16,
        pixel_width: 0,
        pixel_height: 0,
    }
}

/// The size for a number of columns and rows.
pub fn pty_dimensions(cols: u32, rows: u32) -> (size: PtyDimensions)
    ensures
        size == dimensions(cols, rows),
{
    PtyDimensions {
        rows: (rows % 0x1_0000) as u16,
        cols: (cols % 0x1_0000) as u16,
        pixel_width: 0,
        pixel_height: 0,
    }
}

/// The shell's command. `P` is the host's type of paths.
#[derive(Debug, PartialEq, Eq)]
pub struct ShellCommand<P> {
    pub program: String,
    /// The value of the variable `TERM`.
    pub term: String,
    /// The directory to start in: where the host runs, where there is none.
    pub cwd: Option<P>,
}

/// What the host sets up for a session.
#[derive(Debug, PartialEq, Eq)]
pub struct LocalPtyPlan<P> {
    pub size: PtyDimensions,
    pub command: ShellCommand<P>,
    pub input_capacity: usize,
    pub output_capacity: usize,
    pub resize_capacity: usize,
}

/// Plans a session of the given size that starts a given shell in a given directory.
pub fn plan_local_pty_session<P>(cols: u32, rows: u32, shell: String, start_dir: Option<P>) -> (plan:
    LocalPtyPlan<P>)
    ensures
        plan.size == dimensions(cols, rows),
        plan.command.program@ == shell@,
        plan.command.term@ == "xterm-256color"@,
        plan.command.cwd == start_dir,
        plan.input_capacity == INPUT_CAPACITY,
        plan.output_capacity == OUTPUT_CAPACITY,
        plan.resize_capacity == RESIZE_CAPACITY,
{
    LocalPtyPlan {
        size: pty_dimensions(cols, rows),
        command: ShellCommand {
            program: shell,
            term: "xterm-256color".to_owned(),
            cwd: start_dir,
        },
        input_capacity: INPUT_CAPACITY,
        output_capacity: OUTPUT_CAPACITY,
        resize_capacity: RESIZE_CAPACITY,
    }
}

/// Plans a session of the given size. `cwd` is the directory to start the shell in; where it is
/// none or no directory, the shell starts in the home directory that `dirs::home_dir` returns.
/// The shell is picked by the variable `SHELL` and by the shells that exist.
pub fn create_local_pty_session(
    cols: u32,
    rows: u32,
    cwd: Option<PathBuf>,
    cwd_is_dir: bool,
    shell_var: Option<String>,
    installed: InstalledShells,
) -> (plan: LocalPtyPlan<PathBuf>)
    ensures
        plan.size == dimensions(cols, rows),
        plan.command.program@ == picked_shell(
            match shell_var {
                Some(value) => Some(value@),
                None => None,
            },
            installed,
        ),
        plan.command.term@ == "xterm-256color"@,
        cwd is Some && cwd_is_dir ==> plan.command.cwd == cwd,
        !(cwd is Some && cwd_is_dir) ==> call_ensures(dirs::home_dir, (), plan.command.cwd),
        plan.input_capacity == INPUT_CAPACITY,
        plan.output_capacity == OUTPUT_CAPACITY,
        plan.resize_capacity == RESIZE_CAPACITY,
{
    let shell = pick_shell(shell_var, installed);
    let start_dir = resolve_start_dir(cwd, cwd_is_dir);
    plan_local_pty_session(cols, rows, shell, start_dir)
}

/// A size that a terminal can have is taken as it is.
pub proof fn ordinary_sizes_are_kept(cols: u32, rows: u32)
    requires
        cols <= u16::MAX,
        rows <= u16::MAX,
    ensures
        dimensions(cols, rows).cols == cols,
        dimensions(cols, rows).rows == rows,
{
}

/// Columns and rows that a terminal cannot have lose a multiple of 65536 and nothing else, and
/// there are no pixels.
pub proof fn a_size_is_cut_to_sixteen_bits(cols: u32, rows: u32)
    ensures
        (cols - dimensions(cols, rows).cols) % 0x1_0000 == 0,
        (rows - dimensions(cols, rows).rows) % 0x1_0000 == 0,
        dimensions(cols, rows).pixel_width == 0,
        dimensions(cols, rows).pixel_height == 0,
{
}

} // verus!
