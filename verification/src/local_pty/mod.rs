//! A shell on the local machine, in a pseudo terminal.
pub mod cwd;
pub mod input;
pub mod output;
pub mod session;
pub mod shell;
pub mod supervisor;
