//! Editing remote files in an external editor, and shells on the local machine.
//!
//! What talks to the network, the file system and other processes is the host's. The library
//! holds the decisions in between, as machines that say what to do next and are told what came
//! of it:
//!
//! - `editor` opens a remote file in VS Code, uploads every save, and keeps the registry of the
//!   sessions;
//! - `local_pty` plans a shell in a pseudo terminal and moves its input and output;
//! - `text` has what both need of characters and numbers.
pub mod editor;
pub mod local_pty;
pub mod text;
