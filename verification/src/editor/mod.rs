//! Editing a remote file in an external editor and syncing every save back.
pub mod identity;
pub mod launch;
pub mod open;
pub mod open_laws;
pub mod paths;
pub mod registry;
pub mod sync;
pub mod sync_laws;
pub mod transfer;
