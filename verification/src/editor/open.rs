//! Opening a remote file in the editor.
//!
//! A file that already has a session is brought to the front again. Any other file is
//! downloaded to a directory of its own, opened in the editor, and handed to a sync loop; where
//! a step fails, its own session and directory are taken back.
use vstd::prelude::*;

use crate::editor::identity::{content_hash, hash_bytes, session_id};
use crate::editor::launch::{spawn_vscode, Launch, LaunchStageView};
use crate::editor::paths::PathStyle;
use crate::editor::registry::{
    instance_after, new_session, sessions_after_open, sessions_after_take_back,
    EditSessionRegistry, EditSessionView, Reservation,
};
use crate::editor::sync::{SyncLoop, SyncStage, SyncState};
use crate::editor::transfer::{download_to_path, Direction, Transfer, TransferStageView};

verus! {

/// What the opening is to do next.
#[derive(Debug, PartialEq, Eq)]
pub enum OpenStage {
    /// Find out whether the file of the session that was found exists: another open may still
    /// be downloading it.
    CheckLocalFile,
    /// Start the editor on the file of the session that was found.
    Refocus,
    /// Create the session's directory.
    CreateTempDir,
    /// Download the remote file.
    Download,
    /// Read the downloaded file.
    ReadLocalFile,
    /// Start the editor on the downloaded file, whose content has this hash.
    LaunchEditor { initial_hash: u64 },
    /// Find out whether the session was closed in the meantime.
    CheckClosed { initial_hash: u64 },
    /// Remove the directory of an opening that failed.
    RollBack { error: String },
    /// Remove the directory of a session that was closed in the meantime.
    Discard,
    /// Start the sync loop.
    StartSync { initial_hash: u64 },
    /// The session's id, or why the file was not opened.
    Done(Result<String, String>),
}

/// What came of the opening's last stage.
#[derive(Debug, PartialEq, Eq)]
pub enum OpenInput {
    LocalFileExists(bool),
    TempDirCreated(Result<(), String>),
    Downloaded(Result<u64, String>),
    FileRead(Result<Vec<u8>, String>),
    EditorLaunched(Result<(), String>),
    Closed(bool),
    TempDirRemoved,
    SyncStarted,
}

/// A stage with its texts taken by their characters.
pub ghost enum OpenStageView {
    CheckLocalFile,
    Refocus,
    CreateTempDir,
    Download,
    ReadLocalFile,
    LaunchEditor { initial_hash: u64 },
    CheckClosed { initial_hash: u64 },
    RollBack { error: Seq<char> },
    Discard,
    StartSync { initial_hash: u64 },
    Done(Result<Seq<char>, Seq<char>>),
}

/// An input with content taken by its hash and texts by their characters.
pub ghost enum OpenInputView {
    LocalFileExists(bool),
    TempDirCreated(Result<(), Seq<char>>),
    Downloaded(Result<u64, Seq<char>>),
    FileRead(Result<u64, Seq<char>>),
    EditorLaunched(Result<(), Seq<char>>),
    Closed(bool),
    TempDirRemoved,
    SyncStarted,
}

impl View for OpenStage {
    type V = OpenStageView;

    open spec fn view(&self) -> OpenStageView {
        match *self {
            OpenStage::CheckLocalFile => OpenStageView::CheckLocalFile,
            OpenStage::Refocus => OpenStageView::Refocus,
            OpenStage::CreateTempDir => OpenStageView::CreateTempDir,
            OpenStage::Download => OpenStageView::Download,
            OpenStage::ReadLocalFile => OpenStageView::ReadLocalFile,
            OpenStage::LaunchEditor { initial_hash } => OpenStageView::LaunchEditor {
                initial_hash,
            },
            OpenStage::CheckClosed { initial_hash } => OpenStageView::CheckClosed { initial_hash },
            OpenStage::RollBack { error } => OpenStageView::RollBack { error: error@ },
            OpenStage::Discard => OpenStageView::Discard,
            OpenStage::StartSync { initial_hash } => OpenStageView::StartSync { initial_hash },
            OpenStage::Done(Ok(id)) => OpenStageView::Done(Ok(id@)),
            OpenStage::Done(Err(error)) => OpenStageView::Done(Err(error@)),
        }
    }
}

impl View for OpenInput {
    type V = OpenInputView;

    open spec fn view(&self) -> OpenInputView {
        match *self {
            OpenInput::LocalFileExists(exists) => OpenInputView::LocalFileExists(exists),
            OpenInput::TempDirCreated(Ok(_)) => OpenInputView::TempDirCreated(Ok(())),
            OpenInput::TempDirCreated(Err(error)) => OpenInputView::TempDirCreated(Err(error@)),
            OpenInput::Downloaded(Ok(bytes)) => OpenInputView::Downloaded(Ok(bytes)),
            OpenInput::Downloaded(Err(error)) => OpenInputView::Downloaded(Err(error@)),
            OpenInput::FileRead(Ok(bytes)) => OpenInputView::FileRead(Ok(content_hash(bytes@))),
            OpenInput::FileRead(Err(error)) => OpenInputView::FileRead(Err(error@)),
            OpenInput::EditorLaunched(Ok(_)) => OpenInputView::EditorLaunched(Ok(())),
            OpenInput::EditorLaunched(Err(error)) => OpenInputView::EditorLaunched(Err(error@)),
            OpenInput::Closed(closed) => OpenInputView::Closed(closed),
            OpenInput::TempDirRemoved => OpenInputView::TempDirRemoved,
            OpenInput::SyncStarted => OpenInputView::SyncStarted,
        }
    }
}

/// The error with which a step of a new session's setup fails on an input.
pub open spec fn setup_error(stage: OpenStageView, input: OpenInputView) -> Option<Seq<char>> {
    match (stage, input) {
        (OpenStageView::CreateTempDir, OpenInputView::TempDirCreated(Err(error))) => Some(
            "Failed to create temp dir: "@ + error,
        ),
        (OpenStageView::Download, OpenInputView::Downloaded(Err(error))) => Some(error),
        (OpenStageView::ReadLocalFile, OpenInputView::FileRead(Err(error))) => Some(
            "Failed to read downloaded file: "@ + error,
        ),
        (
            OpenStageView::LaunchEditor { .. },
            OpenInputView::EditorLaunched(Err(error)),
        ) => Some(error),
        _ => None,
    }
}

/// The stage that follows on an input. An input that does not answer the stage changes nothing.
pub open spec fn open_next(
    id: Seq<char>,
    stage: OpenStageView,
    input: OpenInputView,
) -> OpenStageView {
    if setup_error(stage, input) is Some {
        OpenStageView::RollBack { error: setup_error(stage, input)->0 }
    } else {
        match (stage, input) {
            (OpenStageView::CheckLocalFile, OpenInputView::LocalFileExists(exists)) => if exists {
                OpenStageView::Refocus
            } else {
                OpenStageView::Done(Ok(id))
            },
            (OpenStageView::Refocus, OpenInputView::EditorLaunched(Ok(_))) => OpenStageView::Done(
                Ok(id),
            ),
            (OpenStageView::Refocus, OpenInputView::EditorLaunched(Err(error))) => {
                OpenStageView::Done(Err(error))
            },
            (OpenStageView::CreateTempDir, OpenInputView::TempDirCreated(_)) => {
                OpenStageView::Download
            },
            (OpenStageView::Download, OpenInputView::Downloaded(_)) => OpenStageView::ReadLocalFile,
            (OpenStageView::ReadLocalFile, OpenInputView::FileRead(Ok(initial_hash))) => {
                OpenStageView::LaunchEditor { initial_hash }
            },
            (
                OpenStageView::LaunchEditor { initial_hash },
                OpenInputView::EditorLaunched(_),
            ) => OpenStageView::CheckClosed { initial_hash },
            (OpenStageView::CheckClosed { initial_hash }, OpenInputView::Closed(closed)) => {
                if closed {
                    OpenStageView::Discard
                } else {
                    OpenStageView::StartSync { initial_hash }
                }
            },
            (OpenStageView::RollBack { error }, OpenInputView::TempDirRemoved) => {
                OpenStageView::Done(Err(error))
            },
            (OpenStageView::Discard, OpenInputView::TempDirRemoved) => OpenStageView::Done(Ok(id)),
            (OpenStageView::StartSync { .. }, OpenInputView::SyncStarted) => OpenStageView::Done(
                Ok(id),
            ),
            _ => stage,
        }
    }
}

/// The sessions after an input to an opening whose directory is `temp_dir`: a setup that fails
/// takes its own session back. A session that another open of the file has registered since
/// stays.
pub open spec fn sessions_after_input<C>(
    sessions: Map<Seq<char>, EditSessionView<C>>,
    id: Seq<char>,
    temp_dir: Option<Seq<char>>,
    stage: OpenStageView,
    input: OpenInputView,
) -> Map<Seq<char>, EditSessionView<C>> {
    if setup_error(stage, input) is Some && temp_dir is Some {
        sessions_after_take_back(sessions, id, temp_dir->0)
    } else {
        sessions
    }
}

/// One opening of a remote file.
pub struct OpenEditor {
    pub session_id: String,
    pub connection_id: String,
    pub remote_path: String,
    pub file_name: String,
    pub local_path: String,
    /// The directory that this opening creates: none where the file already had a session.
    pub temp_dir: Option<String>,
    pub stage: OpenStage,
}

/// Starts the opening of a remote file: finds its session or registers a new one.
pub fn open_in_external_editor<C>(
    registry: &mut EditSessionRegistry<C>,
    temp_root: &str,
    style: PathStyle,
    connection_id: String,
    remote_path: String,
    file_name: String,
    cancel: C,
) -> (opening: OpenEditor)
    requires
        old(registry).wf(),
    ensures
        final(registry).wf(),
        old(registry).keyed_by_file() ==> final(registry).keyed_by_file(),
        final(registry).next_instance() == instance_after(old(registry).next_instance()),
        opening.connection_id@ == connection_id@,
        opening.remote_path@ == remote_path@,
        opening.file_name@ == file_name@,
        opening.session_id@ == session_id(connection_id@, remote_path@),
        ({
            let id = session_id(connection_id@, remote_path@);
            let session = new_session(
                temp_root@,
                style,
                old(registry).next_instance(),
                connection_id@,
                remote_path@,
                file_name@,
                cancel,
            );
            &&& final(registry).sessions() == sessions_after_open(
                old(registry).sessions(),
                id,
                session,
            )
            &&& if old(registry).sessions().contains_key(id) {
                &&& opening.stage@ == OpenStageView::CheckLocalFile
                &&& opening.local_path@ == old(registry).sessions()[id].local_path
                &&& opening.temp_dir is None
            } else {
                &&& opening.stage@ == OpenStageView::CreateTempDir
                &&& opening.local_path@ == session.local_path
                &&& opening.temp_dir matches Some(dir) && dir@ == session.temp_dir
            }
        }),
{
    let reservation = registry.reserve(
        temp_root,
        style,
        connection_id.clone(),
        remote_path.clone(),
        file_name.clone(),
        cancel,
    );
    match reservation {
        Reservation::Existing { session_id, local_path } => OpenEditor {
            session_id,
            connection_id,
            remote_path,
            file_name,
            local_path,
            temp_dir: None,
            stage: OpenStage::CheckLocalFile,
        },
        Reservation::Created { session_id, temp_dir, local_path } => OpenEditor {
            session_id,
            connection_id,
            remote_path,
            file_name,
            local_path,
            temp_dir: Some(temp_dir),
            stage: OpenStage::CreateTempDir,
        },
    }
}

impl OpenEditor {
    /// The characters of the directory that this opening creates.
    pub open spec fn dir(self) -> Option<Seq<char>> {
        match self.temp_dir {
            Some(dir) => Some(dir@),
            None => None,
        }
    }

    /// What never changes over the life of an opening.
    pub open spec fn same_opening(self, other: OpenEditor) -> bool {
        &&& self.session_id@ == other.session_id@
        &&& self.connection_id@ == other.connection_id@
        &&& self.remote_path@ == other.remote_path@
        &&& self.file_name@ == other.file_name@
        &&& self.local_path@ == other.local_path@
        &&& self.temp_dir == other.temp_dir
    }

    /// The download of the remote file.
    pub fn download(&self) -> (transfer: Transfer)
        ensures
            transfer.direction == Direction::Download,
            transfer.connection_id@ == self.connection_id@,
            transfer.remote_path@ == self.remote_path@,
            transfer.local_path@ == self.local_path@,
            transfer.stage@ == TransferStageView::LookUpType,
    {
        download_to_path(
            self.connection_id.clone(),
            self.remote_path.clone(),
            self.local_path.clone(),
        )
    }

    /// The launch of the editor on the local file.
    pub fn launch(&self, macos: bool) -> (launch: Launch)
        ensures
            launch.local_path@ == self.local_path@,
            launch.macos == macos,
            launch.stage@ == LaunchStageView::FindMacCli,
    {
        spawn_vscode(self.local_path.clone(), macos)
    }

    /// The loop that syncs the opened file, where the opening has come to start it.
    pub fn sync_loop(&self) -> (sync: Option<SyncLoop>)
        ensures
            match (self.stage@, self.temp_dir) {
                (OpenStageView::StartSync { initial_hash }, Some(dir)) => {
                    &&& sync matches Some(found)
                    &&& found.session_id@ == self.session_id@
                    &&& found.connection_id@ == self.connection_id@
                    &&& found.remote_path@ == self.remote_path@
                    &&& found.file_name@ == self.file_name@
                    &&& found.local_path@ == self.local_path@
                    &&& found.temp_dir@ == dir@
                    &&& found.state == (SyncState {
                        last_synced: initial_hash,
                        failing: None,
                        backoff: 0,
                    })
                    &&& found.stage == SyncStage::Wait
                },
                _ => sync is None,
            },
    {
        match (&self.stage, &self.temp_dir) {
            (OpenStage::StartSync { initial_hash }, Some(dir)) => Some(
                SyncLoop::new(
                    self.session_id.clone(),
                    self.connection_id.clone(),
                    self.remote_path.clone(),
                    self.file_name.clone(),
                    self.local_path.clone(),
                    dir.clone(),
                    *initial_hash,
                ),
            ),
            _ => None,
        }
    }

    /// Takes the opening's own session back and moves on to remove its directory.
    fn roll_back<C>(&mut self, registry: &mut EditSessionRegistry<C>, error: String)
        requires
            old(registry).wf(),
        ensures
            final(registry).wf(),
            old(registry).keyed_by_file() ==> final(registry).keyed_by_file(),
            final(registry).next_instance() == old(registry).next_instance(),
            final(registry).sessions() == match old(self).dir() {
                Some(dir) => sessions_after_take_back(
                    old(registry).sessions(),
                    old(self).session_id@,
                    dir,
                ),
                None => old(registry).sessions(),
            },
            final(self).stage@ == (OpenStageView::RollBack { error: error@ }),
            final(self).same_opening(*old(self)),
    {
        if let Some(dir) = &self.temp_dir {
            registry.take_back(self.session_id.as_str(), dir.as_str());
        }
        self.stage = OpenStage::RollBack { error };
    }

    /// Takes what came of the stage and moves on to the next one.
    pub fn step<C>(&mut self, registry: &mut EditSessionRegistry<C>, input: OpenInput)
        requires
            old(registry).wf(),
        ensures
            final(registry).wf(),
            old(registry).keyed_by_file() ==> final(registry).keyed_by_file(),
            final(registry).next_instance() == old(registry).next_instance(),
            final(registry).sessions() == sessions_after_input(
                old(registry).sessions(),
                old(self).session_id@,
                old(self).dir(),
                old(self).stage@,
                input@,
            ),
            final(self).stage@ == open_next(old(self).session_id@, old(self).stage@, input@),
            final(self).same_opening(*old(self)),
    {
        match (&self.stage, input) {
            (OpenStage::CheckLocalFile, OpenInput::LocalFileExists(exists)) => {
                self.stage = if exists {
                    OpenStage::Refocus
                } else {
                    OpenStage::Done(Ok(self.session_id.clone()))
                };
            },
            (OpenStage::Refocus, OpenInput::EditorLaunched(Ok(_))) => {
                self.stage = OpenStage::Done(Ok(self.session_id.clone()));
            },
            (OpenStage::Refocus, OpenInput::EditorLaunched(Err(error))) => {
                self.stage = OpenStage::Done(Err(error));
            },
            (OpenStage::CreateTempDir, OpenInput::TempDirCreated(Ok(_))) => {
                self.stage = OpenStage::Download;
            },
            (OpenStage::CreateTempDir, OpenInput::TempDirCreated(Err(error))) => {
                let message = "Failed to create temp dir: ".to_owned().concat(error.as_str());
                self.roll_back(registry, message);
            },
            (OpenStage::Download, OpenInput::Downloaded(Ok(_))) => {
                self.stage = OpenStage::ReadLocalFile;
            },
            (OpenStage::Download, OpenInput::Downloaded(Err(error))) => {
                self.roll_back(registry, error);
            },
            (OpenStage::ReadLocalFile, OpenInput::FileRead(Ok(bytes))) => {
                self.stage = OpenStage::LaunchEditor {
                    initial_hash: hash_bytes(bytes.as_slice()),
                };
            },
            (OpenStage::ReadLocalFile, OpenInput::FileRead(Err(error))) => {
                let message = "Failed to read downloaded file: ".to_owned().concat(error.as_str());
                self.roll_back(registry, message);
            },
            (OpenStage::LaunchEditor { initial_hash }, OpenInput::EditorLaunched(Ok(_))) => {
                self.stage = OpenStage::CheckClosed { initial_hash: *initial_hash };
            },
            (OpenStage::LaunchEditor { .. }, OpenInput::EditorLaunched(Err(error))) => {
                self.roll_back(registry, error);
            },
            (OpenStage::CheckClosed { initial_hash }, OpenInput::Closed(closed)) => {
                self.stage = if closed {
                    OpenStage::Discard
                } else {
                    OpenStage::StartSync { initial_hash: *initial_hash }
                };
            },
            (OpenStage::RollBack { error }, OpenInput::TempDirRemoved) => {
                self.stage = OpenStage::Done(Err(error.clone()));
            },
            (OpenStage::Discard, OpenInput::TempDirRemoved) => {
                self.stage = OpenStage::Done(Ok(self.session_id.clone()));
            },
            (OpenStage::StartSync { .. }, OpenInput::SyncStarted) => {
                self.stage = OpenStage::Done(Ok(self.session_id.clone()));
            },
            _ => {},
        }
    }
}

} // verus!
