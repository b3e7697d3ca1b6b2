//! The loop that polls a session's file and uploads it after every save.
//!
//! `SyncState` holds what the loop remembers between two polls, and decides by it whether the
//! content just read has to be uploaded. `SyncLoop` puts these decisions in order: it says what
//! to do next, and is told what came of it.
use vstd::prelude::*;

use crate::editor::identity::{content_hash, hash_bytes};
use crate::editor::transfer::{upload_from_path, Direction, Transfer, TransferStageView};

verus! {

/// Milliseconds between two polls of the file.
pub const POLL_INTERVAL_MS: u64 = 1000;

/// After a failed upload, the polls to let pass before the same unchanged content is tried
/// again.
pub const ERROR_BACKOFF_TICKS: u32 = 4;

/// What the loop remembers between two polls.
#[derive(Clone, Copy, Debug, PartialEq, Eq, Structural)]
pub struct SyncState {
    /// Hash of the content last uploaded, or of the initial download.
    pub last_synced: u64,
    /// Hash of the content whose upload is failing.
    pub failing: Option<u64>,
    /// Polls left before the failing content is tried again.
    pub backoff: u32,
}

impl SyncState {
    /// Only content that differs from the synced one can be failing, and only failing content
    /// is waited for, never longer than the backoff.
    pub open spec fn wf(self) -> bool {
        &&& self.backoff <= ERROR_BACKOFF_TICKS
        &&& self.failing is None ==> self.backoff == 0
        &&& self.failing != Some(self.last_synced)
    }

    /// Whether the content of hash `current` is to be uploaded now.
    pub open spec fn wants_upload(self, current: u64) -> bool {
        &&& current != self.last_synced
        &&& self.failing == Some(current) ==> self.backoff == 0
    }

    /// The state after a poll that read content of hash `current`, before any upload.
    pub open spec fn after_poll(self, current: u64) -> SyncState {
        if current == self.last_synced {
            SyncState { last_synced: self.last_synced, failing: None, backoff: 0 }
        } else if self.wants_upload(current) {
            self
        } else {
            SyncState { backoff: (self.backoff - 1) as u32, ..self }
        }
    }

    /// The state after an upload of content of hash `current`.
    pub open spec fn after_upload(self, current: u64, uploaded: bool) -> SyncState {
        if uploaded {
            SyncState { last_synced: current, failing: None, backoff: 0 }
        } else {
            SyncState {
                last_synced: self.last_synced,
                failing: Some(current),
                backoff: ERROR_BACKOFF_TICKS,
            }
        }
    }

    /// Whether a failed upload of content of hash `current` is news to the user.
    pub open spec fn is_new_failure(self, current: u64) -> bool {
        self.failing != Some(current)
    }

    /// The state of a loop that starts on downloaded content.
    pub fn new(initial_hash: u64) -> (state: SyncState)
        ensures
            state == (SyncState { last_synced: initial_hash, failing: None, backoff: 0 }),
            state.wf(),
    {
        SyncState { last_synced: initial_hash, failing: None, backoff: 0 }
    }

    /// Takes note of the content just read and decides whether to upload it.
    pub fn poll(&mut self, current: u64) -> (upload: bool)
        ensures
            upload == old(self).wants_upload(current),
            *final(self) == old(self).after_poll(current),
            old(self).wf() ==> final(self).wf(),
    {
        if current == self.last_synced {
            self.failing = None;
            self.backoff = 0;
            return false;
        }
        let known = match self.failing {
            Some(hash) => hash == current,
            None => false,
        };
        if known && self.backoff > 0 {
            self.backoff = self.backoff - 1;
            return false;
        }
        true
    }

    /// Takes note of a successful upload.
    pub fn uploaded(&mut self, current: u64)
        ensures
            *final(self) == old(self).after_upload(current, true),
            final(self).wf(),
    {
        self.last_synced = current;
        self.failing = None;
        self.backoff = 0;
    }

    /// Takes note of a failed upload and says whether it is news.
    pub fn upload_failed(&mut self, current: u64) -> (is_new: bool)
        ensures
            is_new == old(self).is_new_failure(current),
            *final(self) == old(self).after_upload(current, false),
            current != old(self).last_synced ==> final(self).wf(),
    {
        let known = match self.failing {
            Some(hash) => hash == current,
            None => false,
        };
        self.failing = Some(current);
        self.backoff = ERROR_BACKOFF_TICKS;
        !known
    }
}

/// What the host is told when a save has reached the server.
#[derive(Debug, PartialEq, Eq)]
pub struct SyncEvent {
    pub session_id: String,
    pub file_name: String,
    pub remote_path: String,
    pub bytes: u64,
}

/// What the host is told when a save starts to fail.
#[derive(Debug, PartialEq, Eq)]
pub struct SyncErrorEvent {
    pub session_id: String,
    pub file_name: String,
    pub error: String,
}

/// What the loop has to tell the host.
#[derive(Debug, PartialEq, Eq)]
pub enum SyncNotice {
    Synced(SyncEvent),
    Failed(SyncErrorEvent),
}

impl SyncNotice {
    /// The name of the event that carries the notice.
    pub fn event_name(&self) -> (name: &'static str)
        ensures
            name@ == match self {
                SyncNotice::Synced(_) => "editor-sync"@,
                SyncNotice::Failed(_) => "editor-sync-error"@,
            },
    {
        match self {
            SyncNotice::Synced(_) => "editor-sync",
            SyncNotice::Failed(_) => "editor-sync-error",
        }
    }
}

/// What the loop is to do next.
#[derive(Clone, Copy, Debug, PartialEq, Eq, Structural)]
pub enum SyncStage {
    /// Wait for the next poll or for the end of the session.
    Wait,
    /// Read the local file.
    ReadFile,
    /// Upload the local file, whose content has this hash.
    Upload { hash: u64 },
    /// Remove the session's directory.
    RemoveTempDir,
    /// Nothing more.
    Stopped,
}

/// What came of the loop's last stage.
#[derive(Debug, PartialEq, Eq)]
pub enum SyncInput {
    /// The poll interval has passed.
    Tick,
    /// The session was closed.
    Cancelled,
    /// The content of the file, or nothing where it could not be read.
    FileRead(Option<Vec<u8>>),
    /// The bytes uploaded, or why the upload failed.
    Uploaded(Result<u64, String>),
    /// The directory is gone, or could not be removed.
    TempDirRemoved,
}

/// An input with content taken by its hash and errors by their text.
pub ghost enum SyncInputView {
    Tick,
    Cancelled,
    FileRead(Option<u64>),
    Uploaded(Result<u64, Seq<char>>),
    TempDirRemoved,
}

impl View for SyncInput {
    type V = SyncInputView;

    open spec fn view(&self) -> SyncInputView {
        match *self {
            SyncInput::Tick => SyncInputView::Tick,
            SyncInput::Cancelled => SyncInputView::Cancelled,
            SyncInput::FileRead(Some(bytes)) => SyncInputView::FileRead(
                Some(content_hash(bytes@)),
            ),
            SyncInput::FileRead(None) => SyncInputView::FileRead(None),
            SyncInput::Uploaded(Ok(bytes)) => SyncInputView::Uploaded(Ok(bytes)),
            SyncInput::Uploaded(Err(error)) => SyncInputView::Uploaded(Err(error@)),
            SyncInput::TempDirRemoved => SyncInputView::TempDirRemoved,
        }
    }
}

/// The state and the stage that follow on an input. An input that does not answer the stage
/// changes nothing.
pub open spec fn sync_next(state: SyncState, stage: SyncStage, input: SyncInputView) -> (
    SyncState,
    SyncStage,
) {
    match (stage, input) {
        (SyncStage::Wait, SyncInputView::Tick) => (state, SyncStage::ReadFile),
        (SyncStage::Wait, SyncInputView::Cancelled) => (state, SyncStage::RemoveTempDir),
        (SyncStage::ReadFile, SyncInputView::FileRead(None)) => (state, SyncStage::Wait),
        (SyncStage::ReadFile, SyncInputView::FileRead(Some(hash))) => (
            state.after_poll(hash),
            if state.wants_upload(hash) {
                SyncStage::Upload { hash }
            } else {
                SyncStage::Wait
            },
        ),
        (SyncStage::Upload { hash }, SyncInputView::Uploaded(result)) => (
            state.after_upload(hash, result is Ok),
            SyncStage::Wait,
        ),
        (SyncStage::RemoveTempDir, SyncInputView::TempDirRemoved) => (state, SyncStage::Stopped),
        _ => (state, stage),
    }
}

/// One session's loop.
pub struct SyncLoop {
    pub session_id: String,
    pub connection_id: String,
    pub remote_path: String,
    pub file_name: String,
    pub local_path: String,
    pub temp_dir: String,
    pub state: SyncState,
    pub stage: SyncStage,
}

impl SyncLoop {
    /// The state is sound, and only content that wants it is being uploaded.
    pub open spec fn wf(self) -> bool {
        &&& self.state.wf()
        &&& self.stage matches SyncStage::Upload { hash } ==> self.state.wants_upload(hash)
    }

    /// What never changes over the life of a loop.
    pub open spec fn same_session(self, other: SyncLoop) -> bool {
        &&& self.session_id@ == other.session_id@
        &&& self.connection_id@ == other.connection_id@
        &&& self.remote_path@ == other.remote_path@
        &&& self.file_name@ == other.file_name@
        &&& self.local_path@ == other.local_path@
        &&& self.temp_dir@ == other.temp_dir@
    }

    /// What the host is told on an input: of every upload that succeeds, and of every upload
    /// that fails and is news.
    pub open spec fn tells(self, input: SyncInputView, notice: Option<SyncNotice>) -> bool {
        match (self.stage, input) {
            (SyncStage::Upload { hash }, SyncInputView::Uploaded(Ok(bytes))) => {
                &&& notice matches Some(SyncNotice::Synced(event))
                &&& event.session_id@ == self.session_id@
                &&& event.file_name@ == self.file_name@
                &&& event.remote_path@ == self.remote_path@
                &&& event.bytes == bytes
            },
            (SyncStage::Upload { hash }, SyncInputView::Uploaded(Err(error))) => {
                if self.state.is_new_failure(hash) {
                    &&& notice matches Some(SyncNotice::Failed(event))
                    &&& event.session_id@ == self.session_id@
                    &&& event.file_name@ == self.file_name@
                    &&& event.error@ == error
                } else {
                    notice is None
                }
            },
            _ => notice is None,
        }
    }

    /// The loop of a session whose file has just been downloaded and hashed.
    pub fn new(
        session_id: String,
        connection_id: String,
        remote_path: String,
        file_name: String,
        local_path: String,
        temp_dir: String,
        initial_hash: u64,
    ) -> (sync: SyncLoop)
        ensures
            sync.session_id@ == session_id@,
            sync.connection_id@ == connection_id@,
            sync.remote_path@ == remote_path@,
            sync.file_name@ == file_name@,
            sync.local_path@ == local_path@,
            sync.temp_dir@ == temp_dir@,
            sync.state == (SyncState { last_synced: initial_hash, failing: None, backoff: 0 }),
            sync.stage == SyncStage::Wait,
            sync.wf(),
    {
        SyncLoop {
            session_id,
            connection_id,
            remote_path,
            file_name,
            local_path,
            temp_dir,
            state: SyncState::new(initial_hash),
            stage: SyncStage::Wait,
        }
    }

    /// The upload of the session's file.
    pub fn upload(&self) -> (transfer: Transfer)
        ensures
            transfer.direction == Direction::Upload,
            transfer.connection_id@ == self.connection_id@,
            transfer.local_path@ == self.local_path@,
            transfer.remote_path@ == self.remote_path@,
            transfer.stage@ == TransferStageView::LookUpType,
    {
        upload_from_path(
            self.connection_id.clone(),
            self.local_path.clone(),
            self.remote_path.clone(),
        )
    }

    /// Takes what came of the stage, moves on to the next one, and returns what the host is to
    /// be told.
    pub fn step(&mut self, input: SyncInput) -> (notice: Option<SyncNotice>)
        ensures
            (final(self).state, final(self).stage) == sync_next(
                old(self).state,
                old(self).stage,
                input@,
            ),
            old(self).tells(input@, notice),
            final(self).same_session(*old(self)),
            old(self).wf() ==> final(self).wf(),
    {
        match (self.stage, input) {
            (SyncStage::Wait, SyncInput::Tick) => {
                self.stage = SyncStage::ReadFile;
                None
            },
            (SyncStage::Wait, SyncInput::Cancelled) => {
                self.stage = SyncStage::RemoveTempDir;
                None
            },
            (SyncStage::ReadFile, SyncInput::FileRead(None)) => {
                self.stage = SyncStage::Wait;
                None
            },
            (SyncStage::ReadFile, SyncInput::FileRead(Some(bytes))) => {
                let hash: u64 = hash_bytes(bytes.as_slice());
                if self.state.poll(hash) {
                    self.stage = SyncStage::Upload { hash };
                } else {
                    self.stage = SyncStage::Wait;
                }
                None
            },
            (SyncStage::Upload { hash }, SyncInput::Uploaded(Ok(bytes))) => {
                self.state.uploaded(hash);
                self.stage = SyncStage::Wait;
                Some(
                    SyncNotice::Synced(
                        SyncEvent {
                            session_id: self.session_id.clone(),
                            file_name: self.file_name.clone(),
                            remote_path: self.remote_path.clone(),
                            bytes,
                        },
                    ),
                )
            },
            (SyncStage::Upload { hash }, SyncInput::Uploaded(Err(error))) => {
                let is_new = self.state.upload_failed(hash);
                self.stage = SyncStage::Wait;
                if is_new {
                    Some(
                        SyncNotice::Failed(
                            SyncErrorEvent {
                                session_id: self.session_id.clone(),
                                file_name: self.file_name.clone(),
                                error,
                            },
                        ),
                    )
                } else {
                    None
                }
            },
            (SyncStage::RemoveTempDir, SyncInput::TempDirRemoved) => {
                self.stage = SyncStage::Stopped;
                None
            },
            _ => None,
        }
    }
}

} // verus!
