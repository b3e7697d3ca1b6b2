//! What holds of an opening over any run of inputs.
use std::collections::hash_map::DefaultHasher;
use vstd::prelude::*;
use vstd::std_specs::hash::DefaultHasherAdditionalSpecFns;

use crate::editor::identity::{byte_slice_writes, session_id};
use crate::editor::open::{
    open_next, sessions_after_input, setup_error, OpenEditor, OpenInput, OpenInputView, OpenStage,
    OpenStageView,
};
use crate::editor::paths::PathStyle;
use crate::editor::registry::{
    every_open_has_its_own_directory, instance_after_opens, new_session, sessions_after_open,
    EditSessionView,
};

verus! {

/// The stage of an opening after a run of inputs.
pub open spec fn open_run(
    id: Seq<char>,
    start: OpenStageView,
    inputs: Seq<OpenInputView>,
) -> OpenStageView
    decreases inputs.len(),
{
    if inputs.len() == 0 {
        start
    } else {
        open_next(id, open_run(id, start, inputs.drop_last()), inputs.last())
    }
}

/// The stage that input `i` of a run answers.
pub open spec fn stage_before(
    id: Seq<char>,
    start: OpenStageView,
    inputs: Seq<OpenInputView>,
    i: int,
) -> OpenStageView {
    open_run(id, start, inputs.take(i))
}

/// The sessions after a run of inputs to an opening.
pub open spec fn sessions_run<C>(
    sessions: Map<Seq<char>, EditSessionView<C>>,
    id: Seq<char>,
    temp_dir: Option<Seq<char>>,
    start: OpenStageView,
    inputs: Seq<OpenInputView>,
) -> Map<Seq<char>, EditSessionView<C>>
    decreases inputs.len(),
{
    if inputs.len() == 0 {
        sessions
    } else {
        sessions_after_input(
            sessions_run(sessions, id, temp_dir, start, inputs.drop_last()),
            id,
            temp_dir,
            open_run(id, start, inputs.drop_last()),
            inputs.last(),
        )
    }
}

/// A stage other than the first was entered by some input.
proof fn lemma_entered(
    id: Seq<char>,
    start: OpenStageView,
    inputs: Seq<OpenInputView>,
) -> (i: int)
    requires
        open_run(id, start, inputs) != start,
    ensures
        0 <= i < inputs.len(),
        stage_before(id, start, inputs, i) != open_run(id, start, inputs),
        open_next(id, stage_before(id, start, inputs, i), inputs[i]) == open_run(id, start, inputs),
    decreases inputs.len(),
{
    let n = inputs.len() - 1;
    let earlier = inputs.drop_last();
    assert(inputs.take(n) == earlier);
    if open_run(id, start, earlier) != open_run(id, start, inputs) {
        n
    } else {
        let i = lemma_entered(id, start, earlier);
        assert(earlier.take(i) == inputs.take(i));
        i
    }
}

/// An opening that finds a session only brings it to the front: it creates and removes nothing,
/// and no session changes.
pub proof fn refocusing_changes_nothing<C>(
    sessions: Map<Seq<char>, EditSessionView<C>>,
    id: Seq<char>,
    temp_dir: Option<Seq<char>>,
    inputs: Seq<OpenInputView>,
)
    ensures
        ({
            let start = OpenStageView::CheckLocalFile;
            let end = open_run(id, start, inputs);
            &&& end is CheckLocalFile || end is Refocus || end is Done
            &&& sessions_run(sessions, id, temp_dir, start, inputs) == sessions
        }),
    decreases inputs.len(),
{
    if inputs.len() > 0 {
        refocusing_changes_nothing(sessions, id, temp_dir, inputs.drop_last());
        lemma_stays_in_refocus(id, inputs);
    }
}

/// The stages of a new session's opening.
pub open spec fn in_setup(id: Seq<char>, stage: OpenStageView) -> bool {
    match stage {
        OpenStageView::CheckLocalFile => false,
        OpenStageView::Refocus => false,
        OpenStageView::Done(Ok(returned)) => returned == id,
        _ => true,
    }
}

proof fn lemma_stays_in_setup(id: Seq<char>, inputs: Seq<OpenInputView>)
    ensures
        in_setup(id, open_run(id, OpenStageView::CreateTempDir, inputs)),
    decreases inputs.len(),
{
    if inputs.len() > 0 {
        lemma_stays_in_setup(id, inputs.drop_last());
    }
}

/// An opening that succeeds returns the id of its file's session, whether it found the session
/// or created it.
pub proof fn an_opening_returns_its_session(
    id: Seq<char>,
    start: OpenStageView,
    inputs: Seq<OpenInputView>,
    returned: Seq<char>,
)
    requires
        start is CheckLocalFile || start is CreateTempDir,
        open_run(id, start, inputs) == OpenStageView::Done(Ok::<Seq<char>, Seq<char>>(returned)),
    ensures
        returned == id,
{
    if start is CheckLocalFile {
        lemma_stays_in_refocus(id, inputs);
    } else {
        lemma_stays_in_setup(id, inputs);
    }
}

proof fn lemma_stays_in_refocus(id: Seq<char>, inputs: Seq<OpenInputView>)
    ensures
        ({
            let end = open_run(id, OpenStageView::CheckLocalFile, inputs);
            &&& end is CheckLocalFile || end is Refocus || end is Done
            &&& end matches OpenStageView::Done(Ok(returned)) ==> returned == id
        }),
    decreases inputs.len(),
{
    if inputs.len() > 0 {
        lemma_stays_in_refocus(id, inputs.drop_last());
    }
}

/// An opening that fails has removed its directory, and reports the error of the setup step
/// that failed.
pub proof fn a_failed_opening_was_rolled_back(
    id: Seq<char>,
    inputs: Seq<OpenInputView>,
    error: Seq<char>,
) -> (steps: (int, int))
    requires
        open_run(id, OpenStageView::CreateTempDir, inputs) == OpenStageView::Done(
            Err::<Seq<char>, Seq<char>>(error),
        ),
    ensures
        ({
            let (failed, removed) = steps;
            let start = OpenStageView::CreateTempDir;
            &&& 0 <= failed < removed < inputs.len()
            &&& setup_error(stage_before(id, start, inputs, failed), inputs[failed]) == Some(error)
            &&& stage_before(id, start, inputs, removed) == (OpenStageView::RollBack { error })
            &&& inputs[removed] == OpenInputView::TempDirRemoved
        }),
{
    let start = OpenStageView::CreateTempDir;
    let removed = lemma_entered(id, start, inputs);
    lemma_stays_in_setup(id, inputs.take(removed));
    let failed = lemma_entered(id, start, inputs.take(removed));
    assert(inputs.take(removed).take(failed) == inputs.take(failed));
    (failed, removed)
}

/// A sync loop is started only on a file that was downloaded, read with the hash that the loop
/// starts on, and opened in the editor, in that order, and only where the session had not been
/// closed by then.
pub proof fn syncing_starts_after_a_full_setup(
    id: Seq<char>,
    inputs: Seq<OpenInputView>,
    initial_hash: u64,
) -> (steps: (int, int, int, int, int))
    requires
        open_run(id, OpenStageView::CreateTempDir, inputs) == (OpenStageView::StartSync {
            initial_hash,
        }),
    ensures
        ({
            let (created, downloaded, read, launched, checked) = steps;
            &&& 0 <= created < downloaded < read < launched < checked < inputs.len()
            &&& inputs[created] matches OpenInputView::TempDirCreated(Ok(_))
            &&& inputs[downloaded] matches OpenInputView::Downloaded(Ok(_))
            &&& inputs[read] == OpenInputView::FileRead(Ok::<u64, Seq<char>>(initial_hash))
            &&& inputs[launched] matches OpenInputView::EditorLaunched(Ok(_))
            &&& inputs[checked] == OpenInputView::Closed(false)
        }),
{
    let start = OpenStageView::CreateTempDir;
    let checked = lemma_entered(id, start, inputs);
    let before_check = inputs.take(checked);
    let launched = lemma_entered(id, start, before_check);
    let before_launch = before_check.take(launched);
    let read = lemma_entered(id, start, before_launch);
    let before_read = before_launch.take(read);
    let downloaded = lemma_entered(id, start, before_read);
    let before_download = before_read.take(downloaded);
    let created = lemma_entered(id, start, before_download);
    (created, downloaded, read, launched, checked)
}

/// A session that was closed during its setup is not synced: its directory is removed and its
/// id returned.
pub proof fn a_session_closed_during_setup_is_discarded(id: Seq<char>, initial_hash: u64)
    ensures
        ({
            let discard = open_next(
                id,
                OpenStageView::CheckClosed { initial_hash },
                OpenInputView::Closed(true),
            );
            &&& discard == OpenStageView::Discard
            &&& open_next(id, discard, OpenInputView::TempDirRemoved) == OpenStageView::Done(
                Ok::<Seq<char>, Seq<char>>(id),
            )
        }),
{
}

/// An opening that fails, while nothing else changes the registry, leaves the sessions as they
/// were before it; one that succeeds leaves its session registered.
pub proof fn only_a_failed_opening_is_taken_back<C>(
    sessions: Map<Seq<char>, EditSessionView<C>>,
    id: Seq<char>,
    opened: EditSessionView<C>,
    inputs: Seq<OpenInputView>,
)
    requires
        !sessions.contains_key(id),
    ensures
        ({
            let start = OpenStageView::CreateTempDir;
            let end = open_run(id, start, inputs);
            let registered = sessions_after_open(sessions, id, opened);
            let failed = end is RollBack || (end matches OpenStageView::Done(result) && result
                is Err);
            sessions_run(registered, id, Some(opened.temp_dir), start, inputs) == if failed {
                sessions
            } else {
                registered
            }
        }),
    decreases inputs.len(),
{
    assert(sessions.insert(id, opened).remove(id) =~= sessions);
    if inputs.len() > 0 {
        only_a_failed_opening_is_taken_back(sessions, id, opened, inputs.drop_last());
        lemma_stays_in_setup(id, inputs.drop_last());
    }
}

/// An opening touches no session but its own, whatever becomes of it: not that of another file,
/// and not one that another open of the same file has registered in another directory.
pub proof fn other_openings_are_left_alone<C>(
    sessions: Map<Seq<char>, EditSessionView<C>>,
    id: Seq<char>,
    temp_dir: Option<Seq<char>>,
    start: OpenStageView,
    inputs: Seq<OpenInputView>,
    other: Seq<char>,
)
    requires
        sessions.contains_key(other),
        other != id || temp_dir != Some(sessions[other].temp_dir),
    ensures
        sessions_run(sessions, id, temp_dir, start, inputs).contains_key(other),
        sessions_run(sessions, id, temp_dir, start, inputs)[other] == sessions[other],
    decreases inputs.len(),
{
    if inputs.len() > 0 {
        other_openings_are_left_alone(sessions, id, temp_dir, start, inputs.drop_last(), other);
    }
}

/// A file that was closed during its setup and opened again keeps its new session, whatever
/// becomes of the first opening.
pub proof fn a_reopened_session_survives<C>(
    sessions: Map<Seq<char>, EditSessionView<C>>,
    temp_root: Seq<char>,
    style: PathStyle,
    connection_id: Seq<char>,
    remote_path: Seq<char>,
    first: (u64, Seq<char>, C),
    second: (nat, Seq<char>, C),
    inputs: Seq<OpenInputView>,
)
    requires
        0 < second.0 <= u64::MAX,
        !sessions.contains_key(session_id(connection_id, remote_path)),
    ensures
        ({
            let id = session_id(connection_id, remote_path);
            let failing = new_session(
                temp_root,
                style,
                first.0,
                connection_id,
                remote_path,
                first.1,
                first.2,
            );
            let reopened = new_session(
                temp_root,
                style,
                instance_after_opens(first.0, second.0),
                connection_id,
                remote_path,
                second.1,
                second.2,
            );
            let closed = sessions_after_open(sessions, id, failing).remove(id);
            let open_again = sessions_after_open(closed, id, reopened);
            let end = sessions_run(
                open_again,
                id,
                Some(failing.temp_dir),
                OpenStageView::CreateTempDir,
                inputs,
            );
            end.contains_key(id) && end[id] == reopened
        }),
{
    let id = session_id(connection_id, remote_path);
    let (instance, name, cancel) = first;
    let failing = new_session(
        temp_root,
        style,
        instance,
        connection_id,
        remote_path,
        name,
        cancel,
    );
    let (later, name, cancel) = second;
    let reopened = new_session(
        temp_root,
        style,
        instance_after_opens(instance, later),
        connection_id,
        remote_path,
        name,
        cancel,
    );
    every_open_has_its_own_directory(
        temp_root,
        style,
        instance,
        later,
        connection_id,
        remote_path,
        connection_id,
        remote_path,
    );
    let closed = sessions_after_open(sessions, id, failing).remove(id);
    other_openings_are_left_alone(
        sessions_after_open(closed, id, reopened),
        id,
        Some(failing.temp_dir),
        OpenStageView::CreateTempDir,
        inputs,
        id,
    );
}

proof fn lemma_open_push(
    id: Seq<char>,
    start: OpenStageView,
    inputs: Seq<OpenInputView>,
    input: OpenInputView,
)
    ensures
        open_run(id, start, inputs.push(input)) == open_next(
            id,
            open_run(id, start, inputs),
            input,
        ),
{
    assert(inputs.push(input).drop_last() == inputs);
}

/// An opening whose steps all succeed starts syncing from the hash of what it has read, however
/// many bytes were downloaded, and returns the session's id.
pub proof fn an_opening_that_goes_well_is_synced(id: Seq<char>, bytes: u64, initial_hash: u64)
    ensures
        ({
            let start = OpenStageView::CreateTempDir;
            let created = seq![OpenInputView::TempDirCreated(Ok::<(), Seq<char>>(()))];
            let downloaded = created.push(OpenInputView::Downloaded(Ok::<u64, Seq<char>>(bytes)));
            let read = downloaded.push(OpenInputView::FileRead(Ok::<u64, Seq<char>>(initial_hash)));
            let launched = read.push(OpenInputView::EditorLaunched(Ok::<(), Seq<char>>(())));
            let checked = launched.push(OpenInputView::Closed(false));
            let started = checked.push(OpenInputView::SyncStarted);
            &&& open_run(id, start, created) is Download
            &&& open_run(id, start, downloaded) is ReadLocalFile
            &&& open_run(id, start, read) == OpenStageView::LaunchEditor { initial_hash }
            &&& open_run(id, start, launched) == OpenStageView::CheckClosed { initial_hash }
            &&& open_run(id, start, checked) == OpenStageView::StartSync { initial_hash }
            &&& open_run(id, start, started) == OpenStageView::Done(
                Ok::<Seq<char>, Seq<char>>(id),
            )
        }),
{
    let start = OpenStageView::CreateTempDir;
    let none = Seq::<OpenInputView>::empty();
    let first = OpenInputView::TempDirCreated(Ok::<(), Seq<char>>(()));
    let created = seq![first];
    assert(none.push(first) == created);
    lemma_open_push(id, start, none, first);
    let second = OpenInputView::Downloaded(Ok::<u64, Seq<char>>(bytes));
    let downloaded = created.push(second);
    lemma_open_push(id, start, created, second);
    let third = OpenInputView::FileRead(Ok::<u64, Seq<char>>(initial_hash));
    let read = downloaded.push(third);
    lemma_open_push(id, start, downloaded, third);
    let fourth = OpenInputView::EditorLaunched(Ok::<(), Seq<char>>(()));
    let launched = read.push(fourth);
    lemma_open_push(id, start, read, fourth);
    let checked = launched.push(OpenInputView::Closed(false));
    lemma_open_push(id, start, launched, OpenInputView::Closed(false));
    lemma_open_push(id, start, checked, OpenInputView::SyncStarted);
}

/// A step that succeeds leads to the next one, whatever came before it. The hash of what was
/// read is passed on unchanged.
pub proof fn a_step_that_succeeds_leads_on(
    id: Seq<char>,
    start: OpenStageView,
    inputs: Seq<OpenInputView>,
    bytes: u64,
    hash: u64,
    closed: bool,
)
    ensures
        ({
            let stage = open_run(id, start, inputs);
            let created = inputs.push(OpenInputView::TempDirCreated(Ok::<(), Seq<char>>(())));
            let downloaded = inputs.push(OpenInputView::Downloaded(Ok::<u64, Seq<char>>(bytes)));
            let read = inputs.push(OpenInputView::FileRead(Ok::<u64, Seq<char>>(hash)));
            let launched = inputs.push(OpenInputView::EditorLaunched(Ok::<(), Seq<char>>(())));
            let checked = inputs.push(OpenInputView::Closed(closed));
            let removed = inputs.push(OpenInputView::TempDirRemoved);
            let started = inputs.push(OpenInputView::SyncStarted);
            let returned = OpenStageView::Done(Ok::<Seq<char>, Seq<char>>(id));
            &&& stage is CreateTempDir ==> open_run(id, start, created) is Download
            &&& stage is Download ==> open_run(id, start, downloaded) is ReadLocalFile
            &&& stage is ReadLocalFile ==> open_run(id, start, read) == (
            OpenStageView::LaunchEditor { initial_hash: hash })
            &&& stage matches OpenStageView::LaunchEditor { initial_hash } ==> open_run(
                id,
                start,
                launched,
            ) == OpenStageView::CheckClosed { initial_hash }
            &&& stage matches OpenStageView::CheckClosed { initial_hash } ==> open_run(
                id,
                start,
                checked,
            ) == if closed {
                OpenStageView::Discard
            } else {
                OpenStageView::StartSync { initial_hash }
            }
            &&& stage is Discard ==> open_run(id, start, removed) == returned
            &&& stage is StartSync ==> open_run(id, start, started) == returned
        }),
{
    let created = OpenInputView::TempDirCreated(Ok::<(), Seq<char>>(()));
    let launched = OpenInputView::EditorLaunched(Ok::<(), Seq<char>>(()));
    lemma_open_push(id, start, inputs, created);
    lemma_open_push(id, start, inputs, OpenInputView::Downloaded(Ok::<u64, Seq<char>>(bytes)));
    lemma_open_push(id, start, inputs, OpenInputView::FileRead(Ok::<u64, Seq<char>>(hash)));
    lemma_open_push(id, start, inputs, launched);
    lemma_open_push(id, start, inputs, OpenInputView::Closed(closed));
    lemma_open_push(id, start, inputs, OpenInputView::TempDirRemoved);
    lemma_open_push(id, start, inputs, OpenInputView::SyncStarted);
}

/// A step that fails has the opening rolled back, and its error is what the opening fails with:
/// word for word, and with what was being done where the error does not say it.
pub proof fn a_step_that_fails_is_reported(
    id: Seq<char>,
    start: OpenStageView,
    inputs: Seq<OpenInputView>,
    error: Seq<char>,
)
    ensures
        ({
            let stage = open_run(id, start, inputs);
            let created = inputs.push(OpenInputView::TempDirCreated(Err::<(), Seq<char>>(error)));
            let downloaded = inputs.push(OpenInputView::Downloaded(Err::<u64, Seq<char>>(error)));
            let read = inputs.push(OpenInputView::FileRead(Err::<u64, Seq<char>>(error)));
            let launched = inputs.push(OpenInputView::EditorLaunched(Err::<(), Seq<char>>(error)));
            let removed = inputs.push(OpenInputView::TempDirRemoved);
            &&& stage is CreateTempDir ==> open_run(id, start, created) == (
            OpenStageView::RollBack { error: "Failed to create temp dir: "@ + error })
            &&& stage is Download ==> open_run(id, start, downloaded) == (
            OpenStageView::RollBack { error })
            &&& stage is ReadLocalFile ==> open_run(id, start, read) == (
            OpenStageView::RollBack { error: "Failed to read downloaded file: "@ + error })
            &&& stage is LaunchEditor ==> open_run(id, start, launched) == (
            OpenStageView::RollBack { error })
            &&& stage == OpenStageView::RollBack { error } ==> open_run(id, start, removed)
                == OpenStageView::Done(Err::<Seq<char>, Seq<char>>(error))
        }),
{
    let created = OpenInputView::TempDirCreated(Err::<(), Seq<char>>(error));
    let launched = OpenInputView::EditorLaunched(Err::<(), Seq<char>>(error));
    lemma_open_push(id, start, inputs, created);
    lemma_open_push(id, start, inputs, OpenInputView::Downloaded(Err::<u64, Seq<char>>(error)));
    lemma_open_push(id, start, inputs, OpenInputView::FileRead(Err::<u64, Seq<char>>(error)));
    lemma_open_push(id, start, inputs, launched);
    lemma_open_push(id, start, inputs, OpenInputView::TempDirRemoved);
}

/// A session that was found is brought to the front where its file exists, and is returned
/// without that where another open is still downloading the file. Only the launch can fail, with
/// the launch's own error.
pub proof fn a_found_session_is_brought_to_the_front(
    id: Seq<char>,
    start: OpenStageView,
    inputs: Seq<OpenInputView>,
    error: Seq<char>,
)
    ensures
        ({
            let stage = open_run(id, start, inputs);
            let returned = OpenStageView::Done(Ok::<Seq<char>, Seq<char>>(id));
            let there = inputs.push(OpenInputView::LocalFileExists(true));
            let absent = inputs.push(OpenInputView::LocalFileExists(false));
            let launched = inputs.push(OpenInputView::EditorLaunched(Ok::<(), Seq<char>>(())));
            let failed = inputs.push(OpenInputView::EditorLaunched(Err::<(), Seq<char>>(error)));
            &&& stage is CheckLocalFile ==> open_run(id, start, there) is Refocus
            &&& stage is CheckLocalFile ==> open_run(id, start, absent) == returned
            &&& stage is Refocus ==> open_run(id, start, launched) == returned
            &&& stage is Refocus ==> open_run(id, start, failed) == OpenStageView::Done(
                Err::<Seq<char>, Seq<char>>(error),
            )
        }),
{
    let launched = OpenInputView::EditorLaunched(Ok::<(), Seq<char>>(()));
    let failed = OpenInputView::EditorLaunched(Err::<(), Seq<char>>(error));
    lemma_open_push(id, start, inputs, OpenInputView::LocalFileExists(true));
    lemma_open_push(id, start, inputs, OpenInputView::LocalFileExists(false));
    lemma_open_push(id, start, inputs, launched);
    lemma_open_push(id, start, inputs, failed);
}

/// Only the answer to its stage moves an opening on, and nothing moves one that has ended.
pub proof fn an_opening_waits_for_its_answer(
    id: Seq<char>,
    start: OpenStageView,
    inputs: Seq<OpenInputView>,
    input: OpenInputView,
)
    requires
        match open_run(id, start, inputs) {
            OpenStageView::CheckLocalFile => !(input is LocalFileExists),
            OpenStageView::Refocus => !(input is EditorLaunched),
            OpenStageView::CreateTempDir => !(input is TempDirCreated),
            OpenStageView::Download => !(input is Downloaded),
            OpenStageView::ReadLocalFile => !(input is FileRead),
            OpenStageView::LaunchEditor { .. } => !(input is EditorLaunched),
            OpenStageView::CheckClosed { .. } => !(input is Closed),
            OpenStageView::RollBack { .. } => !(input is TempDirRemoved),
            OpenStageView::Discard => !(input is TempDirRemoved),
            OpenStageView::StartSync { .. } => !(input is SyncStarted),
            OpenStageView::Done(_) => true,
        },
    ensures
        open_run(id, start, inputs.push(input)) == open_run(id, start, inputs),
{
    lemma_open_push(id, start, inputs, input);
}

/// An input changes the sessions only where it rolls the opening back, and then only by taking
/// out the session that lies in the opening's own directory.
pub proof fn only_a_roll_back_changes_the_sessions<C>(
    sessions: Map<Seq<char>, EditSessionView<C>>,
    id: Seq<char>,
    temp_dir: Option<Seq<char>>,
    stage: OpenStageView,
    input: OpenInputView,
    key: Seq<char>,
)
    ensures
        ({
            let after = sessions_after_input(sessions, id, temp_dir, stage, input);
            let next = open_next(id, stage, input);
            let rolled_back = next is RollBack && !(stage is RollBack);
            let own = key == id && temp_dir == Some(sessions[key].temp_dir);
            &&& after.contains_key(key) <==> sessions.contains_key(key) && !(rolled_back && own)
            &&& after.contains_key(key) ==> after[key] == sessions[key]
        }),
{
}

/// An opening keeps its file, its session and its directory over its whole life.
pub proof fn an_opening_keeps_its_file(before: OpenEditor, after: OpenEditor)
    requires
        after.same_opening(before),
    ensures
        after.session_id@ == before.session_id@,
        after.connection_id@ == before.connection_id@,
        after.remote_path@ == before.remote_path@,
        after.file_name@ == before.file_name@,
        after.local_path@ == before.local_path@,
        after.temp_dir == before.temp_dir,
        match before.temp_dir {
            Some(dir) => before.dir() == Some(dir@),
            None => before.dir() is None,
        },
{
}

/// The stage of an opening is seen as it is: no hash and no character is lost or changed in the
/// view of it.
pub proof fn an_opening_is_seen_as_it_is(stage: OpenStage)
    ensures
        match stage {
            OpenStage::CheckLocalFile => stage@ is CheckLocalFile,
            OpenStage::Refocus => stage@ is Refocus,
            OpenStage::CreateTempDir => stage@ is CreateTempDir,
            OpenStage::Download => stage@ is Download,
            OpenStage::ReadLocalFile => stage@ is ReadLocalFile,
            OpenStage::LaunchEditor { initial_hash } => stage@ == (OpenStageView::LaunchEditor {
                initial_hash,
            }),
            OpenStage::CheckClosed { initial_hash } => stage@ == (OpenStageView::CheckClosed {
                initial_hash,
            }),
            OpenStage::RollBack { error } => stage@ == (OpenStageView::RollBack { error: error@ }),
            OpenStage::Discard => stage@ is Discard,
            OpenStage::StartSync { initial_hash } => stage@ == (OpenStageView::StartSync {
                initial_hash,
            }),
            OpenStage::Done(Ok(id)) => stage@ == OpenStageView::Done(
                Ok::<Seq<char>, Seq<char>>(id@),
            ),
            OpenStage::Done(Err(error)) => stage@ == OpenStageView::Done(
                Err::<Seq<char>, Seq<char>>(error@),
            ),
        },
{
}

/// An opening sees what came in as it is: the whole content of the file by what the hasher gives
/// for it, and numbers and errors unchanged.
pub proof fn an_opening_sees_its_inputs_as_they_are(input: OpenInput)
    ensures
        match input {
            OpenInput::LocalFileExists(exists) => input@ == OpenInputView::LocalFileExists(exists),
            OpenInput::TempDirCreated(Ok(_)) => (input@ matches OpenInputView::TempDirCreated(Ok(_))),
            OpenInput::TempDirCreated(Err(error)) => input@ == OpenInputView::TempDirCreated(
                Err::<(), Seq<char>>(error@),
            ),
            OpenInput::Downloaded(Ok(bytes)) => input@ == OpenInputView::Downloaded(
                Ok::<u64, Seq<char>>(bytes),
            ),
            OpenInput::Downloaded(Err(error)) => input@ == OpenInputView::Downloaded(
                Err::<u64, Seq<char>>(error@),
            ),
            OpenInput::FileRead(Ok(bytes)) => input@ == OpenInputView::FileRead(
                Ok::<u64, Seq<char>>(DefaultHasher::spec_finish(byte_slice_writes(bytes@))),
            ),
            OpenInput::FileRead(Err(error)) => input@ == OpenInputView::FileRead(
                Err::<u64, Seq<char>>(error@),
            ),
            OpenInput::EditorLaunched(Ok(_)) => (input@ matches OpenInputView::EditorLaunched(Ok(_))),
            OpenInput::EditorLaunched(Err(error)) => input@ == OpenInputView::EditorLaunched(
                Err::<(), Seq<char>>(error@),
            ),
            OpenInput::Closed(closed) => input@ == OpenInputView::Closed(closed),
            OpenInput::TempDirRemoved => input@ is TempDirRemoved,
            OpenInput::SyncStarted => input@ is SyncStarted,
        },
{
}

} // verus!
