//! What holds of the sync loop over any run of polls.
use std::collections::hash_map::DefaultHasher;
use vstd::prelude::*;
use vstd::std_specs::hash::DefaultHasherAdditionalSpecFns;

use crate::editor::identity::byte_slice_writes;
use crate::editor::sync::{
    sync_next, SyncInput, SyncInputView, SyncLoop, SyncNotice, SyncStage, SyncState,
    ERROR_BACKOFF_TICKS,
};

verus! {

/// One poll: what was read, and what an upload of it gives should there be one.
pub ghost enum Poll {
    Unreadable,
    Content { hash: u64, uploads: bool },
}

/// Whether a poll leads to an upload.
pub open spec fn tries_upload(state: SyncState, poll: Poll) -> bool {
    poll matches Poll::Content { hash, .. } && state.wants_upload(hash)
}

/// Whether a poll leads to an upload that succeeds.
pub open spec fn syncs(state: SyncState, poll: Poll) -> bool {
    tries_upload(state, poll) && poll->uploads
}

/// Whether a poll leads to an error that the user is told of.
pub open spec fn reports(state: SyncState, poll: Poll) -> bool {
    tries_upload(state, poll) && !poll->uploads && state.is_new_failure(poll->hash)
}

/// The state after one poll and the upload that it leads to.
pub open spec fn tick(state: SyncState, poll: Poll) -> SyncState {
    match poll {
        Poll::Unreadable => state,
        Poll::Content { hash, uploads } => if state.wants_upload(hash) {
            state.after_poll(hash).after_upload(hash, uploads)
        } else {
            state.after_poll(hash)
        },
    }
}

/// The state after a run of polls.
pub open spec fn run(state: SyncState, polls: Seq<Poll>) -> SyncState
    decreases polls.len(),
{
    if polls.len() == 0 {
        state
    } else {
        tick(run(state, polls.drop_last()), polls.last())
    }
}

/// The state in which poll `i` of a run is made.
pub open spec fn state_before(state: SyncState, polls: Seq<Poll>, i: int) -> SyncState {
    run(state, polls.take(i))
}

/// The state and the stage of a loop after a run of inputs.
pub open spec fn sync_run(state: SyncState, stage: SyncStage, inputs: Seq<SyncInputView>) -> (
    SyncState,
    SyncStage,
)
    decreases inputs.len(),
{
    if inputs.len() == 0 {
        (state, stage)
    } else {
        let (state, stage) = sync_run(state, stage, inputs.drop_last());
        sync_next(state, stage, inputs.last())
    }
}

/// The inputs that a loop gets over one poll.
pub open spec fn round(state: SyncState, poll: Poll, outcome: Result<u64, Seq<char>>) -> Seq<
    SyncInputView,
> {
    match poll {
        Poll::Unreadable => seq![SyncInputView::Tick, SyncInputView::FileRead(None)],
        Poll::Content { hash, .. } => if state.wants_upload(hash) {
            seq![
                SyncInputView::Tick,
                SyncInputView::FileRead(Some(hash)),
                SyncInputView::Uploaded(outcome),
            ]
        } else {
            seq![SyncInputView::Tick, SyncInputView::FileRead(Some(hash))]
        },
    }
}

/// A round of the loop does to its state what `tick` says, and the loop waits again.
pub proof fn a_round_is_a_tick(state: SyncState, poll: Poll, outcome: Result<u64, Seq<char>>)
    requires
        poll matches Poll::Content { uploads, .. } ==> uploads == (outcome is Ok),
    ensures
        sync_run(state, SyncStage::Wait, round(state, poll, outcome)) == (
            tick(state, poll),
            SyncStage::Wait,
        ),
{
    reveal_with_fuel(sync_run, 4);
    let inputs = round(state, poll, outcome);
    assert(inputs.drop_last().drop_last() == inputs.take(inputs.len() - 2));
    assert(inputs.take(0) == Seq::<SyncInputView>::empty());
}

proof fn lemma_sync_run_splits(
    state: SyncState,
    stage: SyncStage,
    first: Seq<SyncInputView>,
    then: Seq<SyncInputView>,
)
    ensures
        sync_run(state, stage, first + then) == ({
            let middle = sync_run(state, stage, first);
            sync_run(middle.0, middle.1, then)
        }),
    decreases then.len(),
{
    if then.len() == 0 {
        assert(first + then == first);
    } else {
        lemma_sync_run_splits(state, stage, first, then.drop_last());
        assert((first + then).drop_last() == first + then.drop_last());
    }
}

/// The inputs that a loop gets over a run of polls.
pub open spec fn rounds(state: SyncState, polls: Seq<Poll>, outcomes: Seq<Result<u64, Seq<char>>>) -> Seq<
    SyncInputView,
>
    decreases polls.len(),
{
    if polls.len() == 0 {
        Seq::empty()
    } else {
        rounds(state, polls.drop_last(), outcomes) + round(
            run(state, polls.drop_last()),
            polls.last(),
            outcomes[polls.len() - 1],
        )
    }
}

/// The loop does to its state, over any number of rounds, what `run` says.
pub proof fn rounds_are_a_run(
    state: SyncState,
    polls: Seq<Poll>,
    outcomes: Seq<Result<u64, Seq<char>>>,
)
    requires
        forall|i: int|
            0 <= i < polls.len() ==> (#[trigger] polls[i] matches Poll::Content { uploads, .. }
                ==> uploads == (outcomes[i] is Ok)),
    ensures
        sync_run(state, SyncStage::Wait, rounds(state, polls, outcomes)) == (
            run(state, polls),
            SyncStage::Wait,
        ),
    decreases polls.len(),
{
    if polls.len() > 0 {
        let n = polls.len() - 1;
        let earlier = polls.drop_last();
        assert forall|i: int| 0 <= i < earlier.len() implies (#[trigger] earlier[i] matches
            Poll::Content { uploads, .. } ==> uploads == (outcomes[i] is Ok)) by {
            assert(earlier[i] == polls[i]);
        }
        rounds_are_a_run(state, earlier, outcomes);
        let last = round(run(state, earlier), polls.last(), outcomes[n]);
        lemma_sync_run_splits(state, SyncStage::Wait, rounds(state, earlier, outcomes), last);
        assert(polls.last() == polls[n]);
        a_round_is_a_tick(run(state, earlier), polls.last(), outcomes[n]);
    }
}

/// A loop tells the host what the run says: once it has read content of hash `hash` from
/// `state`, the outcome of the upload is told as a failure exactly where the poll `reports`, and
/// as a success exactly where it `syncs`.
pub proof fn the_host_is_told_what_happened(
    sync: SyncLoop,
    state: SyncState,
    hash: u64,
    outcome: Result<u64, Seq<char>>,
    notice: Option<SyncNotice>,
)
    requires
        (sync.state, sync.stage) == sync_run(
            state,
            SyncStage::Wait,
            seq![SyncInputView::Tick, SyncInputView::FileRead(Some(hash))],
        ),
        sync.tells(SyncInputView::Uploaded(outcome), notice),
    ensures
        ({
            let poll = Poll::Content { hash, uploads: outcome is Ok };
            &&& (notice is Some && notice->0 is Failed) <==> reports(state, poll)
            &&& (notice is Some && notice->0 is Synced) <==> syncs(state, poll)
        }),
{
    reveal_with_fuel(sync_run, 3);
    let inputs = seq![SyncInputView::Tick, SyncInputView::FileRead(Some(hash))];
    assert(inputs.drop_last() == seq![SyncInputView::Tick]);
    assert(inputs.drop_last().drop_last() == Seq::<SyncInputView>::empty());
}

/// The state stays sound over any run of polls.
pub proof fn runs_stay_sound(state: SyncState, polls: Seq<Poll>)
    requires
        state.wf(),
    ensures
        run(state, polls).wf(),
    decreases polls.len(),
{
    if polls.len() > 0 {
        runs_stay_sound(state, polls.drop_last());
    }
}

/// A file that is absent for a moment, as it is while an editor replaces it, changes nothing.
pub proof fn an_absent_file_changes_nothing(state: SyncState)
    ensures
        tick(state, Poll::Unreadable) == state,
        !tries_upload(state, Poll::Unreadable),
{
}

/// A save is uploaded at the first poll that reads it.
pub proof fn a_save_is_uploaded_at_once(state: SyncState, hash: u64, uploads: bool)
    requires
        hash != state.last_synced,
        state.failing != Some(hash),
    ensures
        tries_upload(state, Poll::Content { hash, uploads }),
{
}

/// Content that the server already has is never uploaded, and clears what was failing.
pub proof fn synced_content_is_left_alone(state: SyncState, uploads: bool)
    ensures
        !tries_upload(state, Poll::Content { hash: state.last_synced, uploads }),
        tick(state, Poll::Content { hash: state.last_synced, uploads }) == (SyncState {
            last_synced: state.last_synced,
            failing: None,
            backoff: 0,
        }),
{
}

/// Once content is synced, polls that read nothing else never upload it again, however many
/// there are.
pub proof fn an_upload_is_not_repeated(state: SyncState, polls: Seq<Poll>, i: int)
    requires
        0 <= i < polls.len(),
        forall|j: int|
            0 <= j < polls.len() ==> (#[trigger] polls[j] matches Poll::Content { hash, .. }
                ==> hash == state.last_synced),
    ensures
        !tries_upload(state_before(state, polls, i), polls[i]),
        state_before(state, polls, i).last_synced == state.last_synced,
    decreases i,
{
    if i > 0 {
        an_upload_is_not_repeated(state, polls, i - 1);
        assert(polls.take(i).drop_last() == polls.take(i - 1));
        assert(polls.take(i).last() == polls[i - 1]);
    }
}

/// `n` polls that read the same content, whose upload keeps the same outcome.
pub open spec fn unchanged(hash: u64, uploads: bool, n: nat) -> Seq<Poll> {
    Seq::new(n, |i: int| Poll::Content { hash, uploads })
}

proof fn lemma_unchanged_step(state: SyncState, hash: u64, uploads: bool, n: nat)
    requires
        n > 0,
    ensures
        run(state, unchanged(hash, uploads, n)) == tick(
            run(state, unchanged(hash, uploads, (n - 1) as nat)),
            Poll::Content { hash, uploads },
        ),
{
    assert(unchanged(hash, uploads, n).drop_last() == unchanged(hash, uploads, (n - 1) as nat));
}

/// While the upload of one content keeps failing, it is tried at the first poll and then at
/// every fifth one, and the user is told once.
pub proof fn a_failing_upload_is_retried_after_the_backoff(state: SyncState, hash: u64, n: nat)
    requires
        state.wf(),
        hash != state.last_synced,
        state.failing != Some(hash),
    ensures
        ({
            let before = run(state, unchanged(hash, false, n));
            let poll = Poll::Content { hash, uploads: false };
            &&& tries_upload(before, poll) <==> n % (ERROR_BACKOFF_TICKS + 1) as nat == 0
            &&& reports(before, poll) <==> n == 0
            &&& before.last_synced == state.last_synced
            &&& n > 0 ==> before.failing == Some(hash)
            &&& n > 0 ==> before.backoff == ERROR_BACKOFF_TICKS - (n - 1) % (ERROR_BACKOFF_TICKS
                + 1)
        }),
    decreases n,
{
    if n > 0 {
        a_failing_upload_is_retried_after_the_backoff(state, hash, (n - 1) as nat);
        lemma_unchanged_step(state, hash, false, n);
    }
}

/// Whether poll `i` of a run reads content and leads to no upload.
pub open spec fn waits_at(state: SyncState, polls: Seq<Poll>, i: int) -> bool {
    0 <= i < polls.len() && polls[i] is Content && !tries_upload(
        state_before(state, polls, i),
        polls[i],
    )
}

/// How many polls from `from` on, and before `to`, read content and lead to no upload.
pub open spec fn waits_between(state: SyncState, polls: Seq<Poll>, from: int, to: int) -> nat
    decreases to - from,
{
    if to <= from {
        0
    } else {
        waits_between(state, polls, from, to - 1) + if waits_at(state, polls, to - 1) {
            1nat
        } else {
            0nat
        }
    }
}

/// Between a failed upload and the next upload of the same content, the content is read and not
/// uploaded at least as often as the backoff says, however many polls in between could not read
/// the file.
pub proof fn a_retry_waits_for_the_backoff(state: SyncState, polls: Seq<Poll>, i: int, j: int)
    requires
        0 <= i < j < polls.len(),
        tries_upload(state_before(state, polls, i), polls[i]),
        !polls[i]->uploads,
        tries_upload(state_before(state, polls, j), polls[j]),
        forall|k: int|
            i < k <= j ==> (#[trigger] polls[k] matches Poll::Content { hash, .. } ==> hash
                == polls[i]->hash),
    ensures
        waits_between(state, polls, i + 1, j) >= ERROR_BACKOFF_TICKS,
{
    lemma_backoff_counts_down(state, polls, i, j);
}

proof fn lemma_backoff_counts_down(state: SyncState, polls: Seq<Poll>, i: int, j: int)
    requires
        0 <= i < j < polls.len(),
        tries_upload(state_before(state, polls, i), polls[i]),
        !polls[i]->uploads,
        forall|k: int|
            i < k <= j ==> (#[trigger] polls[k] matches Poll::Content { hash, .. } ==> hash
                == polls[i]->hash),
    ensures
        ({
            let before = state_before(state, polls, j);
            let waited = waits_between(state, polls, i + 1, j);
            ||| before.last_synced == polls[i]->hash
            ||| before.failing == Some(polls[i]->hash) && (waited >= ERROR_BACKOFF_TICKS
                || before.backoff + waited == ERROR_BACKOFF_TICKS)
        }),
    decreases j,
{
    assert(polls.take(j).drop_last() == polls.take(j - 1));
    assert(polls.take(j).last() == polls[j - 1]);
    if i < j - 1 {
        lemma_backoff_counts_down(state, polls, i, j - 1);
    }
}

/// Once uploads work again, unchanged content reaches the server within the backoff and one
/// more poll.
pub proof fn a_save_reaches_the_server(state: SyncState, hash: u64, n: nat)
    requires
        state.wf(),
        n > ERROR_BACKOFF_TICKS,
    ensures
        run(state, unchanged(hash, true, n)).last_synced == hash,
{
    lemma_waits_or_syncs(state, hash, n);
}

proof fn lemma_waits_or_syncs(state: SyncState, hash: u64, n: nat)
    requires
        state.wf(),
    ensures
        ({
            let after = run(state, unchanged(hash, true, n));
            ||| after.last_synced == hash
            ||| n <= state.backoff && after.failing == Some(hash) && after.backoff == state.backoff
                - n
            ||| n == 0 && after == state
        }),
    decreases n,
{
    if n > 0 {
        lemma_waits_or_syncs(state, hash, (n - 1) as nat);
        lemma_unchanged_step(state, hash, true, n);
    }
}

/// The user is told of a failing content once: after a failed upload, and as long as nothing
/// else is read, it is not reported again, whether its uploads go on failing or not.
pub proof fn a_failure_is_reported_once(state: SyncState, polls: Seq<Poll>, i: int, j: int)
    requires
        0 <= i < j < polls.len(),
        tries_upload(state_before(state, polls, i), polls[i]),
        !polls[i]->uploads,
        forall|k: int|
            i < k <= j ==> (#[trigger] polls[k] matches Poll::Content { hash, .. } ==> hash
                == polls[i]->hash),
    ensures
        !reports(state_before(state, polls, j), polls[j]),
{
    lemma_backoff_counts_down(state, polls, i, j);
}

/// Whether poll `i` of a run leads to an upload that succeeds.
pub open spec fn syncs_at(state: SyncState, polls: Seq<Poll>, i: int) -> bool {
    0 <= i < polls.len() && syncs(state_before(state, polls, i), polls[i])
}

/// Whether poll `i` is the last of a run that leads to an upload that succeeds.
pub open spec fn last_syncs_at(state: SyncState, polls: Seq<Poll>, i: int) -> bool {
    syncs_at(state, polls, i) && forall|j: int| j > i ==> !#[trigger] syncs_at(state, polls, j)
}

proof fn lemma_syncs_earlier(state: SyncState, polls: Seq<Poll>, i: int)
    requires
        polls.len() > 0,
        i < polls.len() - 1,
    ensures
        syncs_at(state, polls, i) == syncs_at(state, polls.drop_last(), i),
{
    if 0 <= i {
        assert(polls.drop_last().take(i) == polls.take(i));
    }
}

/// What the loop takes for synced is the content of the last upload that succeeded, or the
/// download that the loop started on where none has.
pub proof fn synced_means_last_uploaded(state: SyncState, polls: Seq<Poll>)
    ensures
        forall|i: int| #[trigger]
            last_syncs_at(state, polls, i) ==> run(state, polls).last_synced == polls[i]->hash,
        (forall|i: int| !#[trigger] syncs_at(state, polls, i)) ==> run(state, polls).last_synced
            == state.last_synced,
    decreases polls.len(),
{
    if polls.len() > 0 {
        let n = polls.len() - 1;
        let earlier = polls.drop_last();
        assert(polls.take(n) == earlier);
        synced_means_last_uploaded(state, earlier);
        assert forall|i: int| #[trigger] last_syncs_at(state, polls, i) implies run(
            state,
            polls,
        ).last_synced == polls[i]->hash by {
            if i < n {
                assert(!syncs_at(state, polls, n));
                lemma_syncs_earlier(state, polls, i);
                assert forall|j: int| j > i implies !#[trigger] syncs_at(state, earlier, j) by {
                    if j < n {
                        lemma_syncs_earlier(state, polls, j);
                        assert(!syncs_at(state, polls, j));
                    }
                }
                assert(last_syncs_at(state, earlier, i));
            }
        }
        if forall|i: int| !#[trigger] syncs_at(state, polls, i) {
            assert(!syncs_at(state, polls, n));
            assert forall|i: int| !#[trigger] syncs_at(state, earlier, i) by {
                if i < n {
                    lemma_syncs_earlier(state, polls, i);
                    assert(!syncs_at(state, polls, i));
                }
            }
        }
    }
}

/// A closed session is never uploaded again: once the loop has been told to stop, no input
/// leads to another upload, and the only stages left are the removal of the directory and the
/// end.
pub proof fn a_closed_session_stays_closed(state: SyncState, inputs: Seq<SyncInputView>)
    ensures
        ({
            let start = sync_next(state, SyncStage::Wait, SyncInputView::Cancelled);
            let end = sync_run(start.0, start.1, inputs);
            &&& start.1 == SyncStage::RemoveTempDir
            &&& end.0 == state
            &&& end.1 == SyncStage::RemoveTempDir || end.1 == SyncStage::Stopped
            &&& end.1 == SyncStage::Stopped <==> inputs.contains(SyncInputView::TempDirRemoved)
        }),
    decreases inputs.len(),
{
    if inputs.len() > 0 {
        let earlier = inputs.drop_last();
        a_closed_session_stays_closed(state, earlier);
        assert(inputs == earlier.push(inputs.last()));
        if inputs.last() == SyncInputView::TempDirRemoved {
            assert(inputs[inputs.len() - 1] == SyncInputView::TempDirRemoved);
        }
        if earlier.contains(SyncInputView::TempDirRemoved) {
            let k = choose|k: int|
                0 <= k < earlier.len() && earlier[k] == SyncInputView::TempDirRemoved;
            assert(inputs[k] == SyncInputView::TempDirRemoved);
        } else if inputs.contains(SyncInputView::TempDirRemoved) {
            let k = choose|k: int|
                0 <= k < inputs.len() && inputs[k] == SyncInputView::TempDirRemoved;
            if k < earlier.len() {
                assert(earlier[k] == SyncInputView::TempDirRemoved);
            }
        }
    }
}

/// A loop stops only where its session was closed.
pub proof fn a_loop_runs_until_closed(state: SyncState, inputs: Seq<SyncInputView>)
    requires
        !inputs.contains(SyncInputView::Cancelled),
    ensures
        ({
            let stage = sync_run(state, SyncStage::Wait, inputs).1;
            stage == SyncStage::Wait || stage == SyncStage::ReadFile || stage is Upload
        }),
    decreases inputs.len(),
{
    if inputs.len() > 0 {
        let earlier = inputs.drop_last();
        assert(inputs[inputs.len() - 1] != SyncInputView::Cancelled);
        assert forall|k: int| 0 <= k < earlier.len() implies #[trigger] earlier[k]
            != SyncInputView::Cancelled by {
            assert(inputs[k] != SyncInputView::Cancelled);
        }
        a_loop_runs_until_closed(state, earlier);
    }
}

/// Content whose upload is failing is left alone while the backoff lasts, and each poll that
/// reads it takes one from the backoff and changes nothing else; once the backoff is over the
/// content is uploaded.
pub proof fn failing_content_waits(state: SyncState, hash: u64)
    requires
        hash != state.last_synced,
        state.failing == Some(hash),
    ensures
        state.wants_upload(hash) <==> state.backoff == 0,
        state.backoff > 0 ==> ({
            let after = state.after_poll(hash);
            &&& after.backoff == state.backoff - 1
            &&& after.failing == Some(hash)
            &&& after.last_synced == state.last_synced
        }),
        state.backoff == 0 ==> state.after_poll(hash) == state,
{
}

/// Content that is neither synced nor failing is uploaded whatever else is failing, and the poll
/// that reads it changes nothing before the upload.
pub proof fn new_content_is_uploaded(state: SyncState, hash: u64)
    requires
        hash != state.last_synced,
        state.failing != Some(hash),
    ensures
        state.wants_upload(hash),
        state.after_poll(hash) == state,
        state.is_new_failure(hash),
{
}

/// Content that is read as it was last uploaded is not uploaded, and whatever was failing is
/// forgotten.
pub proof fn content_that_is_back_is_forgiven(state: SyncState)
    ensures
        !state.wants_upload(state.last_synced),
        state.after_poll(state.last_synced).last_synced == state.last_synced,
        state.after_poll(state.last_synced).failing is None,
        state.after_poll(state.last_synced).backoff == 0,
{
}

/// A successful upload makes its content the synced one and forgets what was failing. A failed
/// one leaves the synced content as it was, and its own content is tried again after four polls.
pub proof fn an_upload_is_remembered(state: SyncState, hash: u64)
    ensures
        ({
            let uploaded = state.after_upload(hash, true);
            &&& uploaded.last_synced == hash
            &&& uploaded.failing is None
            &&& uploaded.backoff == 0
        }),
        ({
            let failed = state.after_upload(hash, false);
            &&& failed.last_synced == state.last_synced
            &&& failed.failing == Some(hash)
            &&& failed.backoff == 4
            &&& !failed.is_new_failure(hash)
        }),
{
}

/// A tick has the file read, and the end of the session has its directory removed. A file that
/// could not be read is waited for, and one that was read is uploaded where the state wants it;
/// after the upload the loop waits again, whatever came of it.
pub proof fn a_loop_goes_on_with_its_answers(
    state: SyncState,
    hash: u64,
    outcome: Result<u64, Seq<char>>,
)
    ensures
        sync_next(state, SyncStage::Wait, SyncInputView::Tick) == (state, SyncStage::ReadFile),
        sync_next(state, SyncStage::Wait, SyncInputView::Cancelled) == (
            state,
            SyncStage::RemoveTempDir,
        ),
        sync_next(state, SyncStage::ReadFile, SyncInputView::FileRead(None)) == (
            state,
            SyncStage::Wait,
        ),
        ({
            let uploads = hash != state.last_synced && (state.failing != Some(hash) || state.backoff
                == 0);
            let (after, stage) = sync_next(
                state,
                SyncStage::ReadFile,
                SyncInputView::FileRead(Some(hash)),
            );
            &&& stage == SyncStage::Upload { hash } <==> uploads
            &&& stage == SyncStage::Wait <==> !uploads
            &&& after.last_synced == state.last_synced
            &&& uploads ==> after == state
        }),
        ({
            let (after, stage) = sync_next(
                state,
                SyncStage::Upload { hash },
                SyncInputView::Uploaded(outcome),
            );
            &&& stage == SyncStage::Wait
            &&& outcome is Ok ==> after.last_synced == hash && after.failing is None
            &&& outcome is Err ==> after.last_synced == state.last_synced && after.failing == Some(
                hash,
            ) && after.backoff == 4
        }),
        sync_next(state, SyncStage::RemoveTempDir, SyncInputView::TempDirRemoved) == (
            state,
            SyncStage::Stopped,
        ),
{
}

/// Only the answer to its stage moves a loop on, and nothing moves one that has stopped. A
/// session that is closed while its file is read or uploaded is closed once the loop waits.
pub proof fn a_loop_waits_for_its_answer(state: SyncState, stage: SyncStage, input: SyncInputView)
    requires
        match stage {
            SyncStage::Wait => !(input is Tick) && !(input is Cancelled),
            SyncStage::ReadFile => !(input is FileRead),
            SyncStage::Upload { .. } => !(input is Uploaded),
            SyncStage::RemoveTempDir => !(input is TempDirRemoved),
            SyncStage::Stopped => true,
        },
    ensures
        sync_next(state, stage, input) == (state, stage),
{
}

/// What the host is told of an upload is what came of it: the bytes that were uploaded, however
/// many, or the error, word for word, where the content was not failing before; and always of
/// this session and this file.
pub proof fn a_notice_says_what_came_of_the_upload(
    sync: SyncLoop,
    hash: u64,
    outcome: Result<u64, Seq<char>>,
    notice: Option<SyncNotice>,
)
    requires
        sync.stage == (SyncStage::Upload { hash }),
        sync.tells(SyncInputView::Uploaded(outcome), notice),
    ensures
        match outcome {
            Ok(bytes) => {
                &&& notice matches Some(SyncNotice::Synced(event))
                &&& event.session_id@ == sync.session_id@
                &&& event.file_name@ == sync.file_name@
                &&& event.remote_path@ == sync.remote_path@
                &&& event.bytes == bytes
            },
            Err(error) => if sync.state.failing == Some(hash) {
                notice is None
            } else {
                &&& notice matches Some(SyncNotice::Failed(event))
                &&& event.session_id@ == sync.session_id@
                &&& event.file_name@ == sync.file_name@
                &&& event.error@ == error
            },
        },
{
}

/// Nothing but the end of an upload is told.
pub proof fn only_uploads_are_told(
    sync: SyncLoop,
    input: SyncInputView,
    notice: Option<SyncNotice>,
)
    requires
        sync.tells(input, notice),
        !(sync.stage is Upload) || !(input is Uploaded),
    ensures
        notice is None,
{
}

/// A loop keeps its session over its whole life.
pub proof fn a_loop_keeps_its_session(before: SyncLoop, after: SyncLoop)
    requires
        after.same_session(before),
    ensures
        after.session_id@ == before.session_id@,
        after.connection_id@ == before.connection_id@,
        after.remote_path@ == before.remote_path@,
        after.file_name@ == before.file_name@,
        after.local_path@ == before.local_path@,
        after.temp_dir@ == before.temp_dir@,
{
}

/// A loop sees what came in as it is: the whole content of the file by what the hasher gives for
/// it, and numbers and errors unchanged.
pub proof fn a_loop_sees_its_inputs_as_they_are(input: SyncInput)
    ensures
        match input {
            SyncInput::Tick => input@ is Tick,
            SyncInput::Cancelled => input@ is Cancelled,
            SyncInput::FileRead(Some(bytes)) => input@ == SyncInputView::FileRead(
                Some(DefaultHasher::spec_finish(byte_slice_writes(bytes@))),
            ),
            SyncInput::FileRead(None) => input@ == SyncInputView::FileRead(None),
            SyncInput::Uploaded(Ok(bytes)) => input@ == SyncInputView::Uploaded(
                Ok::<u64, Seq<char>>(bytes),
            ),
            SyncInput::Uploaded(Err(error)) => input@ == SyncInputView::Uploaded(
                Err::<u64, Seq<char>>(error@),
            ),
            SyncInput::TempDirRemoved => input@ is TempDirRemoved,
        },
{
}

} // verus!
