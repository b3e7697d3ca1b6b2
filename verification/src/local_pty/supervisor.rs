//! Resizing a session's terminal, and ending its shell.
use vstd::prelude::*;

use crate::local_pty::session::{
    a_size_is_cut_to_sixteen_bits, dimensions, pty_dimensions, PtyDimensions,
};

verus! {

/// What the supervisor is to do next.
#[derive(Clone, Copy, Debug, PartialEq, Eq, Structural)]
pub enum SupervisorStage {
    /// Wait for a change of size or for the end of the session.
    Listen,
    /// Give the terminal this size.
    Resize(PtyDimensions),
    /// Kill the shell.
    Kill,
    /// Wait for the shell's end.
    Reap,
    /// Nothing more.
    Stopped,
}

/// What came of the supervisor's last stage.
#[derive(Clone, Copy, Debug, PartialEq, Eq, Structural)]
pub enum SupervisorEvent {
    /// The session was cancelled.
    Cancelled,
    /// A new size is asked for.
    SizeAsked { cols: u32, rows: u32 },
    /// No one can ask for a size any more: the session is gone.
    ChannelClosed,
    /// The resizing is over, whatever came of it.
    Resized,
    /// The killing is over, whatever came of it.
    Killed,
    /// The shell has ended.
    Reaped,
}

/// The stage that follows on an event. An event that does not answer the stage changes nothing.
pub open spec fn supervisor_next(
    stage: SupervisorStage,
    event: SupervisorEvent,
) -> SupervisorStage {
    match (stage, event) {
        (SupervisorStage::Listen, SupervisorEvent::Cancelled) => SupervisorStage::Kill,
        (SupervisorStage::Listen, SupervisorEvent::SizeAsked { cols, rows }) => {
            SupervisorStage::Resize(dimensions(cols, rows))
        },
        (SupervisorStage::Listen, SupervisorEvent::ChannelClosed) => SupervisorStage::Kill,
        (SupervisorStage::Resize(_), SupervisorEvent::Resized) => SupervisorStage::Listen,
        (SupervisorStage::Kill, SupervisorEvent::Killed) => SupervisorStage::Reap,
        (SupervisorStage::Reap, SupervisorEvent::Reaped) => SupervisorStage::Stopped,
        _ => stage,
    }
}

/// The supervisor of one session.
pub struct Supervisor {
    pub stage: SupervisorStage,
}

impl Supervisor {
    /// A supervisor that listens.
    pub fn new() -> (supervisor: Supervisor)
        ensures
            supervisor.stage == SupervisorStage::Listen,
    {
        Supervisor { stage: SupervisorStage::Listen }
    }

    /// Takes what came of the stage and moves on to the next one.
    pub fn step(&mut self, event: SupervisorEvent)
        ensures
            final(self).stage == supervisor_next(old(self).stage, event),
    {
        match (self.stage, event) {
            (SupervisorStage::Listen, SupervisorEvent::Cancelled) => {
                self.stage = SupervisorStage::Kill;
            },
            (SupervisorStage::Listen, SupervisorEvent::SizeAsked { cols, rows }) => {
                self.stage = SupervisorStage::Resize(pty_dimensions(cols, rows));
            },
            (SupervisorStage::Listen, SupervisorEvent::ChannelClosed) => {
                self.stage = SupervisorStage::Kill;
            },
            (SupervisorStage::Resize(_), SupervisorEvent::Resized) => {
                self.stage = SupervisorStage::Listen;
            },
            (SupervisorStage::Kill, SupervisorEvent::Killed) => {
                self.stage = SupervisorStage::Reap;
            },
            (SupervisorStage::Reap, SupervisorEvent::Reaped) => {
                self.stage = SupervisorStage::Stopped;
            },
            _ => {},
        }
    }
}

/// The stage of a supervisor after a run of events.
pub open spec fn supervisor_run(events: Seq<SupervisorEvent>) -> SupervisorStage
    decreases events.len(),
{
    if events.len() == 0 {
        SupervisorStage::Listen
    } else {
        supervisor_next(supervisor_run(events.drop_last()), events.last())
    }
}

proof fn lemma_supervisor_entered(events: Seq<SupervisorEvent>) -> (i: int)
    requires
        supervisor_run(events) != SupervisorStage::Listen,
    ensures
        0 <= i < events.len(),
        supervisor_run(events.take(i)) != supervisor_run(events),
        supervisor_next(supervisor_run(events.take(i)), events[i]) == supervisor_run(events),
    decreases events.len(),
{
    let n = events.len() - 1;
    let earlier = events.drop_last();
    assert(events.take(n) == earlier);
    if supervisor_run(earlier) != supervisor_run(events) {
        n
    } else {
        let i = lemma_supervisor_entered(earlier);
        assert(earlier.take(i) == events.take(i));
        i
    }
}

/// How far a supervisor has come to its end.
spec fn progress(stage: SupervisorStage) -> int {
    match stage {
        SupervisorStage::Listen => 0,
        SupervisorStage::Resize(_) => 0,
        SupervisorStage::Kill => 1,
        SupervisorStage::Reap => 2,
        SupervisorStage::Stopped => 3,
    }
}

proof fn lemma_progress_grows(events: Seq<SupervisorEvent>, i: int, j: int)
    requires
        0 <= i <= j <= events.len(),
    ensures
        progress(supervisor_run(events.take(i))) <= progress(supervisor_run(events.take(j))),
    decreases j - i,
{
    if i < j {
        lemma_progress_grows(events, i, j - 1);
        assert(events.take(j).drop_last() == events.take(j - 1));
    }
}

/// Whether event `i` of a run ends the killing of the shell.
pub open spec fn kills_at(events: Seq<SupervisorEvent>, i: int) -> bool {
    &&& 0 <= i < events.len()
    &&& supervisor_run(events.take(i)) == SupervisorStage::Kill
    &&& events[i] == SupervisorEvent::Killed
}

/// Whether event `i` of a run ends the reaping of the shell.
pub open spec fn reaps_at(events: Seq<SupervisorEvent>, i: int) -> bool {
    &&& 0 <= i < events.len()
    &&& supervisor_run(events.take(i)) == SupervisorStage::Reap
    &&& events[i] == SupervisorEvent::Reaped
}

/// Over any run, a shell is killed at most once and reaped at most once.
pub proof fn the_shell_is_ended_once(events: Seq<SupervisorEvent>, i: int, j: int)
    ensures
        kills_at(events, i) && kills_at(events, j) ==> i == j,
        reaps_at(events, i) && reaps_at(events, j) ==> i == j,
{
    if i < j {
        lemma_ended_before(events, i, j);
    } else if j < i {
        lemma_ended_before(events, j, i);
    }
}

proof fn lemma_ended_before(events: Seq<SupervisorEvent>, i: int, j: int)
    requires
        i < j,
    ensures
        !(kills_at(events, i) && kills_at(events, j)),
        !(reaps_at(events, i) && reaps_at(events, j)),
{
    if 0 <= i && j < events.len() {
        lemma_progress_grows(events, i + 1, j);
        assert(events.take(i + 1).drop_last() == events.take(i));
        assert(events.take(i + 1).last() == events[i]);
    }
}

/// A session's shell is killed and then reaped before its supervisor stops, and only after the
/// session was cancelled or dropped.
pub proof fn the_shell_is_killed_and_reaped(events: Seq<SupervisorEvent>) -> (steps: (
    int,
    int,
    int,
))
    requires
        supervisor_run(events) == SupervisorStage::Stopped,
    ensures
        ({
            let (ended, killed, reaped) = steps;
            &&& 0 <= ended < killed < reaped < events.len()
            &&& events[ended] == SupervisorEvent::Cancelled || events[ended]
                == SupervisorEvent::ChannelClosed
            &&& kills_at(events, killed)
            &&& reaps_at(events, reaped)
        }),
{
    let reaped = lemma_supervisor_entered(events);
    let before_reap = events.take(reaped);
    let killed = lemma_supervisor_entered(before_reap);
    let before_kill = before_reap.take(killed);
    let ended = lemma_supervisor_entered(before_kill);
    assert(before_kill == events.take(killed));
    (ended, killed, reaped)
}

/// Once the session has ended, its terminal is never resized again.
pub proof fn an_ended_session_is_not_resized(
    events: Seq<SupervisorEvent>,
    later: Seq<SupervisorEvent>,
)
    requires
        supervisor_run(events) == SupervisorStage::Kill,
    ensures
        ({
            let stage = supervisor_run(events + later);
            ||| stage == SupervisorStage::Kill
            ||| stage == SupervisorStage::Reap
            ||| stage == SupervisorStage::Stopped
        }),
    decreases later.len(),
{
    if later.len() == 0 {
        assert(events + later == events);
    } else {
        an_ended_session_is_not_resized(events, later.drop_last());
        assert((events + later).drop_last() == events + later.drop_last());
    }
}

/// Every size that is asked for while the supervisor listens is given to the terminal, and then
/// the supervisor listens again.
pub proof fn every_size_is_given(events: Seq<SupervisorEvent>, cols: u32, rows: u32)
    requires
        supervisor_run(events) == SupervisorStage::Listen,
    ensures
        ({
            let asked = events.push(SupervisorEvent::SizeAsked { cols, rows });
            &&& supervisor_run(asked) matches SupervisorStage::Resize(size)
            &&& (cols - size.cols) % 0x1_0000 == 0
            &&& (rows - size.rows) % 0x1_0000 == 0
            &&& size.pixel_width == 0
            &&& size.pixel_height == 0
            &&& supervisor_run(asked.push(SupervisorEvent::Resized)) == SupervisorStage::Listen
        }),
{
    let asked = events.push(SupervisorEvent::SizeAsked { cols, rows });
    assert(asked.drop_last() == events);
    assert(asked.push(SupervisorEvent::Resized).drop_last() == asked);
    a_size_is_cut_to_sixteen_bits(cols, rows);
}

/// A session that is cancelled or dropped while the supervisor listens has its shell killed and
/// reaped, and the supervisor stops.
pub proof fn an_ended_session_ends_its_shell(events: Seq<SupervisorEvent>, ended: SupervisorEvent)
    requires
        supervisor_run(events) == SupervisorStage::Listen,
        ended == SupervisorEvent::Cancelled || ended == SupervisorEvent::ChannelClosed,
    ensures
        ({
            let killing = events.push(ended);
            let reaping = killing.push(SupervisorEvent::Killed);
            let over = reaping.push(SupervisorEvent::Reaped);
            &&& supervisor_run(killing) == SupervisorStage::Kill
            &&& supervisor_run(reaping) == SupervisorStage::Reap
            &&& supervisor_run(over) == SupervisorStage::Stopped
        }),
{
    let killing = events.push(ended);
    let reaping = killing.push(SupervisorEvent::Killed);
    let over = reaping.push(SupervisorEvent::Reaped);
    assert(killing.drop_last() == events);
    assert(reaping.drop_last() == killing);
    assert(over.drop_last() == reaping);
}

/// The shell of a session that is neither cancelled nor dropped is never killed.
pub proof fn a_living_session_keeps_its_shell(events: Seq<SupervisorEvent>)
    requires
        !events.contains(SupervisorEvent::Cancelled),
        !events.contains(SupervisorEvent::ChannelClosed),
    ensures
        supervisor_run(events) is Listen || supervisor_run(events) is Resize,
    decreases events.len(),
{
    if events.len() > 0 {
        let earlier = events.drop_last();
        assert(events.contains(events[events.len() - 1]));
        assert forall|k: int| 0 <= k < earlier.len() implies #[trigger] earlier[k]
            != SupervisorEvent::Cancelled && earlier[k] != SupervisorEvent::ChannelClosed by {
            assert(events.contains(events[k]));
        }
        a_living_session_keeps_its_shell(earlier);
    }
}

/// Only the answer to its stage moves a supervisor on, and nothing moves one that has stopped.
pub proof fn a_supervisor_waits_for_its_answer(
    events: Seq<SupervisorEvent>,
    event: SupervisorEvent,
)
    requires
        match supervisor_run(events) {
            SupervisorStage::Listen => event is Resized || event is Killed || event is Reaped,
            SupervisorStage::Resize(_) => !(event is Resized),
            SupervisorStage::Kill => !(event is Killed),
            SupervisorStage::Reap => !(event is Reaped),
            SupervisorStage::Stopped => true,
        },
    ensures
        supervisor_run(events.push(event)) == supervisor_run(events),
{
    assert(events.push(event).drop_last() == events);
}

} // verus!
