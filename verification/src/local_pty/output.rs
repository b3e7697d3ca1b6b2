//! Passing the shell's output on to the terminal.
//!
//! A reader that can be polled looks for the end of the session before every poll, so that it
//! stops even where a background job keeps the shell's side open. One that cannot reads until
//! the output ends.
use vstd::prelude::*;

verus! {

/// What the pump is to do next.
#[derive(Debug, PartialEq, Eq)]
pub enum OutputStage {
    /// Find out whether the session was cancelled.
    CheckCancelled,
    /// Wait for output, for a limited time.
    Poll,
    /// Read a chunk of output.
    Read,
    /// Send a chunk to the terminal.
    Send(Vec<u8>),
    /// Nothing more.
    Stopped,
}

/// What came of the pump's last stage.
#[derive(Debug, PartialEq, Eq)]
pub enum OutputInput {
    Cancelled(bool),
    /// What the poll returned, and, where that is an error, whether it was an interruption.
    Polled { ready: i32, interrupted: bool },
    /// The chunk that was read, empty at the end of the output, or nothing on an error.
    Read(Option<Vec<u8>>),
    /// Whether the terminal still takes output.
    Sent(bool),
}

/// A stage with its bytes taken as a sequence.
pub ghost enum OutputStageView {
    CheckCancelled,
    Poll,
    Read,
    Send(Seq<u8>),
    Stopped,
}

/// An input with its bytes taken as a sequence.
pub ghost enum OutputInputView {
    Cancelled(bool),
    Polled { ready: i32, interrupted: bool },
    Read(Option<Seq<u8>>),
    Sent(bool),
}

impl View for OutputStage {
    type V = OutputStageView;

    open spec fn view(&self) -> OutputStageView {
        match *self {
            OutputStage::CheckCancelled => OutputStageView::CheckCancelled,
            OutputStage::Poll => OutputStageView::Poll,
            OutputStage::Read => OutputStageView::Read,
            OutputStage::Send(chunk) => OutputStageView::Send(chunk@),
            OutputStage::Stopped => OutputStageView::Stopped,
        }
    }
}

impl View for OutputInput {
    type V = OutputInputView;

    open spec fn view(&self) -> OutputInputView {
        match *self {
            OutputInput::Cancelled(cancelled) => OutputInputView::Cancelled(cancelled),
            OutputInput::Polled { ready, interrupted } => OutputInputView::Polled {
                ready,
                interrupted,
            },
            OutputInput::Read(Some(chunk)) => OutputInputView::Read(Some(chunk@)),
            OutputInput::Read(None) => OutputInputView::Read(None),
            OutputInput::Sent(taken) => OutputInputView::Sent(taken),
        }
    }
}

/// The stage with which every turn of a pump starts.
pub open spec fn output_start(pollable: bool) -> OutputStageView {
    if pollable {
        OutputStageView::CheckCancelled
    } else {
        OutputStageView::Read
    }
}

/// The stage that follows on an input. An input that does not answer the stage changes nothing.
pub open spec fn output_next(
    pollable: bool,
    stage: OutputStageView,
    input: OutputInputView,
) -> OutputStageView {
    match (stage, input) {
        (OutputStageView::CheckCancelled, OutputInputView::Cancelled(cancelled)) => if cancelled {
            OutputStageView::Stopped
        } else {
            OutputStageView::Poll
        },
        (OutputStageView::Poll, OutputInputView::Polled { ready, interrupted }) => if ready > 0 {
            OutputStageView::Read
        } else if ready == 0 || interrupted {
            output_start(pollable)
        } else {
            OutputStageView::Stopped
        },
        (OutputStageView::Read, OutputInputView::Read(Some(chunk))) => if chunk.len() > 0 {
            OutputStageView::Send(chunk)
        } else {
            OutputStageView::Stopped
        },
        (OutputStageView::Read, OutputInputView::Read(None)) => OutputStageView::Stopped,
        (OutputStageView::Send(_), OutputInputView::Sent(taken)) => if taken {
            output_start(pollable)
        } else {
            OutputStageView::Stopped
        },
        _ => stage,
    }
}

/// The pump of one session.
pub struct OutputPump {
    /// Whether the output can be polled.
    pub pollable: bool,
    pub stage: OutputStage,
}

impl OutputPump {
    /// A pump at the start of its first turn.
    pub fn new(pollable: bool) -> (pump: OutputPump)
        ensures
            pump.pollable == pollable,
            pump.stage@ == output_start(pollable),
    {
        OutputPump { pollable, stage: OutputPump::start(pollable) }
    }

    fn start(pollable: bool) -> (stage: OutputStage)
        ensures
            stage@ == output_start(pollable),
    {
        if pollable {
            OutputStage::CheckCancelled
        } else {
            OutputStage::Read
        }
    }

    /// Takes what came of the stage and moves on to the next one.
    pub fn step(&mut self, input: OutputInput)
        ensures
            final(self).stage@ == output_next(old(self).pollable, old(self).stage@, input@),
            final(self).pollable == old(self).pollable,
    {
        match (&self.stage, input) {
            (OutputStage::CheckCancelled, OutputInput::Cancelled(cancelled)) => {
                self.stage = if cancelled {
                    OutputStage::Stopped
                } else {
                    OutputStage::Poll
                };
            },
            (OutputStage::Poll, OutputInput::Polled { ready, interrupted }) => {
                self.stage = if ready > 0 {
                    OutputStage::Read
                } else if ready == 0 || interrupted {
                    OutputPump::start(self.pollable)
                } else {
                    OutputStage::Stopped
                };
            },
            (OutputStage::Read, OutputInput::Read(Some(chunk))) => {
                self.stage = if chunk.len() > 0 {
                    OutputStage::Send(chunk)
                } else {
                    OutputStage::Stopped
                };
            },
            (OutputStage::Read, OutputInput::Read(None)) => {
                self.stage = OutputStage::Stopped;
            },
            (OutputStage::Send(_), OutputInput::Sent(taken)) => {
                self.stage = if taken {
                    OutputPump::start(self.pollable)
                } else {
                    OutputStage::Stopped
                };
            },
            _ => {},
        }
    }
}

/// The stage of a pump after a run of inputs.
pub open spec fn output_run(pollable: bool, inputs: Seq<OutputInputView>) -> OutputStageView
    decreases inputs.len(),
{
    if inputs.len() == 0 {
        output_start(pollable)
    } else {
        output_next(pollable, output_run(pollable, inputs.drop_last()), inputs.last())
    }
}

/// The bytes that were read over a run.
pub open spec fn output_read(pollable: bool, inputs: Seq<OutputInputView>) -> Seq<u8>
    decreases inputs.len(),
{
    if inputs.len() == 0 {
        Seq::empty()
    } else {
        let before = output_read(pollable, inputs.drop_last());
        match (output_run(pollable, inputs.drop_last()), inputs.last()) {
            (OutputStageView::Read, OutputInputView::Read(Some(chunk))) => before + chunk,
            _ => before,
        }
    }
}

/// The bytes that the terminal has taken over a run.
pub open spec fn output_taken(pollable: bool, inputs: Seq<OutputInputView>) -> Seq<u8>
    decreases inputs.len(),
{
    if inputs.len() == 0 {
        Seq::empty()
    } else {
        let before = output_taken(pollable, inputs.drop_last());
        match (output_run(pollable, inputs.drop_last()), inputs.last()) {
            (OutputStageView::Send(chunk), OutputInputView::Sent(true)) => before + chunk,
            _ => before,
        }
    }
}

/// The bytes that were read and not yet taken.
pub open spec fn output_pending(stage: OutputStageView) -> Seq<u8> {
    match stage {
        OutputStageView::Send(chunk) => chunk,
        _ => Seq::empty(),
    }
}

/// The output is passed on whole and in order: what the terminal has taken, and the chunk on its
/// way to it, are what was read, until the pump stops; and what was taken always is how the
/// output starts.
pub proof fn output_is_passed_on_in_order(pollable: bool, inputs: Seq<OutputInputView>)
    ensures
        ({
            let stage = output_run(pollable, inputs);
            let read = output_read(pollable, inputs);
            let taken = output_taken(pollable, inputs);
            &&& !(stage is Stopped) ==> read == taken + output_pending(stage)
            &&& taken.is_prefix_of(read)
        }),
    decreases inputs.len(),
{
    if inputs.len() > 0 {
        let earlier = inputs.drop_last();
        output_is_passed_on_in_order(pollable, earlier);
        let stage = output_run(pollable, earlier);
        let taken = output_taken(pollable, earlier);
        let empty = Seq::<u8>::empty();
        assert(taken + empty == taken);
        match (stage, inputs.last()) {
            (OutputStageView::Send(chunk), OutputInputView::Sent(true)) => {
                assert(taken + chunk + empty == taken + chunk);
            },
            _ => {},
        }
    }
}

/// The stage that input `i` of a run answers.
pub open spec fn output_stage_before(
    pollable: bool,
    inputs: Seq<OutputInputView>,
    i: int,
) -> OutputStageView {
    output_run(pollable, inputs.take(i))
}

proof fn lemma_output_entered(pollable: bool, inputs: Seq<OutputInputView>) -> (i: int)
    requires
        output_run(pollable, inputs) != output_start(pollable),
    ensures
        0 <= i < inputs.len(),
        output_stage_before(pollable, inputs, i) != output_run(pollable, inputs),
        output_next(pollable, output_stage_before(pollable, inputs, i), inputs[i]) == output_run(
            pollable,
            inputs,
        ),
        forall|k: int|
            i < k <= inputs.len() ==> #[trigger] output_stage_before(pollable, inputs, k)
                == output_run(pollable, inputs),
    decreases inputs.len(),
{
    let n = inputs.len() - 1;
    let earlier = inputs.drop_last();
    assert(inputs.take(n) == earlier);
    assert(inputs.take(n + 1) == inputs);
    if output_run(pollable, earlier) != output_run(pollable, inputs) {
        n
    } else {
        let i = lemma_output_entered(pollable, earlier);
        assert(earlier.take(i) == inputs.take(i));
        assert forall|k: int| i < k <= inputs.len() implies #[trigger] output_stage_before(
            pollable,
            inputs,
            k,
        ) == output_run(pollable, inputs) by {
            if k <= n {
                assert(earlier.take(k) == inputs.take(k));
                assert(output_stage_before(pollable, earlier, k) == output_run(pollable, earlier));
            }
        }
        i
    }
}

/// A pump never waits for output without having found the session alive just before: what came
/// before the wait is a check that found it so. A check that finds the session cancelled stops
/// the pump, even where the output never ends.
pub proof fn a_poll_follows_a_check(pollable: bool, inputs: Seq<OutputInputView>) -> (i: int)
    requires
        output_run(pollable, inputs) is Poll,
    ensures
        0 <= i < inputs.len(),
        output_stage_before(pollable, inputs, i) is CheckCancelled,
        inputs[i] == OutputInputView::Cancelled(false),
        forall|k: int|
            i < k <= inputs.len() ==> #[trigger] output_stage_before(pollable, inputs, k) is Poll,
        output_next(
            pollable,
            OutputStageView::CheckCancelled,
            OutputInputView::Cancelled(true),
        ) is Stopped,
{
    lemma_output_entered(pollable, inputs)
}

/// A pump stops only where the session was cancelled, the poll or the read failed, the output
/// ended, or the terminal takes no more.
pub proof fn a_pump_stops_for_a_reason(pollable: bool, inputs: Seq<OutputInputView>) -> (i: int)
    requires
        output_run(pollable, inputs) is Stopped,
    ensures
        0 <= i < inputs.len(),
        match inputs[i] {
            OutputInputView::Cancelled(cancelled) => cancelled,
            OutputInputView::Polled { ready, interrupted } => ready < 0 && !interrupted,
            OutputInputView::Read(Some(chunk)) => chunk.len() == 0,
            OutputInputView::Read(None) => true,
            OutputInputView::Sent(taken) => !taken,
        },
{
    lemma_output_entered(pollable, inputs)
}

/// The stage after a run and one more input.
proof fn lemma_output_push(pollable: bool, inputs: Seq<OutputInputView>, input: OutputInputView)
    ensures
        output_run(pollable, inputs.push(input)) == output_next(
            pollable,
            output_run(pollable, inputs),
            input,
        ),
        output_taken(pollable, inputs.push(input)) == ({
            match (output_run(pollable, inputs), input) {
                (OutputStageView::Send(chunk), OutputInputView::Sent(true)) => output_taken(
                    pollable,
                    inputs,
                ) + chunk,
                _ => output_taken(pollable, inputs),
            }
        }),
{
    assert(inputs.push(input).drop_last() == inputs);
}

/// A turn of a pump starts with a look for the end of the session where the output can be
/// polled, and with a read where it cannot.
pub proof fn a_turn_starts_with_a_check_or_a_read()
    ensures
        output_run(true, Seq::empty()) is CheckCancelled,
        output_run(false, Seq::empty()) is Read,
{
}

/// Every chunk that is read is sent as it is, and once the terminal has taken it the next turn
/// starts.
pub proof fn every_chunk_is_sent(pollable: bool, inputs: Seq<OutputInputView>, chunk: Seq<u8>)
    requires
        output_run(pollable, inputs) is Read,
        chunk.len() > 0,
    ensures
        ({
            let read = inputs.push(OutputInputView::Read(Some(chunk)));
            let sent = read.push(OutputInputView::Sent(true));
            &&& output_run(pollable, read) == OutputStageView::Send(chunk)
            &&& output_run(pollable, sent) == if pollable {
                OutputStageView::CheckCancelled
            } else {
                OutputStageView::Read
            }
            &&& output_taken(pollable, sent) == output_taken(pollable, inputs) + chunk
        }),
{
    let read = inputs.push(OutputInputView::Read(Some(chunk)));
    lemma_output_push(pollable, inputs, OutputInputView::Read(Some(chunk)));
    lemma_output_push(pollable, read, OutputInputView::Sent(true));
}

/// A pump polls a session that is alive, reads what a poll has found, whatever positive number
/// it returned, and starts a new turn where a poll has found nothing or was interrupted.
pub proof fn output_that_is_there_is_read(
    pollable: bool,
    inputs: Seq<OutputInputView>,
    ready: i32,
    interrupted: bool,
)
    ensures
        output_run(pollable, inputs) is CheckCancelled ==> output_run(
            pollable,
            inputs.push(OutputInputView::Cancelled(false)),
        ) is Poll,
        output_run(pollable, inputs) is Poll ==> ({
            let polled = output_run(
                pollable,
                inputs.push(OutputInputView::Polled { ready, interrupted }),
            );
            &&& polled is Read <==> ready > 0 || (!pollable && (ready == 0 || interrupted))
            &&& polled is CheckCancelled <==> pollable && ready <= 0 && (ready == 0 || interrupted)
            &&& polled is Stopped <==> ready < 0 && !interrupted
        }),
{
    lemma_output_push(pollable, inputs, OutputInputView::Cancelled(false));
    lemma_output_push(pollable, inputs, OutputInputView::Polled { ready, interrupted });
}

/// A pump stops at once where the session was cancelled, the read failed, the output has ended,
/// or the terminal takes no more.
pub proof fn a_pump_stops_when_it_must(pollable: bool, inputs: Seq<OutputInputView>)
    ensures
        output_run(pollable, inputs) is CheckCancelled ==> output_run(
            pollable,
            inputs.push(OutputInputView::Cancelled(true)),
        ) is Stopped,
        output_run(pollable, inputs) is Read ==> output_run(
            pollable,
            inputs.push(OutputInputView::Read(None)),
        ) is Stopped && output_run(
            pollable,
            inputs.push(OutputInputView::Read(Some(Seq::empty()))),
        ) is Stopped,
        output_run(pollable, inputs) is Send ==> output_run(
            pollable,
            inputs.push(OutputInputView::Sent(false)),
        ) is Stopped,
{
    lemma_output_push(pollable, inputs, OutputInputView::Cancelled(true));
    lemma_output_push(pollable, inputs, OutputInputView::Read(None));
    lemma_output_push(pollable, inputs, OutputInputView::Read(Some(Seq::empty())));
    lemma_output_push(pollable, inputs, OutputInputView::Sent(false));
}

/// Only the answer to its stage moves a pump on, and nothing moves one that has stopped.
pub proof fn an_output_pump_waits_for_its_answer(
    pollable: bool,
    inputs: Seq<OutputInputView>,
    input: OutputInputView,
)
    requires
        match output_run(pollable, inputs) {
            OutputStageView::CheckCancelled => !(input is Cancelled),
            OutputStageView::Poll => !(input is Polled),
            OutputStageView::Read => !(input is Read),
            OutputStageView::Send(_) => !(input is Sent),
            OutputStageView::Stopped => true,
        },
    ensures
        output_run(pollable, inputs.push(input)) == output_run(pollable, inputs),
{
    lemma_output_push(pollable, inputs, input);
}

/// A pump is seen as it is: no byte of its stage or of its inputs is lost or changed in the view
/// of it.
pub proof fn an_output_pump_is_seen_as_it_is(stage: OutputStage, input: OutputInput)
    ensures
        match stage {
            OutputStage::CheckCancelled => stage@ is CheckCancelled,
            OutputStage::Poll => stage@ is Poll,
            OutputStage::Read => stage@ is Read,
            OutputStage::Send(chunk) => stage@ == OutputStageView::Send(chunk@),
            OutputStage::Stopped => stage@ is Stopped,
        },
        match input {
            OutputInput::Cancelled(cancelled) => input@ == OutputInputView::Cancelled(cancelled),
            OutputInput::Polled { ready, interrupted } => input@ == (OutputInputView::Polled {
                ready,
                interrupted,
            }),
            OutputInput::Read(Some(chunk)) => input@ == OutputInputView::Read(Some(chunk@)),
            OutputInput::Read(None) => input@ == OutputInputView::Read(None),
            OutputInput::Sent(taken) => input@ == OutputInputView::Sent(taken),
        },
{
}

} // verus!
