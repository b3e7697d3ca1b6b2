//! Passing the terminal's input on to the shell.
use vstd::prelude::*;

verus! {

/// What the pump is to do next.
#[derive(Debug, PartialEq, Eq)]
pub enum InputStage {
    /// Wait for a chunk of input.
    Receive,
    /// Write a chunk to the shell.
    Write(Vec<u8>),
    /// Flush what was written.
    Flush,
    /// Nothing more.
    Stopped,
}

/// What came of the pump's last stage.
#[derive(Debug, PartialEq, Eq)]
pub enum InputEvent {
    /// A chunk of input, or nothing where there will be none any more.
    Received(Option<Vec<u8>>),
    /// Whether the whole chunk was written.
    Written(bool),
    /// The flush is over, whatever came of it.
    Flushed,
}

/// A stage with its bytes taken as a sequence.
pub ghost enum InputStageView {
    Receive,
    Write(Seq<u8>),
    Flush,
    Stopped,
}

/// An event with its bytes taken as a sequence.
pub ghost enum InputEventView {
    Received(Option<Seq<u8>>),
    Written(bool),
    Flushed,
}

impl View for InputStage {
    type V = InputStageView;

    open spec fn view(&self) -> InputStageView {
        match *self {
            InputStage::Receive => InputStageView::Receive,
            InputStage::Write(chunk) => InputStageView::Write(chunk@),
            InputStage::Flush => InputStageView::Flush,
            InputStage::Stopped => InputStageView::Stopped,
        }
    }
}

impl View for InputEvent {
    type V = InputEventView;

    open spec fn view(&self) -> InputEventView {
        match *self {
            InputEvent::Received(Some(chunk)) => InputEventView::Received(Some(chunk@)),
            InputEvent::Received(None) => InputEventView::Received(None),
            InputEvent::Written(whole) => InputEventView::Written(whole),
            InputEvent::Flushed => InputEventView::Flushed,
        }
    }
}

/// The stage that follows on an event. An event that does not answer the stage changes nothing.
pub open spec fn input_next(stage: InputStageView, event: InputEventView) -> InputStageView {
    match (stage, event) {
        (InputStageView::Receive, InputEventView::Received(Some(chunk))) => InputStageView::Write(
            chunk,
        ),
        (InputStageView::Receive, InputEventView::Received(None)) => InputStageView::Stopped,
        (InputStageView::Write(_), InputEventView::Written(whole)) => if whole {
            InputStageView::Flush
        } else {
            InputStageView::Stopped
        },
        (InputStageView::Flush, InputEventView::Flushed) => InputStageView::Receive,
        _ => stage,
    }
}

/// The pump of one session.
pub struct InputPump {
    pub stage: InputStage,
}

impl InputPump {
    /// A pump that waits for its first chunk.
    pub fn new() -> (pump: InputPump)
        ensures
            pump.stage@ == InputStageView::Receive,
    {
        InputPump { stage: InputStage::Receive }
    }

    /// Takes what came of the stage and moves on to the next one.
    pub fn step(&mut self, event: InputEvent)
        ensures
            final(self).stage@ == input_next(old(self).stage@, event@),
    {
        match (&self.stage, event) {
            (InputStage::Receive, InputEvent::Received(Some(chunk))) => {
                self.stage = InputStage::Write(chunk);
            },
            (InputStage::Receive, InputEvent::Received(None)) => {
                self.stage = InputStage::Stopped;
            },
            (InputStage::Write(_), InputEvent::Written(whole)) => {
                self.stage = if whole {
                    InputStage::Flush
                } else {
                    InputStage::Stopped
                };
            },
            (InputStage::Flush, InputEvent::Flushed) => {
                self.stage = InputStage::Receive;
            },
            _ => {},
        }
    }
}

/// The stage of a pump after a run of events.
pub open spec fn input_run(events: Seq<InputEventView>) -> InputStageView
    decreases events.len(),
{
    if events.len() == 0 {
        InputStageView::Receive
    } else {
        input_next(input_run(events.drop_last()), events.last())
    }
}

/// The bytes that were received over a run.
pub open spec fn input_received(events: Seq<InputEventView>) -> Seq<u8>
    decreases events.len(),
{
    if events.len() == 0 {
        Seq::empty()
    } else {
        let before = input_received(events.drop_last());
        match (input_run(events.drop_last()), events.last()) {
            (InputStageView::Receive, InputEventView::Received(Some(chunk))) => before + chunk,
            _ => before,
        }
    }
}

/// The bytes that were written whole over a run.
pub open spec fn input_written(events: Seq<InputEventView>) -> Seq<u8>
    decreases events.len(),
{
    if events.len() == 0 {
        Seq::empty()
    } else {
        let before = input_written(events.drop_last());
        match (input_run(events.drop_last()), events.last()) {
            (InputStageView::Write(chunk), InputEventView::Written(true)) => before + chunk,
            _ => before,
        }
    }
}

/// The bytes that were received and not yet written.
pub open spec fn input_pending(stage: InputStageView) -> Seq<u8> {
    match stage {
        InputStageView::Write(chunk) => chunk,
        _ => Seq::empty(),
    }
}

/// The input is passed on whole and in order: what was written, and the chunk being written, are
/// what was received, until the pump stops; and what was written always is how the input starts.
pub proof fn input_is_passed_on_in_order(events: Seq<InputEventView>)
    ensures
        ({
            let stage = input_run(events);
            let received = input_received(events);
            let written = input_written(events);
            &&& !(stage is Stopped) ==> received == written + input_pending(stage)
            &&& written.is_prefix_of(received)
        }),
    decreases events.len(),
{
    if events.len() > 0 {
        let earlier = events.drop_last();
        input_is_passed_on_in_order(earlier);
        let written = input_written(earlier);
        let empty = Seq::<u8>::empty();
        assert(written + empty == written);
        match (input_run(earlier), events.last()) {
            (InputStageView::Write(chunk), InputEventView::Written(true)) => {
                assert(written + chunk + empty == written + chunk);
            },
            _ => {},
        }
    }
}

proof fn lemma_input_entered(events: Seq<InputEventView>) -> (i: int)
    requires
        input_run(events) != InputStageView::Receive,
    ensures
        0 <= i < events.len(),
        input_run(events.take(i)) != input_run(events),
        input_next(input_run(events.take(i)), events[i]) == input_run(events),
    decreases events.len(),
{
    let n = events.len() - 1;
    let earlier = events.drop_last();
    assert(events.take(n) == earlier);
    if input_run(earlier) != input_run(events) {
        n
    } else {
        let i = lemma_input_entered(earlier);
        assert(earlier.take(i) == events.take(i));
        i
    }
}

/// A pump stops only where there will be no input any more, or where a chunk could not be
/// written whole: never for what a chunk holds or how long it is.
pub proof fn an_input_pump_stops_for_a_reason(events: Seq<InputEventView>) -> (i: int)
    requires
        input_run(events) is Stopped,
    ensures
        0 <= i < events.len(),
        ({
            let stage = input_run(events.take(i));
            ||| stage is Receive && events[i] == InputEventView::Received(None)
            ||| stage is Write && events[i] == InputEventView::Written(false)
        }),
{
    lemma_input_entered(events)
}

/// Every chunk that is received is written as it is, then flushed, and then the next one is
/// waited for.
pub proof fn every_chunk_is_written(events: Seq<InputEventView>, chunk: Seq<u8>)
    requires
        input_run(events) is Receive,
    ensures
        ({
            let received = events.push(InputEventView::Received(Some(chunk)));
            let written = received.push(InputEventView::Written(true));
            let flushed = written.push(InputEventView::Flushed);
            &&& input_run(received) == InputStageView::Write(chunk)
            &&& input_run(written) is Flush
            &&& input_run(flushed) is Receive
            &&& input_written(flushed) == input_written(events) + chunk
        }),
{
    let received = events.push(InputEventView::Received(Some(chunk)));
    let written = received.push(InputEventView::Written(true));
    let flushed = written.push(InputEventView::Flushed);
    assert(received.drop_last() == events);
    assert(written.drop_last() == received);
    assert(flushed.drop_last() == written);
    assert(input_written(received) == input_written(events));
    assert(input_written(written) == input_written(events) + chunk);
}

/// The end of the input stops a pump that waits for it, and a write that fails stops one that
/// writes.
pub proof fn an_input_pump_stops_when_it_must(events: Seq<InputEventView>)
    ensures
        input_run(events) is Receive ==> input_run(
            events.push(InputEventView::Received(None)),
        ) is Stopped,
        input_run(events) is Write ==> input_run(
            events.push(InputEventView::Written(false)),
        ) is Stopped,
{
    assert(events.push(InputEventView::Received(None)).drop_last() == events);
    assert(events.push(InputEventView::Written(false)).drop_last() == events);
}

/// A pump whose input goes on and whose writes succeed never stops, and what it has received is
/// what it has written and the chunk that it is writing.
pub proof fn an_input_pump_goes_on(events: Seq<InputEventView>)
    requires
        !events.contains(InputEventView::Received(None)),
        !events.contains(InputEventView::Written(false)),
    ensures
        !(input_run(events) is Stopped),
        input_received(events) == input_written(events) + match input_run(events) {
            InputStageView::Write(chunk) => chunk,
            _ => Seq::empty(),
        },
{
    if input_run(events) is Stopped {
        let i = an_input_pump_stops_for_a_reason(events);
        assert(events.contains(events[i]));
    }
    input_is_passed_on_in_order(events);
}

/// Only the answer to its stage moves a pump on, and nothing moves one that has stopped.
pub proof fn an_input_pump_waits_for_its_answer(
    events: Seq<InputEventView>,
    event: InputEventView,
)
    requires
        match input_run(events) {
            InputStageView::Receive => !(event is Received),
            InputStageView::Write(_) => !(event is Written),
            InputStageView::Flush => !(event is Flushed),
            InputStageView::Stopped => true,
        },
    ensures
        input_run(events.push(event)) == input_run(events),
{
    assert(events.push(event).drop_last() == events);
}

/// A pump is seen as it is: no byte of its stage or of its events is lost or changed in the view
/// of it.
pub proof fn an_input_pump_is_seen_as_it_is(stage: InputStage, event: InputEvent)
    ensures
        match stage {
            InputStage::Receive => stage@ is Receive,
            InputStage::Write(chunk) => stage@ == InputStageView::Write(chunk@),
            InputStage::Flush => stage@ is Flush,
            InputStage::Stopped => stage@ is Stopped,
        },
        match event {
            InputEvent::Received(Some(chunk)) => event@ == InputEventView::Received(Some(chunk@)),
            InputEvent::Received(None) => event@ == InputEventView::Received(None),
            InputEvent::Written(whole) => event@ == InputEventView::Written(whole),
            InputEvent::Flushed => event@ is Flushed,
        },
{
}

} // verus!
