//! The bridge from the console to the session.
//!
//! Reading a line from the console blocks, so the lines are read apart from
//! the session and handed over one at a time. The handoff holds a single
//! line: the reader waits with the next one until the session has taken the
//! last. The bridge itself reads nothing. It is told what the reader met and
//! answers with what to do with the handoff.

use vstd::prelude::*;

verus! {

/// The number of lines that the handoff holds. With one, at most one line
/// that has not been broadcast is ever kept, however slow broadcasting is.
pub const HANDOFF_CAPACITY: usize = 1;

/// Why the bridge stopped before the input ended.
#[derive(Clone, Copy, Debug, PartialEq, Eq, Structural)]
pub enum InputError {
    /// A line could not be read.
    ReadFailed,
    /// The session no longer takes lines.
    Refused,
}

/// What the reader met.
#[derive(Clone, Debug, PartialEq, Eq)]
pub enum InputEvent {
    /// A complete line, without its line end.
    Line(String),
    /// The end of the input.
    End,
    /// A failure to read.
    ReadFailed,
    /// The handoff did not take the last line: the session has gone.
    Refused,
}

/// What to do with the handoff.
#[derive(Clone, Debug, PartialEq, Eq)]
pub enum InputAction {
    /// Hand the line over, waiting until the handoff is free.
    Deliver(String),
    /// Close the handoff and stop reading.
    Close,
    /// Nothing: the bridge has stopped.
    Nothing,
}

/// An input event as a value.
pub enum InputEventView {
    Line(Seq<char>),
    End,
    ReadFailed,
    Refused,
}

/// An input action as a value.
pub enum InputActionView {
    Deliver(Seq<char>),
    Close,
    Nothing,
}

impl View for InputEvent {
    type V = InputEventView;

    open spec fn view(&self) -> InputEventView {
        match self {
            InputEvent::Line(text) => InputEventView::Line(text@),
            InputEvent::End => InputEventView::End,
            InputEvent::ReadFailed => InputEventView::ReadFailed,
            InputEvent::Refused => InputEventView::Refused,
        }
    }
}

impl View for InputAction {
    type V = InputActionView;

    open spec fn view(&self) -> InputActionView {
        match self {
            InputAction::Deliver(text) => InputActionView::Deliver(text@),
            InputAction::Close => InputActionView::Close,
            InputAction::Nothing => InputActionView::Nothing,
        }
    }
}

/// Where the bridge stands.
#[derive(Clone, Copy, Debug, PartialEq, Eq, Structural)]
pub enum InputState {
    /// Lines are read and handed over.
    Reading,
    /// The input has ended and the handoff is closed.
    Ended,
    /// The bridge has stopped on a failure and the handoff is closed.
    Failed(InputError),
}

/// What an event does to the bridge: where it stands after it, and what to do
/// with the handoff. A line is handed over as it was read, an empty one too.
pub open spec fn bridge(state: InputState, event: InputEventView) -> (InputState, InputActionView) {
    match state {
        InputState::Reading => match event {
            InputEventView::Line(text) => (InputState::Reading, InputActionView::Deliver(text)),
            InputEventView::End => (InputState::Ended, InputActionView::Close),
            InputEventView::ReadFailed => (
                InputState::Failed(InputError::ReadFailed),
                InputActionView::Close,
            ),
            InputEventView::Refused => (
                InputState::Failed(InputError::Refused),
                InputActionView::Close,
            ),
        },
        _ => (state, InputActionView::Nothing),
    }
}

/// The bridge of one session.
pub struct InputBridge {
    state: InputState,
}

impl View for InputBridge {
    type V = InputState;

    closed spec fn view(&self) -> InputState {
        self.state
    }
}

impl InputBridge {
    /// A bridge that is about to read its first line.
    pub fn new() -> (bridge: InputBridge)
        ensures
            bridge@ == InputState::Reading,
    {
        InputBridge { state: InputState::Reading }
    }

    /// Where the bridge stands.
    pub fn state(&self) -> (state: InputState)
        ensures
            state == self@,
    {
        self.state
    }

    /// Takes what the reader met and says what to do with the handoff.
    pub fn handle(&mut self, event: InputEvent) -> (action: InputAction)
        ensures
            (final(self)@, action@) == bridge(old(self)@, event@),
    {
        match self.state {
            InputState::Reading => match event {
                InputEvent::Line(text) => InputAction::Deliver(text),
                InputEvent::End => {
                    self.state = InputState::Ended;
                    InputAction::Close
                },
                InputEvent::ReadFailed => {
                    self.state = InputState::Failed(InputError::ReadFailed);
                    InputAction::Close
                },
                InputEvent::Refused => {
                    self.state = InputState::Failed(InputError::Refused);
                    InputAction::Close
                },
            },
            _ => InputAction::Nothing,
        }
    }
}

/// The lines that the bridge hands over while it meets `events` in turn,
/// starting from `state`.
pub open spec fn handed_over(state: InputState, events: Seq<InputEventView>) -> Seq<Seq<char>>
    decreases events.len(),
{
    if events.len() == 0 {
        seq![]
    } else {
        let (next, action) = bridge(state, events[0]);
        let rest = handed_over(next, events.drop_first());
        match action {
            InputActionView::Deliver(text) => seq![text] + rest,
            _ => rest,
        }
    }
}

/// The events of reading `lines` one after the other.
pub open spec fn reading(lines: Seq<Seq<char>>) -> Seq<InputEventView> {
    Seq::new(lines.len(), |i: int| InputEventView::Line(lines[i]))
}

/// The lines that were read before the input ended or failed are handed over
/// in the order in which they were read, each once, and nothing is handed
/// over after that.
pub proof fn lemma_lines_keep_their_order(
    lines: Seq<Seq<char>>,
    stop: InputEventView,
    later: Seq<InputEventView>,
)
    requires
        !(stop is Line),
    ensures
        handed_over(InputState::Reading, reading(lines) + seq![stop] + later) == lines,
    decreases lines.len(),
{
    let events = reading(lines) + seq![stop] + later;
    if lines.len() == 0 {
        assert(events[0] == stop);
        let stopped = bridge(InputState::Reading, stop).0;
        lemma_nothing_after_the_stop(stopped, events.drop_first());
        assert(handed_over(InputState::Reading, events) =~= lines);
    } else {
        let rest = lines.drop_first();
        assert(events[0] == InputEventView::Line(lines[0]));
        assert(events.drop_first() =~= reading(rest) + seq![stop] + later);
        lemma_lines_keep_their_order(rest, stop, later);
        assert(seq![lines[0]] + rest =~= lines);
    }
}

/// A bridge that has stopped hands nothing over, whatever it meets.
pub proof fn lemma_nothing_after_the_stop(state: InputState, events: Seq<InputEventView>)
    requires
        state != InputState::Reading,
    ensures
        handed_over(state, events) == Seq::<Seq<char>>::empty(),
    decreases events.len(),
{
    if events.len() > 0 {
        lemma_nothing_after_the_stop(state, events.drop_first());
    }
}

/// While the bridge reads, every line is handed over unchanged and the bridge
/// goes on reading.
pub proof fn lemma_lines_pass_unchanged(text: Seq<char>)
    ensures
        bridge(InputState::Reading, InputEventView::Line(text)) == (
            InputState::Reading,
            InputActionView::Deliver(text),
        ),
{
}

/// A bridge that has stopped stays as it is and hands nothing over.
pub proof fn lemma_stopped_stays_stopped(state: InputState, event: InputEventView)
    requires
        state != InputState::Reading,
    ensures
        bridge(state, event) == (state, InputActionView::Nothing),
{
}

} // verus!
