//! One peer's part in a room.
//!
//! The session does no input or output. It is told what happened, one event
//! at a time and in the order in which the events arrived, and answers with
//! what has to be done: a message to broadcast, a line to show, or the
//! release of the group. Whoever drives it performs the action and comes back
//! with the next event.

use crate::directory::{resolved, PeerDirectory};
use crate::message::{Message, MessageView};
use crate::peer::{short_form, PeerId};
use vstd::prelude::*;

verus! {

/// How far a session has come.
#[derive(Clone, Copy, Debug, PartialEq, Eq, Structural)]
pub enum Phase {
    /// The session waits for the join of the broadcast group to complete.
    Joining,
    /// The session takes part in the room.
    Active,
    /// The session has ended and waits for the group to release what it holds.
    ShuttingDown,
    /// The session is over.
    Closed,
}

/// Why a session ended, where it did not end because the input ended.
#[derive(Clone, Copy, Debug, PartialEq, Eq, Structural)]
pub enum SessionError {
    /// The broadcast group could not be joined.
    JoinFailed,
    /// Bytes arrived that are no message of the protocol.
    MalformedMessage,
    /// The stream of events from the group failed.
    GroupFailed,
    /// A message could not be broadcast.
    BroadcastFailed,
    /// The input could not be read.
    InputFailed,
}

impl SessionError {
    /// The error in words, for the user.
    pub fn describe(&self) -> (words: String)
        ensures
            words@ == match self {
                SessionError::JoinFailed => "the room could not be joined"@,
                SessionError::MalformedMessage => "a message could not be read"@,
                SessionError::GroupFailed => "the connection to the room failed"@,
                SessionError::BroadcastFailed => "a message could not be sent"@,
                SessionError::InputFailed => "the input could not be read"@,
            },
    {
        match self {
            SessionError::JoinFailed => "the room could not be joined".to_owned(),
            SessionError::MalformedMessage => "a message could not be read".to_owned(),
            SessionError::GroupFailed => "the connection to the room failed".to_owned(),
            SessionError::BroadcastFailed => "a message could not be sent".to_owned(),
            SessionError::InputFailed => "the input could not be read".to_owned(),
        }
    }
}

/// What happened.
#[derive(Clone, Debug, PartialEq, Eq)]
pub enum Event {
    /// The join of the broadcast group has completed.
    Joined,
    /// The join of the broadcast group has failed.
    JoinFailed,
    /// A peer has become a neighbor in the group.
    NeighborUp(PeerId),
    /// A message has arrived from the group.
    Received(Message),
    /// Bytes have arrived from the group that are no message.
    Malformed,
    /// The stream of events from the group has failed.
    GroupFailed,
    /// The user has typed a line; `now` is the time in seconds since the epoch.
    Line { text: String, now: u64 },
    /// The input has ended.
    InputClosed,
    /// Reading the input has failed.
    InputFailed,
    /// The broadcast that was asked for has been made.
    Sent,
    /// The broadcast that was asked for has failed.
    BroadcastFailed,
    /// The group has released what it held.
    Released,
}

/// What has to be done.
#[derive(Clone, Debug, PartialEq, Eq)]
pub enum Action {
    /// Nothing.
    Nothing,
    /// Send the message to the group, and report `Event::Sent` or
    /// `Event::BroadcastFailed`.
    Broadcast(Message),
    /// Tell the user that a peer has a new name.
    Notify(String),
    /// Show the user what a peer said.
    Display(String),
    /// Ask the group to release what it holds, and report `Event::Released`.
    Release,
}

/// An event as a value.
pub enum EventView {
    Joined,
    JoinFailed,
    NeighborUp(Seq<u8>),
    Received(MessageView),
    Malformed,
    GroupFailed,
    Line { text: Seq<char>, now: u64 },
    InputClosed,
    InputFailed,
    Sent,
    BroadcastFailed,
    Released,
}

/// An action as a value.
pub enum ActionView {
    Nothing,
    Broadcast(MessageView),
    Notify(Seq<char>),
    Display(Seq<char>),
    Release,
}

impl View for Event {
    type V = EventView;

    open spec fn view(&self) -> EventView {
        match self {
            Event::Joined => EventView::Joined,
            Event::JoinFailed => EventView::JoinFailed,
            Event::NeighborUp(peer) => EventView::NeighborUp(peer@),
            Event::Received(message) => EventView::Received(message@),
            Event::Malformed => EventView::Malformed,
            Event::GroupFailed => EventView::GroupFailed,
            Event::Line { text, now } => EventView::Line { text: text@, now: *now },
            Event::InputClosed => EventView::InputClosed,
            Event::InputFailed => EventView::InputFailed,
            Event::Sent => EventView::Sent,
            Event::BroadcastFailed => EventView::BroadcastFailed,
            Event::Released => EventView::Released,
        }
    }
}

impl View for Action {
    type V = ActionView;

    open spec fn view(&self) -> ActionView {
        match self {
            Action::Nothing => ActionView::Nothing,
            Action::Broadcast(message) => ActionView::Broadcast(message@),
            Action::Notify(line) => ActionView::Notify(line@),
            Action::Display(line) => ActionView::Display(line@),
            Action::Release => ActionView::Release,
        }
    }
}

/// A session as a value.
pub struct SessionView {
    /// The identifier of this peer.
    pub me: Seq<u8>,
    /// The display name that was configured, if one was.
    pub name: Option<Seq<char>>,
    /// The names that other peers have announced.
    pub names: Map<Seq<u8>, Seq<char>>,
    /// How far the session has come.
    pub phase: Phase,
    /// Whether the join of the group has completed.
    pub joined: bool,
    /// Why the session ended, if it failed.
    pub failure: Option<SessionError>,
}

/// The name under which a peer announces itself: the configured one, or
/// `Anonymous` where none was configured.
pub open spec fn announced_name(name: Option<Seq<char>>) -> Seq<char> {
    match name {
        Some(name) => name,
        None => "Anonymous"@,
    }
}

/// The line that tells of a new name of `from`.
pub open spec fn notice(from: Seq<u8>, name: Seq<char>) -> Seq<char> {
    short_form(from) + " is now known as "@ + name
}

/// The line that shows what the peer shown as `sender` said.
pub open spec fn chat_line(sender: Seq<char>, text: Seq<char>) -> Seq<char> {
    sender + ": "@ + text
}

/// The session after it has ended for the given reason, with the action that
/// starts its shutdown.
pub open spec fn ended(state: SessionView, failure: Option<SessionError>) -> (
    SessionView,
    ActionView,
) {
    (SessionView { phase: Phase::ShuttingDown, failure, ..state }, ActionView::Release)
}

/// What an event does to a session that is joining.
///
/// A session with a display name becomes active when its first announcement
/// has been sent; one without becomes active as soon as the join completes.
pub open spec fn react_joining(state: SessionView, event: EventView) -> (SessionView, ActionView) {
    match event {
        EventView::Joined => if state.joined {
            (state, ActionView::Nothing)
        } else {
            match state.name {
                Some(name) => (
                    SessionView { joined: true, ..state },
                    ActionView::Broadcast(MessageView::AboutMe { from: state.me, name }),
                ),
                None => (
                    SessionView { joined: true, phase: Phase::Active, ..state },
                    ActionView::Nothing,
                ),
            }
        },
        EventView::Sent => if state.joined {
            (SessionView { phase: Phase::Active, ..state }, ActionView::Nothing)
        } else {
            (state, ActionView::Nothing)
        },
        EventView::JoinFailed => if state.joined {
            (state, ActionView::Nothing)
        } else {
            ended(state, Some(SessionError::JoinFailed))
        },
        EventView::GroupFailed => ended(state, Some(SessionError::GroupFailed)),
        EventView::BroadcastFailed => ended(state, Some(SessionError::BroadcastFailed)),
        EventView::InputFailed => ended(state, Some(SessionError::InputFailed)),
        EventView::InputClosed => ended(state, None),
        _ => (state, ActionView::Nothing),
    }
}

/// What an event does to a session that is active.
pub open spec fn react_active(state: SessionView, event: EventView) -> (SessionView, ActionView) {
    match event {
        EventView::NeighborUp(_) => (
            state,
            ActionView::Broadcast(
                MessageView::AboutMe { from: state.me, name: announced_name(state.name) },
            ),
        ),
        EventView::Received(MessageView::AboutMe { from, name }) => (
            SessionView { names: state.names.insert(from, name), ..state },
            ActionView::Notify(notice(from, name)),
        ),
        EventView::Received(MessageView::Chat { from, text, timestamp }) => (
            state,
            ActionView::Display(chat_line(resolved(state.names, from), text)),
        ),
        EventView::Line { text, now } => (
            state,
            ActionView::Broadcast(MessageView::Chat { from: state.me, text, timestamp: now }),
        ),
        EventView::Malformed => ended(state, Some(SessionError::MalformedMessage)),
        EventView::GroupFailed => ended(state, Some(SessionError::GroupFailed)),
        EventView::BroadcastFailed => ended(state, Some(SessionError::BroadcastFailed)),
        EventView::InputFailed => ended(state, Some(SessionError::InputFailed)),
        EventView::InputClosed => ended(state, None),
        _ => (state, ActionView::Nothing),
    }
}

/// What an event does to a session: the session after it, and what has to be
/// done.
///
/// A session that is shutting down waits for the release of the group and
/// takes no other event; a closed session takes none.
pub open spec fn react(state: SessionView, event: EventView) -> (SessionView, ActionView) {
    match state.phase {
        Phase::Joining => react_joining(state, event),
        Phase::Active => react_active(state, event),
        Phase::ShuttingDown => match event {
            EventView::Released => (
                SessionView { phase: Phase::Closed, ..state },
                ActionView::Nothing,
            ),
            _ => (state, ActionView::Nothing),
        },
        Phase::Closed => (state, ActionView::Nothing),
    }
}

/// The session of the peer `me` before anything has happened: it is about to
/// join, and knows no name.
pub open spec fn started(me: Seq<u8>, name: Option<Seq<char>>) -> SessionView {
    SessionView {
        me,
        name,
        names: Map::empty(),
        phase: Phase::Joining,
        joined: false,
        failure: None,
    }
}

/// The session after it has taken `events` one after the other.
pub open spec fn after(state: SessionView, events: Seq<EventView>) -> SessionView
    decreases events.len(),
{
    if events.len() == 0 {
        state
    } else {
        after(react(state, events[0]).0, events.drop_first())
    }
}

/// The place of a phase in the life of a session.
pub open spec fn rank(phase: Phase) -> int {
    match phase {
        Phase::Joining => 0,
        Phase::Active => 1,
        Phase::ShuttingDown => 2,
        Phase::Closed => 3,
    }
}

/// Whether the session is as a session can be: it holds a failure only where
/// it has ended, and is active only where the join has completed.
pub open spec fn consistent(state: SessionView) -> bool {
    &&& rank(state.phase) < 2 ==> state.failure is None
    &&& state.phase == Phase::Active ==> state.joined
}

/// Whenever a neighbor appears, an active session announces itself again:
/// under its display name, or as `Anonymous`. What it has announced or
/// learned before makes no difference, and the session itself stays as it is.
pub proof fn lemma_neighbor_is_greeted(state: SessionView, neighbor: Seq<u8>)
    requires
        state.phase == Phase::Active,
    ensures
        react(state, EventView::NeighborUp(neighbor)) == (
            state,
            ActionView::Broadcast(
                MessageView::AboutMe { from: state.me, name: announced_name(state.name) },
            ),
        ),
{
}

/// Every message that a session broadcasts names this peer as its sender.
pub proof fn lemma_broadcasts_name_this_peer(state: SessionView, event: EventView)
    ensures
        react(state, event).1 matches ActionView::Broadcast(message) ==> message.sender()
            == state.me,
{
}

/// A line that the user typed is broadcast as it is, an empty one too, with
/// the time at which it was typed.
pub proof fn lemma_line_is_broadcast(state: SessionView, text: Seq<char>, now: u64)
    requires
        state.phase == Phase::Active,
    ensures
        react(state, EventView::Line { text, now }) == (
            state,
            ActionView::Broadcast(MessageView::Chat { from: state.me, text, timestamp: now }),
        ),
{
}

/// What a peer says is shown under the name that it announced last.
pub proof fn lemma_announced_name_is_shown(
    state: SessionView,
    peer: Seq<u8>,
    name: Seq<char>,
    text: Seq<char>,
    timestamp: u64,
)
    requires
        state.phase == Phase::Active,
    ensures
        ({
            let announced = react(
                state,
                EventView::Received(MessageView::AboutMe { from: peer, name }),
            );
            let said = react(
                announced.0,
                EventView::Received(MessageView::Chat { from: peer, text, timestamp }),
            );
            &&& announced.1 == ActionView::Notify(notice(peer, name))
            &&& said.1 == ActionView::Display(chat_line(name, text))
        }),
{
}

/// What one peer types is what another sees, under the name with which the
/// first greeted it: the two sessions need nothing else of each other.
pub proof fn lemma_typed_line_is_seen(
    speaker: SessionView,
    listener: SessionView,
    text: Seq<char>,
    now: u64,
)
    requires
        speaker.phase == Phase::Active,
        listener.phase == Phase::Active,
    ensures
        ({
            let name = announced_name(speaker.name);
            let greeting = MessageView::AboutMe { from: speaker.me, name };
            let said = MessageView::Chat { from: speaker.me, text, timestamp: now };
            let greeted = react(listener, EventView::Received(greeting));
            &&& react(speaker, EventView::NeighborUp(listener.me)).1 == ActionView::Broadcast(
                greeting,
            )
            &&& react(speaker, EventView::Line { text, now }).1 == ActionView::Broadcast(said)
            &&& greeted.1 == ActionView::Notify(notice(speaker.me, name))
            &&& react(greeted.0, EventView::Received(said)).1 == ActionView::Display(
                chat_line(name, text),
            )
        }),
{
}

/// What a peer says before it has announced a name is shown under the short
/// form of its identifier.
pub proof fn lemma_unknown_sender_is_shown_short(
    state: SessionView,
    peer: Seq<u8>,
    text: Seq<char>,
    timestamp: u64,
)
    requires
        state.phase == Phase::Active,
        !state.names.contains_key(peer),
    ensures
        react(state, EventView::Received(MessageView::Chat { from: peer, text, timestamp })).1
            == ActionView::Display(chat_line(short_form(peer), text)),
{
}

/// A session never goes back to an earlier phase, and a closed session
/// changes no more and asks for nothing.
pub proof fn lemma_phases_go_forward(state: SessionView, event: EventView)
    ensures
        rank(react(state, event).0.phase) >= rank(state.phase),
        state.phase == Phase::Closed ==> react(state, event) == (state, ActionView::Nothing),
{
}

/// A session that has ended takes no event but the release of the group: it
/// broadcasts and shows nothing more.
pub proof fn lemma_ended_session_is_silent(state: SessionView, event: EventView)
    requires
        rank(state.phase) >= 2,
    ensures
        react(state, event).1 == ActionView::Nothing,
        react(state, event).0.names == state.names,
        react(state, event).0.failure == state.failure,
{
}

/// A session keeps its identifier and its display name, and forgets no name
/// that it has learned.
pub proof fn lemma_nothing_is_forgotten(state: SessionView, event: EventView, peer: Seq<u8>)
    ensures
        react(state, event).0.me == state.me,
        react(state, event).0.name == state.name,
        state.names.contains_key(peer) ==> react(state, event).0.names.contains_key(peer),
{
}

/// A session fails only by ending, and becomes active only by joining.
pub proof fn lemma_consistency_is_kept(state: SessionView, event: EventView)
    requires
        consistent(state),
    ensures
        consistent(react(state, event).0),
{
}

/// Whatever happens to a session from its start, it holds a failure only
/// where it has ended and is active only where the join has completed.
pub proof fn lemma_every_state_is_consistent(
    me: Seq<u8>,
    name: Option<Seq<char>>,
    events: Seq<EventView>,
)
    ensures
        consistent(after(started(me, name), events)),
{
    lemma_consistency_lasts(started(me, name), events);
}

/// A consistent session stays consistent, whatever happens to it.
pub proof fn lemma_consistency_lasts(state: SessionView, events: Seq<EventView>)
    requires
        consistent(state),
    ensures
        consistent(after(state, events)),
    decreases events.len(),
{
    if events.len() > 0 {
        lemma_consistency_is_kept(state, events[0]);
        lemma_consistency_lasts(react(state, events[0]).0, events.drop_first());
    }
}

/// Whatever happens to a session, it stays the session of the same peer
/// under the same display name, never comes back to an earlier phase, and
/// keeps a name for every peer for which it had one.
pub proof fn lemma_history_is_kept(state: SessionView, events: Seq<EventView>, peer: Seq<u8>)
    ensures
        after(state, events).me == state.me,
        after(state, events).name == state.name,
        rank(after(state, events).phase) >= rank(state.phase),
        state.names.contains_key(peer) ==> after(state, events).names.contains_key(peer),
    decreases events.len(),
{
    if events.len() > 0 {
        lemma_nothing_is_forgotten(state, events[0], peer);
        lemma_phases_go_forward(state, events[0]);
        lemma_history_is_kept(react(state, events[0]).0, events.drop_first(), peer);
    }
}

/// When the session ends, the group is asked to release what it holds, and
/// the session is closed by the release and by nothing else.
pub proof fn lemma_end_releases_the_group(state: SessionView, event: EventView)
    ensures
        rank(state.phase) < 2 && rank(react(state, event).0.phase) >= 2 ==> react(state, event)
            == ended(state, react(state, event).0.failure),
        state.phase != Phase::Closed && react(state, event).0.phase == Phase::Closed ==> state.phase
            == Phase::ShuttingDown && event == EventView::Released,
{
}

/// The session of one peer in one room.
pub struct Session {
    me: PeerId,
    name: Option<String>,
    directory: PeerDirectory,
    phase: Phase,
    joined: bool,
    failure: Option<SessionError>,
}

impl View for Session {
    type V = SessionView;

    closed spec fn view(&self) -> SessionView {
        SessionView {
            me: self.me@,
            name: match self.name {
                Some(name) => Some(name@),
                None => None,
            },
            names: self.directory@,
            phase: self.phase,
            joined: self.joined,
            failure: self.failure,
        }
    }
}

impl Session {
    /// The session of the peer `me`, which is about to join a room under the
    /// display name `name`, if it has one.
    pub fn new(me: PeerId, name: Option<String>) -> (session: Session)
        ensures
            session@ == started(
                me@,
                match name {
                    Some(name) => Some(name@),
                    None => None,
                },
            ),
    {
        Session {
            me,
            name,
            directory: PeerDirectory::new(),
            phase: Phase::Joining,
            joined: false,
            failure: None,
        }
    }

    /// The identifier of this peer.
    pub fn me(&self) -> (me: PeerId)
        ensures
            me@ == self@.me,
    {
        self.me
    }

    /// How far the session has come.
    pub fn phase(&self) -> (phase: Phase)
        ensures
            phase == self@.phase,
    {
        self.phase
    }

    /// How the session ended, or would end if it ended now: well, or with the
    /// failure that ended it.
    pub fn outcome(&self) -> (outcome: Result<(), SessionError>)
        ensures
            outcome == match self@.failure {
                Some(failure) => Err::<(), SessionError>(failure),
                None => Ok(()),
            },
    {
        match self.failure {
            Some(failure) => Err(failure),
            None => Ok(()),
        }
    }

    /// The name to show for `peer`: the one it announced last, or the short
    /// form of its identifier.
    pub fn resolve(&self, peer: &PeerId) -> (shown: String)
        ensures
            shown@ == resolved(self@.names, peer@),
    {
        self.directory.resolve(peer)
    }

    /// The announcement of this peer: its identifier with its display name,
    /// or with `Anonymous` where it has none.
    pub fn announcement(&self) -> (message: Message)
        ensures
            message@ == (MessageView::AboutMe {
                from: self@.me,
                name: announced_name(self@.name),
            }),
    {
        let name = match &self.name {
            Some(name) => name.clone(),
            None => "Anonymous".to_owned(),
        };
        Message::about_me(self.me, name)
    }

    /// Ends the session for the given reason.
    fn end(&mut self, failure: Option<SessionError>) -> (action: Action)
        ensures
            (final(self)@, action@) == ended(old(self)@, failure),
    {
        self.phase = Phase::ShuttingDown;
        self.failure = failure;
        Action::Release
    }

    /// Takes an event while the session is joining.
    fn handle_joining(&mut self, event: Event) -> (action: Action)
        requires
            old(self)@.phase == Phase::Joining,
        ensures
            (final(self)@, action@) == react_joining(old(self)@, event@),
    {
        match event {
            Event::Joined => {
                if self.joined {
                    return Action::Nothing;
                }
                self.joined = true;
                match &self.name {
                    Some(name) => Action::Broadcast(Message::about_me(self.me, name.clone())),
                    None => {
                        self.phase = Phase::Active;
                        Action::Nothing
                    },
                }
            },
            Event::Sent => {
                if self.joined {
                    self.phase = Phase::Active;
                }
                Action::Nothing
            },
            Event::JoinFailed => {
                if self.joined {
                    Action::Nothing
                } else {
                    self.end(Some(SessionError::JoinFailed))
                }
            },
            Event::GroupFailed => self.end(Some(SessionError::GroupFailed)),
            Event::BroadcastFailed => self.end(Some(SessionError::BroadcastFailed)),
            Event::InputFailed => self.end(Some(SessionError::InputFailed)),
            Event::InputClosed => self.end(None),
            _ => Action::Nothing,
        }
    }

    /// Takes an event while the session is active.
    fn handle_active(&mut self, event: Event) -> (action: Action)
        requires
            old(self)@.phase == Phase::Active,
        ensures
            (final(self)@, action@) == react_active(old(self)@, event@),
    {
        match event {
            Event::NeighborUp(_) => Action::Broadcast(self.announcement()),
            Event::Received(Message::AboutMe { from, name }) => {
                let mut line = from.fmt_short();
                line.append(" is now known as ");
                line.append(name.as_str());
                self.directory.record_identity(from, name);
                Action::Notify(line)
            },
            Event::Received(Message::Chat { from, text, timestamp: _ }) => {
                let mut line = self.directory.resolve(&from);
                line.append(": ");
                line.append(text.as_str());
                Action::Display(line)
            },
            Event::Line { text, now } => Action::Broadcast(Message::chat(self.me, text, now)),
            Event::Malformed => self.end(Some(SessionError::MalformedMessage)),
            Event::GroupFailed => self.end(Some(SessionError::GroupFailed)),
            Event::BroadcastFailed => self.end(Some(SessionError::BroadcastFailed)),
            Event::InputFailed => self.end(Some(SessionError::InputFailed)),
            Event::InputClosed => self.end(None),
            _ => Action::Nothing,
        }
    }

    /// Takes the next event and says what has to be done.
    pub fn handle(&mut self, event: Event) -> (action: Action)
        ensures
            (final(self)@, action@) == react(old(self)@, event@),
    {
        match self.phase {
            Phase::Joining => self.handle_joining(event),
            Phase::Active => self.handle_active(event),
            Phase::ShuttingDown => match event {
                Event::Released => {
                    self.phase = Phase::Closed;
                    Action::Nothing
                },
                _ => Action::Nothing,
            },
            Phase::Closed => Action::Nothing,
        }
    }
}

} // verus!
