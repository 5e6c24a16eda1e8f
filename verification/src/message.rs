//! What the peers of a room say to each other.

use crate::peer::PeerId;
use vstd::prelude::*;

verus! {

/// One message of the chat protocol.
///
/// A message names its sender. The sender is not checked here: whether the
/// message came from that peer is for the transport to know.
#[derive(Clone, Debug, PartialEq, Eq)]
pub enum Message {
    /// The sender says what it is called.
    AboutMe { from: PeerId, name: String },
    /// The sender says something to the room, at a time in seconds since the
    /// epoch.
    Chat { from: PeerId, text: String, timestamp: u64 },
}

/// A message as a value: identifiers as bytes, texts as characters.
pub enum MessageView {
    AboutMe { from: Seq<u8>, name: Seq<char> },
    Chat { from: Seq<u8>, text: Seq<char>, timestamp: u64 },
}

impl View for Message {
    type V = MessageView;

    open spec fn view(&self) -> MessageView {
        match self {
            Message::AboutMe { from, name } => MessageView::AboutMe { from: from@, name: name@ },
            Message::Chat { from, text, timestamp } => MessageView::Chat {
                from: from@,
                text: text@,
                timestamp: *timestamp,
            },
        }
    }
}

impl MessageView {
    /// The peer that the message names as its sender.
    pub open spec fn sender(self) -> Seq<u8> {
        match self {
            MessageView::AboutMe { from, .. } => from,
            MessageView::Chat { from, .. } => from,
        }
    }
}

impl Message {
    /// The announcement that `from` is called `name`.
    pub fn about_me(from: PeerId, name: String) -> (message: Message)
        ensures
            message@ == (MessageView::AboutMe { from: from@, name: name@ }),
    {
        Message::AboutMe { from, name }
    }

    /// What `from` said to the room at `timestamp`.
    pub fn chat(from: PeerId, text: String, timestamp: u64) -> (message: Message)
        ensures
            message@ == (MessageView::Chat { from: from@, text: text@, timestamp }),
    {
        Message::Chat { from, text, timestamp }
    }

    /// The peer that the message names as its sender.
    pub fn sender(&self) -> (from: PeerId)
        ensures
            from@ == self@.sender(),
    {
        match self {
            Message::AboutMe { from, .. } => *from,
            Message::Chat { from, .. } => *from,
        }
    }
}

} // verus!
