//! Rendezvous tickets and a gossip chat session for peer-to-peer rooms.
//!
//! The crate holds the rules of the system and none of its transport: the text
//! form of a ticket, the peer directory, and the state machines that turn what
//! happened on the network or at the console into what has to be done next.

pub mod ascii;
pub mod base32;
pub mod cli;
pub mod codec;
pub mod directory;
pub mod input;
pub mod message;
pub mod peer;
pub mod session;
pub mod ticket;
