//! The commands of the program.

use std::path::PathBuf;
use vstd::prelude::*;

verus! {

/// `std::path::PathBuf`: the name of a file, carried through unread.
#[verifier::external_type_specification]
#[verifier::external_body]
pub struct ExPathBuf(PathBuf);

/// What the user asked for on the command line.
#[derive(Debug, PartialEq, Eq)]
pub struct Cli {
    pub command: Commands,
}

/// The commands.
#[derive(Debug, PartialEq, Eq)]
pub enum Commands {
    /// Send a file to another peer.
    Send {
        /// The file to send.
        filename: PathBuf,
    },
    /// Receive a file from another peer.
    Receive {
        /// The ticket that the sender gave.
        ticket: String,
        /// The name under which the file is stored.
        filename: String,
    },
    /// Chat with the peers of a room.
    Gossip {
        /// The display name in the room.
        name: Option<String>,
        command: GossipCommand,
    },
}

/// How to get into a room.
#[derive(Clone, Debug, PartialEq, Eq)]
pub enum GossipCommand {
    /// Open a new room.
    Open,
    /// Join the room of a ticket.
    Join {
        /// The text of the ticket.
        ticket: String,
    },
}

/// The one thing that a run of the program does.
#[derive(Debug, PartialEq, Eq)]
pub enum Task {
    /// Offer the file for download and show its ticket.
    SendFile { filename: PathBuf },
    /// Download the file of the ticket and store it under the name.
    ReceiveFile { ticket: String, filename: String },
    /// Open a room, show its ticket and chat in it.
    OpenRoom { name: Option<String> },
    /// Join the room of the ticket and chat in it.
    JoinRoom { ticket: String, name: Option<String> },
}

impl Cli {
    /// What the user asked for, as the task to run. The display name given
    /// with `gossip` goes to the room that is opened or joined.
    pub fn task(self) -> (task: Task)
        ensures
            task == match self.command {
                Commands::Send { filename } => Task::SendFile { filename },
                Commands::Receive { ticket, filename } => Task::ReceiveFile { ticket, filename },
                Commands::Gossip { name, command: GossipCommand::Open } => Task::OpenRoom { name },
                Commands::Gossip { name, command: GossipCommand::Join { ticket } } => {
                    Task::JoinRoom { ticket, name }
                },
            },
    {
        match self.command {
            Commands::Send { filename } => Task::SendFile { filename },
            Commands::Receive { ticket, filename } => Task::ReceiveFile { ticket, filename },
            Commands::Gossip { name, command } => match command {
                GossipCommand::Open => Task::OpenRoom { name },
                GossipCommand::Join { ticket } => Task::JoinRoom { ticket, name },
            },
        }
    }
}

} // verus!
