//! Tickets: what a peer needs to find a room.

use crate::peer::{PeerId, TopicId};
use vstd::prelude::*;

verus! {

/// How a peer can be reached: its identifier, and the hints that the
/// transport gave for it. The hints are kept as the transport wrote them and
/// are handed back to it unread.
#[derive(Clone, Debug, PartialEq, Eq)]
pub struct PeerAddress {
    /// The peer.
    pub id: PeerId,
    /// The relay through which the peer can be reached, if it has one.
    pub relay_url: Option<String>,
    /// The addresses at which the peer may be reached directly.
    pub direct_addresses: Vec<String>,
}

/// A room and the peers through which it can be joined.
///
/// A ticket is made once, when a room is opened or when the text of a ticket
/// is read, and does not change after that.
#[derive(Clone, Debug, PartialEq, Eq)]
pub struct Ticket {
    /// The room.
    pub topic: TopicId,
    /// The peers to contact first, in the order in which they were listed.
    pub peers: Vec<PeerAddress>,
}

impl Ticket {
    /// The ticket of a room that `me` has just opened: it lists `me` alone.
    pub fn for_new_room(topic: TopicId, me: PeerAddress) -> (ticket: Ticket)
        ensures
            ticket.topic == topic,
            ticket.peers@ == seq![me],
    {
        let mut peers = Vec::new();
        peers.push(me);
        assert(peers@ =~= seq![me]);
        Ticket { topic, peers }
    }

    /// The identifiers of the listed peers, in the order of the ticket: the
    /// peers with which joining the room starts.
    pub fn peer_ids(&self) -> (ids: Vec<PeerId>)
        ensures
            ids@.len() == self.peers@.len(),
            forall|i: int| 0 <= i < ids@.len() ==> ids@[i] == self.peers@[i].id,
    {
        let mut ids: Vec<PeerId> = Vec::new();
        let mut i: usize = 0;
        while i < self.peers.len()
            invariant
                i <= self.peers@.len(),
                ids@.len() == i,
                forall|j: int| 0 <= j < i ==> ids@[j] == self.peers@[j].id,
            decreases self.peers@.len() - i,
        {
            ids.push(self.peers[i].id);
            i += 1;
        }
        ids
    }
}

} // verus!
