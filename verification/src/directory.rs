//! The names that peers have announced.

use crate::peer::{short_form, PeerId, ID_LENGTH, SHORT_BYTES};
use vstd::prelude::*;

verus! {

/// One peer with the name it announced last.
struct Entry {
    peer: PeerId,
    name: String,
}

/// The display names of the peers of one room, by peer identifier.
///
/// A peer has at most one name, the one it announced last. Names are never
/// removed: a peer that left keeps its entry.
pub struct PeerDirectory {
    entries: Vec<Entry>,
}

/// No peer has two entries.
spec fn distinct(entries: Seq<Entry>) -> bool {
    forall|i: int, j: int|
        0 <= i < entries.len() && 0 <= j < entries.len() && entries[i].peer@ == entries[j].peer@
            ==> i == j
}

/// The names in `entries`, a later entry replacing an earlier one.
spec fn names_of(entries: Seq<Entry>) -> Map<Seq<u8>, Seq<char>>
    decreases entries.len(),
{
    if entries.len() == 0 {
        Map::empty()
    } else {
        names_of(entries.drop_last()).insert(entries.last().peer@, entries.last().name@)
    }
}

/// What `names_of` holds: the peers of the entries, each with the name of its
/// last entry.
proof fn lemma_names_of(entries: Seq<Entry>)
    ensures
        forall|peer: Seq<u8>| #[trigger]
            names_of(entries).contains_key(peer) <==> exists|i: int|
                0 <= i < entries.len() && entries[i].peer@ == peer,
        forall|i: int|
            0 <= i < entries.len() && (forall|j: int|
                i < j < entries.len() ==> entries[j].peer@ != entries[i].peer@) ==> names_of(
                entries,
            )[#[trigger] entries[i].peer@] == entries[i].name@,
    decreases entries.len(),
{
    if entries.len() > 0 {
        let front = entries.drop_last();
        lemma_names_of(front);
        assert(names_of(entries) == names_of(front).insert(
            entries.last().peer@,
            entries.last().name@,
        ));
        assert forall|peer: Seq<u8>| #[trigger]
            names_of(entries).contains_key(peer) implies exists|i: int|
            0 <= i < entries.len() && entries[i].peer@ == peer by {
            if peer == entries.last().peer@ {
                assert(entries[entries.len() - 1].peer@ == peer);
            } else {
                assert(names_of(front).contains_key(peer));
                let i = choose|i: int| 0 <= i < front.len() && front[i].peer@ == peer;
                assert(entries[i].peer@ == peer);
            }
        }
        assert forall|peer: Seq<u8>|
            (exists|i: int|
                0 <= i < entries.len() && entries[i].peer@ == peer) implies #[trigger] names_of(
            entries,
        ).contains_key(peer) by {
            let i = choose|i: int| 0 <= i < entries.len() && entries[i].peer@ == peer;
            if i < front.len() {
                assert(front[i].peer@ == peer);
            }
        }
        assert forall|i: int|
            0 <= i < entries.len() && (forall|j: int|
                i < j < entries.len() ==> entries[j].peer@ != entries[i].peer@) implies names_of(
            entries,
        )[#[trigger] entries[i].peer@] == entries[i].name@ by {
            if i < front.len() {
                assert(front[i] == entries[i]);
                assert(forall|j: int| i < j < front.len() ==> front[j] == entries[j]);
            }
        }
    }
}

impl View for PeerDirectory {
    type V = Map<Seq<u8>, Seq<char>>;

    closed spec fn view(&self) -> Map<Seq<u8>, Seq<char>> {
        names_of(self.entries@)
    }
}

/// The text shown for `peer`: its recorded name, or the short form of its
/// identifier where it has none.
pub open spec fn resolved(names: Map<Seq<u8>, Seq<char>>, peer: Seq<u8>) -> Seq<char> {
    if names.contains_key(peer) {
        names[peer]
    } else {
        short_form(peer)
    }
}

/// Where the entry of `peer` is, if it has one.
fn position(entries: &Vec<Entry>, peer: &PeerId) -> (at: Option<usize>)
    ensures
        match at {
            Some(i) => i < entries@.len() && entries@[i as int].peer@ == peer@,
            None => forall|i: int| 0 <= i < entries@.len() ==> entries@[i].peer@ != peer@,
        },
{
    let mut i: usize = 0;
    while i < entries.len()
        invariant
            i <= entries@.len(),
            forall|j: int| 0 <= j < i ==> entries@[j].peer@ != peer@,
        decreases entries@.len() - i,
    {
        if entries[i].peer.same_as(peer) {
            return Some(i);
        }
        i += 1;
    }
    None
}

impl PeerDirectory {
    #[verifier::type_invariant]
    spec fn well_formed(&self) -> bool {
        distinct(self.entries@)
    }

    /// A directory that knows no peer.
    pub fn new() -> (directory: PeerDirectory)
        ensures
            directory@ == Map::<Seq<u8>, Seq<char>>::empty(),
    {
        PeerDirectory { entries: Vec::new() }
    }

    /// Records that `peer` calls itself `name`, whatever it was called before.
    pub fn record_identity(&mut self, peer: PeerId, name: String)
        ensures
            final(self)@ == old(self)@.insert(peer@, name@),
    {
        proof {
            use_type_invariant(&*self);
        }
        // The entries leave the directory while they change: it is never
        // seen with two entries for one peer.
        let mut entries: Vec<Entry> = Vec::new();
        core::mem::swap(&mut self.entries, &mut entries);
        let ghost before = entries@;
        match position(&entries, &peer) {
            Some(i) => {
                entries.set(i, Entry { peer, name });
                proof {
                    lemma_replaced(before, i as int, entries@);
                }
            },
            None => {
                entries.push(Entry { peer, name });
                proof {
                    assert(entries@.drop_last() =~= before);
                }
            },
        }
        core::mem::swap(&mut self.entries, &mut entries);
    }

    /// The name to show for `peer`: the one it announced last, or the short
    /// form of its identifier where it has announced none.
    pub fn resolve(&self, peer: &PeerId) -> (shown: String)
        ensures
            shown@ == resolved(self@, peer@),
    {
        proof {
            use_type_invariant(self);
            lemma_names_of(self.entries@);
        }
        match position(&self.entries, peer) {
            Some(i) => self.entries[i].name.clone(),
            None => peer.fmt_short(),
        }
    }
}

/// Of two names recorded for one peer, the later one is shown.
pub proof fn lemma_last_write_wins(
    names: Map<Seq<u8>, Seq<char>>,
    peer: Seq<u8>,
    first: Seq<char>,
    second: Seq<char>,
)
    ensures
        resolved(names.insert(peer, first).insert(peer, second), peer) == second,
{
}

/// Recording a name for one peer changes what is shown for no other.
pub proof fn lemma_other_peers_unchanged(
    names: Map<Seq<u8>, Seq<char>>,
    peer: Seq<u8>,
    name: Seq<char>,
    other: Seq<u8>,
)
    requires
        other != peer,
    ensures
        resolved(names.insert(peer, name), other) == resolved(names, other),
{
}

/// A peer that has announced no name is shown by the short form of its
/// identifier: ten characters that depend on the identifier alone.
pub proof fn lemma_unknown_peer(names: Map<Seq<u8>, Seq<char>>, peer: Seq<u8>)
    requires
        peer.len() == ID_LENGTH,
        !names.contains_key(peer),
    ensures
        resolved(names, peer) == short_form(peer),
        resolved(names, peer).len() == 2 * SHORT_BYTES,
{
}

/// Replacing the entry of a peer replaces its name and no other.
proof fn lemma_replaced(before: Seq<Entry>, at: int, after: Seq<Entry>)
    requires
        distinct(before),
        0 <= at < before.len(),
        after == before.update(at, after[at]),
        after[at].peer@ == before[at].peer@,
    ensures
        distinct(after),
        names_of(after) == names_of(before).insert(after[at].peer@, after[at].name@),
{
    lemma_names_of(before);
    lemma_names_of(after);
    let peer = after[at].peer@;
    let changed = names_of(before).insert(peer, after[at].name@);
    assert forall|i: int, j: int|
        0 <= i < after.len() && 0 <= j < after.len() && after[i].peer@ == after[j].peer@ implies i
        == j by {
        assert(after[i].peer@ == before[i].peer@);
        assert(after[j].peer@ == before[j].peer@);
    }
    assert forall|other: Seq<u8>| names_of(after).contains_key(other) == changed.contains_key(
        other,
    ) by {
        if names_of(after).contains_key(other) {
            let i = choose|i: int| 0 <= i < after.len() && after[i].peer@ == other;
            assert(before[i].peer@ == other);
        }
        if names_of(before).contains_key(other) {
            let i = choose|i: int| 0 <= i < before.len() && before[i].peer@ == other;
            assert(after[i].peer@ == other);
        }
        if other == peer {
            assert(after[at].peer@ == other);
        }
    }
    assert forall|other: Seq<u8>| names_of(after).contains_key(other) implies names_of(
        after,
    )[other] == changed[other] by {
        let i = choose|i: int| 0 <= i < after.len() && after[i].peer@ == other;
        assert(names_of(after)[after[i].peer@] == after[i].name@);
        if i != at {
            assert(before[i] == after[i]);
            assert(names_of(before)[before[i].peer@] == before[i].name@);
        }
    }
    assert(names_of(after) =~= changed);
}

} // verus!
