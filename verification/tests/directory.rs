use zerogate::directory::PeerDirectory;
use zerogate::peer::PeerId;

fn peer(tag: u8) -> PeerId {
    let mut bytes = [tag; 32];
    bytes[0] = 0xab;
    bytes[1] = tag;
    PeerId::from_bytes(bytes)
}

#[test]
fn recorded_name_is_resolved() {
    let mut directory = PeerDirectory::new();
    directory.record_identity(peer(1), "Alice".to_string());
    assert_eq!(directory.resolve(&peer(1)), "Alice");
}

#[test]
fn last_recorded_name_wins() {
    let mut directory = PeerDirectory::new();
    directory.record_identity(peer(1), "Alice".to_string());
    directory.record_identity(peer(1), "Bob".to_string());
    assert_eq!(directory.resolve(&peer(1)), "Bob");
}

#[test]
fn unknown_peer_is_resolved_to_its_short_form() {
    let directory = PeerDirectory::new();
    let shown = directory.resolve(&peer(0x17));
    assert_eq!(shown, "ab17171717");
    assert!(!shown.is_empty());
    assert_eq!(shown, peer(0x17).fmt_short());
    assert_eq!(shown, directory.resolve(&peer(0x17)));
}

#[test]
fn unknown_peer_stays_unknown_when_others_are_recorded() {
    let mut directory = PeerDirectory::new();
    directory.record_identity(peer(1), "Alice".to_string());
    directory.record_identity(peer(2), "Bob".to_string());
    assert_eq!(directory.resolve(&peer(3)), "ab03030303");
}

#[test]
fn peers_keep_their_own_names() {
    let mut directory = PeerDirectory::new();
    directory.record_identity(peer(1), "Alice".to_string());
    directory.record_identity(peer(2), "Bob".to_string());
    directory.record_identity(peer(3), "Carol".to_string());
    directory.record_identity(peer(2), "Robert".to_string());
    assert_eq!(directory.resolve(&peer(1)), "Alice");
    assert_eq!(directory.resolve(&peer(2)), "Robert");
    assert_eq!(directory.resolve(&peer(3)), "Carol");
}

#[test]
fn two_peers_may_share_a_name() {
    let mut directory = PeerDirectory::new();
    directory.record_identity(peer(1), "Alice".to_string());
    directory.record_identity(peer(2), "Alice".to_string());
    assert_eq!(directory.resolve(&peer(1)), "Alice");
    assert_eq!(directory.resolve(&peer(2)), "Alice");
}

#[test]
fn empty_name_is_a_name() {
    let mut directory = PeerDirectory::new();
    directory.record_identity(peer(1), String::new());
    assert_eq!(directory.resolve(&peer(1)), "");
}

#[test]
fn peers_that_differ_in_the_last_byte_are_told_apart() {
    let mut one = [5u8; 32];
    let mut other = [5u8; 32];
    one[31] = 1;
    other[31] = 2;
    let mut directory = PeerDirectory::new();
    directory.record_identity(PeerId::from_bytes(one), "One".to_string());
    assert_eq!(directory.resolve(&PeerId::from_bytes(one)), "One");
    assert_eq!(directory.resolve(&PeerId::from_bytes(other)), "0505050505");
}

#[test]
fn many_peers_are_kept() {
    let mut directory = PeerDirectory::new();
    for tag in 0..100u8 {
        directory.record_identity(peer(tag), format!("peer {tag}"));
    }
    for tag in 0..100u8 {
        directory.record_identity(peer(tag), format!("renamed {tag}"));
    }
    for tag in 0..100u8 {
        assert_eq!(directory.resolve(&peer(tag)), format!("renamed {tag}"));
    }
}
