use zerogate::message::Message;
use zerogate::peer::PeerId;
use zerogate::session::{Action, Event, Phase, Session, SessionError};

fn peer(tag: u8) -> PeerId {
    let mut bytes = [tag; 32];
    bytes[0] = 0xc0;
    PeerId::from_bytes(bytes)
}

fn named(tag: u8, name: &str) -> Session {
    Session::new(peer(tag), Some(name.to_string()))
}

fn active(tag: u8, name: Option<&str>) -> Session {
    let mut session = Session::new(peer(tag), name.map(str::to_string));
    session.handle(Event::Joined);
    session.handle(Event::Sent);
    assert_eq!(session.phase(), Phase::Active);
    session
}

/// Hands what `from` broadcasts to `to` and gives back what `to` does.
fn deliver(action: Action, to: &mut Session) -> Action {
    match action {
        Action::Broadcast(message) => to.handle(Event::Received(message)),
        other => panic!("nothing was broadcast: {other:?}"),
    }
}

#[test]
fn new_session_is_joining() {
    let session = named(1, "Alice");
    assert_eq!(session.phase(), Phase::Joining);
    assert_eq!(session.outcome(), Ok(()));
    assert_eq!(session.me(), peer(1));
}

#[test]
fn joining_with_a_name_announces_it() {
    let mut session = named(1, "Alice");
    let action = session.handle(Event::Joined);
    assert_eq!(action, Action::Broadcast(Message::about_me(peer(1), "Alice".to_string())));
    assert_eq!(session.phase(), Phase::Joining);
    assert_eq!(session.handle(Event::Sent), Action::Nothing);
    assert_eq!(session.phase(), Phase::Active);
}

#[test]
fn announcement_that_fails_ends_the_session() {
    let mut session = named(1, "Alice");
    session.handle(Event::Joined);
    assert_eq!(session.handle(Event::BroadcastFailed), Action::Release);
    assert_eq!(session.phase(), Phase::ShuttingDown);
    assert_eq!(session.outcome(), Err(SessionError::BroadcastFailed));
}

#[test]
fn join_completes_once() {
    let mut session = named(1, "Alice");
    assert_eq!(session.handle(Event::Sent), Action::Nothing);
    assert_eq!(session.phase(), Phase::Joining);
    session.handle(Event::Joined);
    assert_eq!(session.handle(Event::Joined), Action::Nothing);
    assert_eq!(session.handle(Event::JoinFailed), Action::Nothing);
    assert_eq!(session.phase(), Phase::Joining);
    session.handle(Event::Sent);
    assert_eq!(session.handle(Event::Joined), Action::Nothing);
    assert_eq!(session.handle(Event::Sent), Action::Nothing);
    assert_eq!(session.phase(), Phase::Active);
    assert_eq!(session.outcome(), Ok(()));
}

#[test]
fn input_that_ends_before_the_join_closes_the_session() {
    let mut session = named(1, "Alice");
    assert_eq!(session.handle(Event::InputClosed), Action::Release);
    assert_eq!(session.handle(Event::Released), Action::Nothing);
    assert_eq!(session.phase(), Phase::Closed);
    assert_eq!(session.outcome(), Ok(()));
}

#[test]
fn joining_without_a_name_announces_nothing() {
    let mut session = Session::new(peer(1), None);
    assert_eq!(session.handle(Event::Joined), Action::Nothing);
    assert_eq!(session.phase(), Phase::Active);
}

#[test]
fn failed_join_ends_the_session() {
    let mut session = named(1, "Alice");
    assert_eq!(session.handle(Event::JoinFailed), Action::Release);
    assert_eq!(session.phase(), Phase::ShuttingDown);
    assert_eq!(session.outcome(), Err(SessionError::JoinFailed));
    assert_eq!(session.handle(Event::Released), Action::Nothing);
    assert_eq!(session.phase(), Phase::Closed);
    assert_eq!(session.outcome(), Err(SessionError::JoinFailed));
}

#[test]
fn joining_session_takes_no_messages() {
    let mut session = named(1, "Alice");
    let hello = Message::chat(peer(2), "hello".to_string(), 1);
    assert_eq!(session.handle(Event::Received(hello)), Action::Nothing);
    assert_eq!(session.handle(Event::NeighborUp(peer(2))), Action::Nothing);
    assert_eq!(
        session.handle(Event::Line { text: "hi".to_string(), now: 2 }),
        Action::Nothing
    );
    assert_eq!(session.handle(Event::Malformed), Action::Nothing);
    assert_eq!(session.phase(), Phase::Joining);
}

#[test]
fn alice_and_bob_talk() {
    let mut alice = named(1, "Alice");
    let mut bob = named(2, "Bob");

    let alice_joined = alice.handle(Event::Joined);
    assert_eq!(alice_joined, Action::Broadcast(Message::about_me(peer(1), "Alice".to_string())));
    alice.handle(Event::Sent);

    let bob_joined = bob.handle(Event::Joined);
    bob.handle(Event::Sent);
    assert_eq!(
        deliver(bob_joined, &mut alice),
        Action::Notify("c002020202 is now known as Bob".to_string())
    );

    let greeting = alice.handle(Event::NeighborUp(peer(2)));
    assert_eq!(
        deliver(greeting, &mut bob),
        Action::Notify("c001010101 is now known as Alice".to_string())
    );

    let hello = alice.handle(Event::Line { text: "hello".to_string(), now: 1_700_000_000 });
    assert_eq!(
        hello,
        Action::Broadcast(Message::chat(peer(1), "hello".to_string(), 1_700_000_000))
    );
    assert_eq!(deliver(hello, &mut bob), Action::Display("Alice: hello".to_string()));

    let hi = bob.handle(Event::Line { text: "hi".to_string(), now: 1_700_000_005 });
    assert_eq!(deliver(hi, &mut alice), Action::Display("Bob: hi".to_string()));
}

#[test]
fn neighbors_are_greeted_every_time() {
    let mut alice = active(1, Some("Alice"));
    let mut bob = active(2, Some("Bob"));
    let about_alice = Action::Broadcast(Message::about_me(peer(1), "Alice".to_string()));
    let about_bob = Action::Broadcast(Message::about_me(peer(2), "Bob".to_string()));

    assert_eq!(alice.handle(Event::NeighborUp(peer(2))), about_alice);
    assert_eq!(bob.handle(Event::NeighborUp(peer(1))), about_bob);

    assert_eq!(alice.handle(Event::NeighborUp(peer(3))), about_alice);
    assert_eq!(bob.handle(Event::NeighborUp(peer(3))), about_bob);

    assert_eq!(alice.handle(Event::NeighborUp(peer(3))), about_alice);
    assert_eq!(alice.phase(), Phase::Active);
}

#[test]
fn nameless_peer_greets_as_anonymous() {
    let mut session = active(1, None);
    assert_eq!(
        session.handle(Event::NeighborUp(peer(2))),
        Action::Broadcast(Message::about_me(peer(1), "Anonymous".to_string()))
    );
    assert_eq!(session.announcement(), Message::about_me(peer(1), "Anonymous".to_string()));
}

#[test]
fn unknown_sender_is_shown_by_its_short_form() {
    let mut session = active(1, Some("Alice"));
    let said = Message::chat(peer(9), "who am I".to_string(), 5);
    assert_eq!(
        session.handle(Event::Received(said)),
        Action::Display("c009090909: who am I".to_string())
    );
    assert_eq!(session.resolve(&peer(9)), "c009090909");
}

#[test]
fn renamed_sender_is_shown_by_its_last_name() {
    let mut session = active(1, Some("Alice"));
    session.handle(Event::Received(Message::about_me(peer(2), "Alice".to_string())));
    let renamed = session.handle(Event::Received(Message::about_me(peer(2), "Bob".to_string())));
    assert_eq!(renamed, Action::Notify("c002020202 is now known as Bob".to_string()));
    assert_eq!(session.resolve(&peer(2)), "Bob");
    let said = Message::chat(peer(2), "it is me".to_string(), 5);
    assert_eq!(session.handle(Event::Received(said)), Action::Display("Bob: it is me".to_string()));
}

#[test]
fn empty_line_is_sent_as_it_is() {
    let mut session = active(1, Some("Alice"));
    assert_eq!(
        session.handle(Event::Line { text: String::new(), now: 42 }),
        Action::Broadcast(Message::chat(peer(1), String::new(), 42))
    );
    let mut other = active(2, None);
    assert_eq!(
        other.handle(Event::Received(Message::chat(peer(1), String::new(), 42))),
        Action::Display("c001010101: ".to_string())
    );
}

#[test]
fn timestamp_is_carried_and_not_shown() {
    let mut session = active(1, None);
    let early = session.handle(Event::Received(Message::chat(peer(2), "x".to_string(), 0)));
    let late = session.handle(Event::Received(Message::chat(peer(2), "x".to_string(), u64::MAX)));
    assert_eq!(early, late);
    assert_eq!(
        session.handle(Event::Line { text: "y".to_string(), now: u64::MAX }),
        Action::Broadcast(Message::chat(peer(1), "y".to_string(), u64::MAX))
    );
}

#[test]
fn broadcasts_name_this_peer() {
    let mut session = active(7, Some("Grace"));
    for action in [
        session.handle(Event::NeighborUp(peer(1))),
        session.handle(Event::Line { text: "a".to_string(), now: 1 }),
    ] {
        match action {
            Action::Broadcast(message) => assert_eq!(message.sender(), peer(7)),
            other => panic!("nothing was broadcast: {other:?}"),
        }
    }
}

#[test]
fn end_of_input_closes_the_session() {
    let mut session = active(1, Some("Alice"));
    assert_eq!(session.handle(Event::InputClosed), Action::Release);
    assert_eq!(session.phase(), Phase::ShuttingDown);
    assert_eq!(session.handle(Event::Released), Action::Nothing);
    assert_eq!(session.phase(), Phase::Closed);
    assert_eq!(session.outcome(), Ok(()));
}

#[test]
fn every_failure_ends_the_session_with_its_error() {
    for (event, error) in [
        (Event::Malformed, SessionError::MalformedMessage),
        (Event::GroupFailed, SessionError::GroupFailed),
        (Event::BroadcastFailed, SessionError::BroadcastFailed),
        (Event::InputFailed, SessionError::InputFailed),
    ] {
        let mut session = active(1, Some("Alice"));
        assert_eq!(session.handle(event), Action::Release);
        assert_eq!(session.phase(), Phase::ShuttingDown);
        assert_eq!(session.outcome(), Err(error));
        assert_eq!(session.handle(Event::Released), Action::Nothing);
        assert_eq!(session.phase(), Phase::Closed);
        assert_eq!(session.outcome(), Err(error));
    }
}

#[test]
fn ended_session_takes_nothing_more() {
    let mut session = active(1, Some("Alice"));
    session.handle(Event::Malformed);
    let events = [
        Event::Joined,
        Event::NeighborUp(peer(2)),
        Event::Received(Message::about_me(peer(2), "Bob".to_string())),
        Event::Received(Message::chat(peer(2), "hello".to_string(), 1)),
        Event::Line { text: "hi".to_string(), now: 2 },
        Event::InputClosed,
        Event::Sent,
        Event::BroadcastFailed,
    ];
    for event in events.clone() {
        assert_eq!(session.handle(event), Action::Nothing);
        assert_eq!(session.phase(), Phase::ShuttingDown);
    }
    assert_eq!(session.resolve(&peer(2)), "c002020202");
    assert_eq!(session.outcome(), Err(SessionError::MalformedMessage));
    session.handle(Event::Released);
    for event in events {
        assert_eq!(session.handle(event), Action::Nothing);
        assert_eq!(session.phase(), Phase::Closed);
    }
    assert_eq!(session.handle(Event::Released), Action::Nothing);
    assert_eq!(session.outcome(), Err(SessionError::MalformedMessage));
}

#[test]
fn release_is_awaited_only_while_shutting_down() {
    let mut session = active(1, Some("Alice"));
    assert_eq!(session.handle(Event::Released), Action::Nothing);
    assert_eq!(session.phase(), Phase::Active);
    let mut joining = named(1, "Alice");
    assert_eq!(joining.handle(Event::Released), Action::Nothing);
    assert_eq!(joining.phase(), Phase::Joining);
}

#[test]
fn session_errors_say_what_went_wrong() {
    assert_eq!(SessionError::JoinFailed.describe(), "the room could not be joined");
    assert_eq!(SessionError::MalformedMessage.describe(), "a message could not be read");
    assert_eq!(SessionError::GroupFailed.describe(), "the connection to the room failed");
    assert_eq!(SessionError::BroadcastFailed.describe(), "a message could not be sent");
    assert_eq!(SessionError::InputFailed.describe(), "the input could not be read");
}
