use guessing_game::connection::handshake::{
    frame_registration, registration_frame, Handshake, HandshakeAction, HandshakeError,
    HandshakeEvent, HandshakeState, INVALID_HEADER_REPORT,
};
use guessing_game::driver::parser::{parse_frame_header, parse_registration_method};
use guessing_game::protocol::{Class, ConnectionConstraints, Frame, Method};
use std::convert::TryFrom;

fn registration_wire() -> Vec<u8> {
    let mut wire = vec![1u8, 1, 0, 0, 0, 20];
    wire.extend(b"{\"max_name_size\":10}");
    wire.push(4);
    wire
}

fn acknowledgment(name: &str) -> Vec<u8> {
    let mut wire = vec![1u8, 2, name.len() as u8];
    wire.extend(name.as_bytes());
    wire.push(4);
    wire
}

fn awaiting_acknowledgment() -> Handshake {
    let mut handshake = Handshake::new(ConnectionConstraints::default()).unwrap();
    handshake.step(HandshakeEvent::Greeting(b"GG010".to_vec()));
    handshake.step(HandshakeEvent::RegistrationSent);
    assert_eq!(HandshakeState::AwaitingRegistrationAck, handshake.state());
    handshake
}

#[test]
fn invalid_header_report_names_the_header() {
    assert_eq!("Connection closed - Invalid header", INVALID_HEADER_REPORT);
}

#[test]
fn registration_frame_is_tags_length_json_and_end() {
    assert_eq!(
        Some(registration_wire()),
        registration_frame(&ConnectionConstraints::default())
    );
    assert_eq!(
        vec![1u8, 1, 0, 0, 0, 2, b'{', b'}', 4],
        frame_registration(b"{}")
    );
    assert_eq!(vec![1u8, 1, 0, 0, 0, 0, 4], frame_registration(b""));
}

#[test]
fn registration_frame_prefixes_long_texts_big_endian() {
    let text = vec![b' '; 0x01_02_03];
    let wire = frame_registration(&text);
    assert_eq!(&[1u8, 1, 0, 1, 2, 3][..], &wire[..6]);
    assert_eq!(text.len() + 7, wire.len());
    assert_eq!(4, wire[wire.len() - 1]);
}

#[test]
fn registration_frame_reads_back() {
    let wire = registration_frame(&ConnectionConstraints { max_name_size: 42 }).unwrap();
    let frame = Frame::try_from(wire.clone()).unwrap();
    let (payload, header) = parse_frame_header(&wire).unwrap();
    assert_eq!(Class::Connection, header.class);
    assert_eq!(Method::Registration, header.method);
    assert_eq!(frame.payload.len() + 1, payload.len());
    let (rest, registration) = parse_registration_method(&frame.payload).unwrap();
    assert_eq!(42, registration.constraints.max_name_size);
    assert!(rest.is_empty());
}

#[test]
fn handshake_starts_by_awaiting_the_greeting() {
    let handshake = Handshake::new(ConnectionConstraints::default()).unwrap();
    assert_eq!(HandshakeState::AwaitingHeader, handshake.state());
    assert_eq!(10, handshake.constraints().max_name_size);
    assert_eq!(HandshakeAction::ReadGreeting, handshake.awaited());
}

#[test]
fn right_greeting_is_answered_with_the_registration() {
    let mut handshake = Handshake::new(ConnectionConstraints::default()).unwrap();
    let action = handshake.step(HandshakeEvent::Greeting(b"GG010".to_vec()));
    assert_eq!(HandshakeAction::SendRegistration(registration_wire()), action);
    assert_eq!(HandshakeState::Registering, handshake.state());
    let action = handshake.step(HandshakeEvent::RegistrationSent);
    assert_eq!(HandshakeAction::ReadFrame, action);
    assert_eq!(HandshakeState::AwaitingRegistrationAck, handshake.state());
}

#[test]
fn wrong_greeting_is_rejected_with_the_expected_one() {
    let mut handshake = Handshake::new(ConnectionConstraints::default()).unwrap();
    let action = handshake.step(HandshakeEvent::Greeting(b"GG011".to_vec()));
    assert_eq!(HandshakeAction::Reject(String::from("GG010")), action);
    assert_eq!(HandshakeState::Rejected, handshake.state());
    match action {
        HandshakeAction::Reject(reply) => assert_eq!(b"GG010", reply.as_bytes()),
        _ => unreachable!(),
    }
}

#[test]
fn greeting_that_is_no_text_is_rejected_too() {
    let mut handshake = Handshake::new(ConnectionConstraints::default()).unwrap();
    let action = handshake.step(HandshakeEvent::Greeting(vec![0xff, 0, 1, 2, 3]));
    assert_eq!(HandshakeAction::Reject(String::from("GG010")), action);
    assert_eq!(HandshakeState::Rejected, handshake.state());
}

#[test]
fn acknowledgment_registers_the_name() {
    let mut handshake = awaiting_acknowledgment();
    let action = handshake.step(HandshakeEvent::Frame(acknowledgment("Allan")));
    assert_eq!(HandshakeAction::Welcome(String::from("Allan")), action);
    assert_eq!(HandshakeState::Established, handshake.state());
}

#[test]
fn name_may_fill_the_constraints_and_no_more() {
    let mut handshake = awaiting_acknowledgment();
    let action = handshake.step(HandshakeEvent::Frame(acknowledgment("0123456789")));
    assert_eq!(HandshakeAction::Welcome(String::from("0123456789")), action);

    let mut handshake = awaiting_acknowledgment();
    let action = handshake.step(HandshakeEvent::Frame(acknowledgment("0123456789a")));
    assert_eq!(HandshakeAction::Abort(HandshakeError::NameTooLong), action);
    assert_eq!(HandshakeState::Rejected, handshake.state());

    // Eight characters, eleven bytes.
    let mut handshake = awaiting_acknowledgment();
    let action = handshake.step(HandshakeEvent::Frame(acknowledgment("Allançõí")));
    assert_eq!(HandshakeAction::Abort(HandshakeError::NameTooLong), action);
}

#[test]
fn other_frames_are_ignored_until_the_acknowledgment() {
    let mut handshake = awaiting_acknowledgment();
    let others: Vec<Vec<u8>> = vec![
        registration_wire(),
        vec![1, 3, 0, 0, 0, 2, b'{', b'}', 4],
        vec![2, 2, 1, b'a', 4],
        vec![0, 0, 4],
        vec![9, 9, 9, 9, 4],
    ];
    for frame in others {
        assert_eq!(
            HandshakeAction::ReadFrame,
            handshake.step(HandshakeEvent::Frame(frame))
        );
        assert_eq!(HandshakeState::AwaitingRegistrationAck, handshake.state());
    }
    let action = handshake.step(HandshakeEvent::Frame(acknowledgment("Paloma")));
    assert_eq!(HandshakeAction::Welcome(String::from("Paloma")), action);
}

#[test]
fn bytes_that_are_no_frame_end_the_handshake() {
    let malformed: Vec<Vec<u8>> = vec![vec![], vec![4], vec![1, 4], vec![1, 2, 1, b'a']];
    for bytes in malformed {
        let mut handshake = awaiting_acknowledgment();
        let action = handshake.step(HandshakeEvent::Frame(bytes));
        assert_eq!(HandshakeAction::Abort(HandshakeError::MalformedFrame), action);
        assert_eq!(HandshakeState::Rejected, handshake.state());
    }
}

#[test]
fn malformed_acknowledgment_ends_the_handshake() {
    let malformed: Vec<Vec<u8>> = vec![
        vec![1, 2, 2, 0xff, 0xfe, 4],
        vec![1, 2, 1, b'a', b'b', 4],
        vec![1, 2, 0, 0, 4],
    ];
    for bytes in malformed {
        let mut handshake = awaiting_acknowledgment();
        let action = handshake.step(HandshakeEvent::Frame(bytes));
        assert_eq!(
            HandshakeAction::Abort(HandshakeError::MalformedRegistration),
            action
        );
        assert_eq!(HandshakeState::Rejected, handshake.state());
    }
}

#[test]
fn name_of_four_bytes_arrives_in_two_pieces() {
    // The length byte of a four-byte name looks like the frame end.
    let wire = acknowledgment("Alla");
    assert_eq!(vec![1, 2, 4, b'A', b'l', b'l', b'a', 4], wire);
    let mut handshake = awaiting_acknowledgment();
    let action = handshake.step(HandshakeEvent::Frame(wire[..3].to_vec()));
    assert_eq!(HandshakeAction::ReadFrame, action);
    assert_eq!(HandshakeState::AwaitingRegistrationAck, handshake.state());
    let action = handshake.step(HandshakeEvent::Frame(wire[3..].to_vec()));
    assert_eq!(HandshakeAction::Welcome(String::from("Alla")), action);
    assert_eq!(HandshakeState::Established, handshake.state());
}

#[test]
fn name_with_a_frame_end_inside_arrives_in_three_pieces() {
    let wire = acknowledgment("a\u{4}b\u{4}c");
    let mut handshake = awaiting_acknowledgment();
    assert_eq!(
        HandshakeAction::ReadFrame,
        handshake.step(HandshakeEvent::Frame(wire[..5].to_vec()))
    );
    assert_eq!(
        HandshakeAction::ReadFrame,
        handshake.step(HandshakeEvent::Frame(wire[5..7].to_vec()))
    );
    assert_eq!(
        HandshakeAction::Welcome(String::from("a\u{4}b\u{4}c")),
        handshake.step(HandshakeEvent::Frame(wire[7..].to_vec()))
    );
}

#[test]
fn ignored_frame_drops_what_was_pending() {
    let mut handshake = awaiting_acknowledgment();
    assert_eq!(
        HandshakeAction::ReadFrame,
        handshake.step(HandshakeEvent::Frame(vec![1, 1, 4]))
    );
    let action = handshake.step(HandshakeEvent::Frame(acknowledgment("Chico")));
    assert_eq!(HandshakeAction::Welcome(String::from("Chico")), action);
}

#[test]
fn finished_handshake_answers_stop() {
    let mut handshake = awaiting_acknowledgment();
    handshake.step(HandshakeEvent::Frame(acknowledgment("Allan")));
    for event in [
        HandshakeEvent::Greeting(b"GG010".to_vec()),
        HandshakeEvent::RegistrationSent,
        HandshakeEvent::Frame(acknowledgment("Paloma")),
    ] {
        assert_eq!(HandshakeAction::Stop, handshake.step(event));
        assert_eq!(HandshakeState::Established, handshake.state());
    }

    let mut handshake = Handshake::new(ConnectionConstraints::default()).unwrap();
    handshake.step(HandshakeEvent::Greeting(b"HELLO".to_vec()));
    for event in [
        HandshakeEvent::Greeting(b"GG010".to_vec()),
        HandshakeEvent::RegistrationSent,
        HandshakeEvent::Frame(acknowledgment("Paloma")),
    ] {
        assert_eq!(HandshakeAction::Stop, handshake.step(event));
        assert_eq!(HandshakeState::Rejected, handshake.state());
    }
}

#[test]
fn event_out_of_place_changes_nothing() {
    let mut handshake = Handshake::new(ConnectionConstraints::default()).unwrap();
    assert_eq!(
        HandshakeAction::ReadGreeting,
        handshake.step(HandshakeEvent::RegistrationSent)
    );
    assert_eq!(
        HandshakeAction::ReadGreeting,
        handshake.step(HandshakeEvent::Frame(acknowledgment("Allan")))
    );
    assert_eq!(HandshakeState::AwaitingHeader, handshake.state());

    handshake.step(HandshakeEvent::Greeting(b"GG010".to_vec()));
    assert_eq!(
        HandshakeAction::SendRegistration(registration_wire()),
        handshake.step(HandshakeEvent::Greeting(b"GG011".to_vec()))
    );
    assert_eq!(
        HandshakeAction::SendRegistration(registration_wire()),
        handshake.step(HandshakeEvent::Frame(acknowledgment("Allan")))
    );
    assert_eq!(HandshakeState::Registering, handshake.state());
    assert_eq!(
        HandshakeAction::SendRegistration(registration_wire()),
        handshake.awaited()
    );

    handshake.step(HandshakeEvent::RegistrationSent);
    assert_eq!(
        HandshakeAction::ReadFrame,
        handshake.step(HandshakeEvent::Greeting(b"GG011".to_vec()))
    );
    assert_eq!(
        HandshakeAction::ReadFrame,
        handshake.step(HandshakeEvent::RegistrationSent)
    );
    assert_eq!(HandshakeState::AwaitingRegistrationAck, handshake.state());
}

#[test]
fn constraints_of_zero_admit_the_empty_name_only() {
    let mut handshake = Handshake::new(ConnectionConstraints { max_name_size: 0 }).unwrap();
    handshake.step(HandshakeEvent::Greeting(b"GG010".to_vec()));
    handshake.step(HandshakeEvent::RegistrationSent);
    assert_eq!(
        HandshakeAction::Abort(HandshakeError::NameTooLong),
        handshake.step(HandshakeEvent::Frame(acknowledgment("a")))
    );

    let mut handshake = Handshake::new(ConnectionConstraints { max_name_size: 0 }).unwrap();
    handshake.step(HandshakeEvent::Greeting(b"GG010".to_vec()));
    handshake.step(HandshakeEvent::RegistrationSent);
    assert_eq!(
        HandshakeAction::Welcome(String::new()),
        handshake.step(HandshakeEvent::Frame(acknowledgment("")))
    );
}
