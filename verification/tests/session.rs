use guessing_game::connection::session::{read_message, Message, Session, SessionAction};
use guessing_game::driver::parser::ParseError;
use guessing_game::protocol::{
    ConnectionConstraints, Frame, Registration, RegistrationOk, User, UserRegistred,
};

fn framed(class: u8, method: u8, payload: &[u8]) -> Vec<u8> {
    Vec::<u8>::from(Frame::new(class, method, payload.to_vec()))
}

fn length_prefixed(body: &[u8]) -> Vec<u8> {
    let mut payload = (body.len() as u32).to_be_bytes().to_vec();
    payload.extend(body);
    payload
}

#[test]
fn known_tags_select_the_parser() {
    let registration = Frame::new(1, 1, length_prefixed(b"{\"max_name_size\":10}"));
    assert_eq!(
        Ok(Message::Registration(Registration::new(
            20,
            ConnectionConstraints { max_name_size: 10 }
        ))),
        read_message(registration)
    );

    let registration_ok = Frame::new(1, 2, vec![5, b'A', b'l', b'l', b'a', b'n']);
    assert_eq!(
        Ok(Message::RegistrationOk(RegistrationOk::new(
            5,
            String::from("Allan")
        ))),
        read_message(registration_ok)
    );

    let user = Frame::new(1, 3, length_prefixed(b"{\"name\":\"Allan\"}"));
    assert_eq!(
        Ok(Message::User(UserRegistred::new(
            16,
            User {
                document: b"{\"name\":\"Allan\"}".to_vec()
            }
        ))),
        read_message(user)
    );
}

#[test]
fn unknown_tags_are_surfaced_with_their_frame() {
    for (class, method) in [(0u8, 1u8), (2, 2), (1, 0), (1, 4), (255, 255)] {
        let frame = Frame::new(class, method, vec![0xff, 4, 0]);
        assert_eq!(
            Ok(Message::Unknown(Frame::new(class, method, vec![0xff, 4, 0]))),
            read_message(frame)
        );
    }
}

#[test]
fn payload_must_be_filled_exactly() {
    let mut payload = length_prefixed(b"{\"max_name_size\":10}");
    payload.push(0);
    assert_eq!(
        Err(ParseError::Malformed),
        read_message(Frame::new(1, 1, payload))
    );
    assert_eq!(
        Err(ParseError::Malformed),
        read_message(Frame::new(1, 2, vec![1, b'a', b'b']))
    );
    assert_eq!(
        Err(ParseError::NeedMoreBytes),
        read_message(Frame::new(1, 2, vec![2, b'a']))
    );
    assert_eq!(
        Err(ParseError::NeedMoreBytes),
        read_message(Frame::new(1, 3, vec![0, 0]))
    );
    assert_eq!(
        Err(ParseError::Malformed),
        read_message(Frame::new(1, 3, length_prefixed(b"[]")))
    );
}

#[test]
fn session_delivers_message_after_message() {
    let mut session = Session::new();
    assert!(session.is_open());
    assert_eq!(
        SessionAction::Deliver(Message::RegistrationOk(RegistrationOk::new(
            1,
            String::from("a")
        ))),
        session.step(framed(1, 2, &[1, b'a']))
    );
    assert_eq!(
        SessionAction::Deliver(Message::Unknown(Frame::new(7, 7, vec![]))),
        session.step(framed(7, 7, &[]))
    );
    assert_eq!(
        SessionAction::Deliver(Message::User(UserRegistred::new(
            2,
            User {
                document: b"{}".to_vec()
            }
        ))),
        session.step(framed(1, 3, &length_prefixed(b"{}")))
    );
    assert!(session.is_open());
}

#[test]
fn session_keeps_what_is_incomplete() {
    // The length prefix of a four-byte text ends with a byte that looks like
    // the frame end.
    let wire = framed(1, 3, &length_prefixed(b"{  }"));
    assert_eq!(vec![1, 3, 0, 0, 0, 4, b'{', b' ', b' ', b'}', 4], wire);
    let mut session = Session::new();
    assert_eq!(SessionAction::ReadFrame, session.step(wire[..6].to_vec()));
    assert!(session.is_open());
    assert_eq!(
        SessionAction::Deliver(Message::User(UserRegistred::new(
            4,
            User {
                document: b"{  }".to_vec()
            }
        ))),
        session.step(wire[6..].to_vec())
    );
    // Nothing is left over for the next message.
    assert_eq!(
        SessionAction::Deliver(Message::Unknown(Frame::new(9, 9, vec![1]))),
        session.step(framed(9, 9, &[1]))
    );
}

#[test]
fn session_terminates_on_malformed_input_and_stays_so() {
    let malformed: Vec<Vec<u8>> = vec![
        vec![],
        vec![4],
        vec![1, 2, 1, b'a'],
        framed(1, 2, &[1, 0xff]),
        framed(1, 1, &length_prefixed(b"{}")),
        framed(1, 3, &length_prefixed(b"7")),
    ];
    for bytes in malformed {
        let mut session = Session::new();
        assert_eq!(SessionAction::Terminate, session.step(bytes));
        assert!(!session.is_open());
        assert_eq!(
            SessionAction::Stop,
            session.step(framed(1, 2, &[1, b'a']))
        );
        assert!(!session.is_open());
    }
}
