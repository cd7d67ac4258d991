use guessing_game::protocol::{
    Class, ConnectionConstraints, Frame, FrameHeader, FramePayload, Method, ProtocolHeader,
    Registration, RegistrationOk, User, UserRegistred, FRAME_END,
};
use std::convert::TryFrom;

#[test]
fn test_protocol_header_try_from() {
    let header = "GG010".as_bytes().to_vec();
    let protocol_header = ProtocolHeader::try_from(header);
    assert!(
        protocol_header.is_ok(),
        "Error converting GG010 to ProtocolHeader"
    );
    assert_eq!(ProtocolHeader::default(), protocol_header.unwrap());
}

#[test]
fn test_protocol_header_try_from_error() {
    let header = "GG011".as_bytes().to_vec();
    let protocol_header = ProtocolHeader::try_from(header);
    assert!(
        protocol_header.is_err(),
        "Invalid value converted to ProtocolHeader"
    );
    assert_eq!(
        *ProtocolHeader::default().header(),
        protocol_header.unwrap_err()
    );
}

#[test]
fn protocol_header_is_the_literal() {
    assert_eq!("GG010", ProtocolHeader::default().header());
}

#[test]
fn protocol_header_refuses_everything_else() {
    let wrong: Vec<Vec<u8>> = vec![
        vec![],
        b"GG01".to_vec(),
        b"GG0100".to_vec(),
        b"gg010".to_vec(),
        b"GG01O".to_vec(),
        b"\x00\x00\x00\x00\x00".to_vec(),
        vec![0x47, 0x47, 0x30, 0x31, 0xff],
        vec![0xff, 0xfe, 0xfd, 0xfc, 0xfb],
    ];
    for bytes in wrong {
        assert_eq!(Err(String::from("GG010")), ProtocolHeader::try_from(bytes));
    }
}

#[test]
fn frame_end_is_four() {
    assert_eq!(0x04, FRAME_END);
}

#[test]
fn frame_encodes_tags_payload_and_end() {
    let frame = Frame::new(1, 2, vec![8, b'a', b'b']);
    assert_eq!(vec![1, 2, 8, b'a', b'b', 4], Vec::<u8>::from(frame));
    let empty = Frame::new(0, 255, vec![]);
    assert_eq!(vec![0, 255, 4], Vec::<u8>::from(empty));
}

#[test]
fn frame_decodes_what_was_encoded() {
    let payloads: Vec<Vec<u8>> = vec![vec![], vec![0], vec![1, 2, 3], vec![4], vec![9, 4, 4, 7]];
    for payload in payloads {
        for (class, method) in [(1u8, 1u8), (1, 2), (1, 3), (0, 0), (4, 4), (255, 7)] {
            let bytes = Vec::<u8>::from(Frame::new(class, method, payload.clone()));
            let frame = Frame::try_from(bytes).unwrap();
            assert_eq!(class, frame.class);
            assert_eq!(method, frame.method);
            assert_eq!(payload, frame.payload);
        }
    }
}

#[test]
fn frame_without_end_is_malformed() {
    let malformed: Vec<Vec<u8>> = vec![
        vec![],
        vec![4],
        vec![1, 4],
        vec![1, 1, 0],
        vec![1, 1, 4, 0],
        vec![1, 2, 3, 5],
    ];
    for bytes in malformed {
        assert_eq!(Err(String::from("Malformed frame")), Frame::try_from(bytes));
    }
}

#[test]
fn shortest_frame_has_no_payload() {
    let frame = Frame::try_from(vec![7, 9, 4]).unwrap();
    assert_eq!(Frame::new(7, 9, vec![]), frame);
}

#[test]
fn tags_map_to_classes_and_methods() {
    assert_eq!(Class::Connection, Class::from_tag(1));
    assert_eq!(Class::Unknown, Class::from_tag(0));
    assert_eq!(Class::Unknown, Class::from_tag(2));
    assert_eq!(Class::Unknown, Class::from_tag(255));
    assert_eq!(Method::Registration, Method::from_tag(1));
    assert_eq!(Method::RegistrationOk, Method::from_tag(2));
    assert_eq!(Method::User, Method::from_tag(3));
    assert_eq!(Method::Unknown, Method::from_tag(0));
    assert_eq!(Method::Unknown, Method::from_tag(4));
    assert_eq!(Method::Unknown, Method::from_tag(255));
}

#[test]
fn constructors_keep_their_arguments() {
    let header = FrameHeader::new(Class::Connection, Method::User);
    assert_eq!(Class::Connection, header.class);
    assert_eq!(Method::User, header.method);

    let registration = Registration::new(20, ConnectionConstraints { max_name_size: 10 });
    assert_eq!(20, registration.size);
    assert_eq!(10, registration.constraints.max_name_size);
    assert_eq!(registration, registration.get());

    let registration_ok = RegistrationOk::new(5, String::from("Allan"));
    assert_eq!(5, registration_ok.size);
    assert_eq!("Allan", registration_ok.user_name);
    let payload = registration_ok.get();
    assert_eq!(RegistrationOk::new(5, String::from("Allan")), payload);

    let registred = UserRegistred::new(2, User { document: b"{}".to_vec() });
    assert_eq!(2, registred.size);
    assert_eq!(b"{}".to_vec(), registred.user.document);
}

#[test]
fn default_constraints_allow_ten_bytes() {
    assert_eq!(10, ConnectionConstraints::default().max_name_size);
}

#[test]
fn constraints_are_written_as_a_json_object() {
    assert_eq!(
        Some(b"{\"max_name_size\":10}".to_vec()),
        ConnectionConstraints::default().to_json()
    );
    assert_eq!(
        Some(b"{\"max_name_size\":0}".to_vec()),
        ConnectionConstraints { max_name_size: 0 }.to_json()
    );
    assert_eq!(
        Some(b"{\"max_name_size\":255}".to_vec()),
        ConnectionConstraints { max_name_size: 255 }.to_json()
    );
}

#[test]
fn constraints_need_a_member_that_fits_in_a_byte() {
    assert_eq!(None, ConnectionConstraints::from_member(None));
    assert_eq!(
        Some(ConnectionConstraints { max_name_size: 0 }),
        ConnectionConstraints::from_member(Some(0))
    );
    assert_eq!(
        Some(ConnectionConstraints { max_name_size: 255 }),
        ConnectionConstraints::from_member(Some(255))
    );
    assert_eq!(None, ConnectionConstraints::from_member(Some(256)));
    assert_eq!(None, ConnectionConstraints::from_member(Some(u64::MAX)));
}
