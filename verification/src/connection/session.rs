//! The session that follows the handshake: received bytes become messages.
//!
//! Like the handshake, the session does no input or output. Its owner reads
//! up to the next frame end, hands the bytes over and does what the
//! [`SessionAction`] says.

use vstd::prelude::*;

use crate::driver::parser::{
    law_truncated_input_needs_more_bytes, parse_registration_method,
    parse_registration_ok_method, parse_user_registred_method, parsed_registration,
    parsed_registration_ok, parsed_user_registred, ParseError,
};
use crate::protocol::{
    class_of, decode_frame, encode_frame, law_decoded_frame_encodes_back, method_of, Class, Frame,
    FrameView, Method, Registration, RegistrationOk, RegistrationOkView, UserRegistred,
    UserRegistredView, FRAME_END,
};

verus! {

/// What a frame carries, by its two tags.
#[derive(Debug, PartialEq)]
pub enum Message {
    /// The server's constraints.
    Registration(Registration),
    /// The name a client registers under.
    RegistrationOk(RegistrationOk),
    /// The description of a registered user.
    User(UserRegistred),
    /// A frame whose tags name no message of the protocol, as it came.
    Unknown(Frame),
}

/// [`Message`] as plain mathematical values.
pub enum MessageView {
    Registration(Registration),
    RegistrationOk(RegistrationOkView),
    User(UserRegistredView),
    Unknown(FrameView),
}

impl View for Message {
    type V = MessageView;

    open spec fn view(&self) -> MessageView {
        match self {
            Message::Registration(registration) => MessageView::Registration(*registration),
            Message::RegistrationOk(registration_ok) => MessageView::RegistrationOk(
                registration_ok@,
            ),
            Message::User(registred) => MessageView::User(registred@),
            Message::Unknown(frame) => MessageView::Unknown(frame@),
        }
    }
}

/// The item that fills a payload: what the parser found, where it left
/// nothing over. A payload that goes on after its item is malformed.
pub open spec fn filling<T>(parsed: Result<(Seq<u8>, T), ParseError>) -> Result<T, ParseError> {
    match parsed {
        Ok((rest, item)) => if rest.len() == 0 {
            Ok(item)
        } else {
            Err(ParseError::Malformed)
        },
        Err(error) => Err(error),
    }
}

/// The message that the frame `frame` carries. The pairs of tags that the
/// protocol knows select the parser of the payload; a frame with any other
/// pair is handed on as it is.
pub open spec fn message_of(frame: FrameView) -> Result<MessageView, ParseError> {
    if class_of(frame.class) != Class::Connection {
        Ok(MessageView::Unknown(frame))
    } else {
        match method_of(frame.method) {
            Method::Registration => match filling(parsed_registration(frame.payload)) {
                Ok(registration) => Ok(MessageView::Registration(registration)),
                Err(error) => Err(error),
            },
            Method::RegistrationOk => match filling(parsed_registration_ok(frame.payload)) {
                Ok(registration_ok) => Ok(MessageView::RegistrationOk(registration_ok)),
                Err(error) => Err(error),
            },
            Method::User => match filling(parsed_user_registred(frame.payload)) {
                Ok(registred) => Ok(MessageView::User(registred)),
                Err(error) => Err(error),
            },
            Method::Unknown => Ok(MessageView::Unknown(frame)),
        }
    }
}

/// The message that the received bytes hold. Bytes that are no frame are
/// malformed.
pub open spec fn decoded_message(bytes: Seq<u8>) -> Result<MessageView, ParseError> {
    match decode_frame(bytes) {
        Some(frame) => message_of(frame),
        None => Err(ParseError::Malformed),
    }
}

/// Reads the message that `frame` carries.
pub fn read_message(frame: Frame) -> (result: Result<Message, ParseError>)
    ensures
        match result {
            Ok(message) => message_of(frame@) == Ok::<MessageView, ParseError>(message@),
            Err(error) => message_of(frame@) == Err::<MessageView, ParseError>(error),
        },
{
    if Class::from_tag(frame.class) != Class::Connection {
        return Ok(Message::Unknown(frame));
    }
    match Method::from_tag(frame.method) {
        Method::Registration => match parse_registration_method(frame.payload.as_slice()) {
            Ok((rest, registration)) => {
                if rest.len() == 0 {
                    Ok(Message::Registration(registration))
                } else {
                    Err(ParseError::Malformed)
                }
            },
            Err(error) => Err(error),
        },
        Method::RegistrationOk => match parse_registration_ok_method(frame.payload.as_slice()) {
            Ok((rest, registration_ok)) => {
                if rest.len() == 0 {
                    Ok(Message::RegistrationOk(registration_ok))
                } else {
                    Err(ParseError::Malformed)
                }
            },
            Err(error) => Err(error),
        },
        Method::User => match parse_user_registred_method(frame.payload.as_slice()) {
            Ok((rest, registred)) => {
                if rest.len() == 0 {
                    Ok(Message::User(registred))
                } else {
                    Err(ParseError::Malformed)
                }
            },
            Err(error) => Err(error),
        },
        Method::Unknown => Ok(Message::Unknown(frame)),
    }
}

/// What the session asks its owner to do next.
#[derive(Debug, PartialEq)]
pub enum SessionAction {
    /// A message has arrived: act on it, then read on.
    Deliver(Message),
    /// Nothing is complete yet: read up to and including the next frame end
    /// and hand the bytes over.
    ReadFrame,
    /// What was received is malformed: report it and close the connection.
    Terminate,
    /// The session is over: there is nothing left to do.
    Stop,
}

/// [`SessionAction`] as plain mathematical values.
pub enum SessionActionView {
    Deliver(MessageView),
    ReadFrame,
    Terminate,
    Stop,
}

impl View for SessionAction {
    type V = SessionActionView;

    open spec fn view(&self) -> SessionActionView {
        match self {
            SessionAction::Deliver(message) => SessionActionView::Deliver(message@),
            SessionAction::ReadFrame => SessionActionView::ReadFrame,
            SessionAction::Terminate => SessionActionView::Terminate,
            SessionAction::Stop => SessionActionView::Stop,
        }
    }
}

/// A session as plain mathematical values.
pub struct SessionView {
    /// The session has not been terminated.
    pub open: bool,
    /// Received bytes of a message that is not complete yet.
    pub pending: Seq<u8>,
}

impl SessionView {
    /// A session that has received nothing yet.
    pub open spec fn initial() -> SessionView {
        SessionView { open: true, pending: Seq::empty() }
    }

    /// The session after `bytes` were received, and what to do next. A
    /// complete message is delivered; a message that stops short is kept
    /// until more bytes arrive; anything malformed terminates the session,
    /// and a terminated session stays so.
    pub open spec fn step(self, bytes: Seq<u8>) -> (SessionView, SessionActionView) {
        if !self.open {
            (self, SessionActionView::Stop)
        } else {
            match decoded_message(self.pending + bytes) {
                Ok(message) => (SessionView::initial(), SessionActionView::Deliver(message)),
                Err(ParseError::NeedMoreBytes) => (
                    SessionView { open: true, pending: self.pending + bytes },
                    SessionActionView::ReadFrame,
                ),
                Err(ParseError::Malformed) => (
                    SessionView { open: false, pending: Seq::empty() },
                    SessionActionView::Terminate,
                ),
            }
        }
    }
}

/// The session of one registered connection.
pub struct Session {
    open: bool,
    pending: Vec<u8>,
}

impl View for Session {
    type V = SessionView;

    closed spec fn view(&self) -> SessionView {
        SessionView { open: self.open, pending: self.pending@ }
    }
}

impl Session {
    /// A session that has received nothing yet.
    pub fn new() -> (session: Session)
        ensures
            session@ == SessionView::initial(),
    {
        Session { open: true, pending: Vec::new() }
    }

    /// Whether the session has not been terminated.
    pub fn is_open(&self) -> (open: bool)
        ensures
            open == self@.open,
    {
        self.open
    }

    /// Takes in the bytes received up to and including the next frame end
    /// and says what to do next.
    pub fn step(&mut self, bytes: Vec<u8>) -> (action: SessionAction)
        ensures
            (final(self)@, action@) == old(self)@.step(bytes@),
    {
        if !self.open {
            return SessionAction::Stop;
        }
        let mut bytes = bytes;
        let mut buffer = Vec::new();
        core::mem::swap(&mut buffer, &mut self.pending);
        buffer.append(&mut bytes);
        let copy = buffer.clone();
        let frame = match Frame::try_from(buffer) {
            Ok(frame) => frame,
            Err(_) => {
                self.open = false;
                return SessionAction::Terminate;
            },
        };
        match read_message(frame) {
            Ok(message) => SessionAction::Deliver(message),
            Err(ParseError::NeedMoreBytes) => {
                self.pending = copy;
                SessionAction::ReadFrame
            },
            Err(ParseError::Malformed) => {
                self.open = false;
                SessionAction::Terminate
            },
        }
    }
}

/// A delivered message is what its frame says: the received bytes are the
/// frame's encoding, and a length prefix in the payload counts exactly the
/// bytes that follow it.
pub proof fn law_delivered_message_fills_its_frame(session: SessionView, bytes: Seq<u8>)
    requires
        session.step(bytes).1 is Deliver,
    ensures
        session.open,
        session.step(bytes).0 == SessionView::initial(),
        ({
            let received = session.pending + bytes;
            let frame = decode_frame(received).unwrap();
            &&& decode_frame(received) is Some
            &&& received == encode_frame(frame)
            &&& match session.step(bytes).1->Deliver_0 {
                MessageView::Registration(registration) => registration.size + 4
                    == frame.payload.len(),
                MessageView::RegistrationOk(registration_ok) => registration_ok.size + 1
                    == frame.payload.len() && registration_ok.wf(),
                MessageView::User(registred) => registred.size + 4 == frame.payload.len()
                    && registred.wf(),
                MessageView::Unknown(unknown) => unknown == frame,
            }
        }),
{
    let received = session.pending + bytes;
    let frame = decode_frame(received).unwrap();
    law_decoded_frame_encodes_back(received);
    match session.step(bytes).1->Deliver_0 {
        MessageView::RegistrationOk(registration_ok) => {
            crate::driver::parser::law_parsed_registration_ok_is_well_formed(frame.payload);
        },
        _ => {},
    }
}

/// A frame end inside a message does no harm. Where the frame of a message
/// of the protocol arrives in two pieces, the first one ending with a byte
/// that looks like the frame end, the first piece is kept and the second
/// one completes the message.
pub proof fn law_split_message_is_delivered(wire: Seq<u8>, cut: int)
    requires
        decoded_message(wire) is Ok,
        !(decoded_message(wire).unwrap() is Unknown),
        0 < cut < wire.len(),
        wire[cut - 1] == FRAME_END,
    ensures
        ({
            let first = SessionView::initial().step(wire.take(cut));
            &&& first == (
                SessionView { open: true, pending: wire.take(cut) },
                SessionActionView::ReadFrame,
            )
            &&& first.0.step(wire.skip(cut)) == (
                SessionView::initial(),
                SessionActionView::Deliver(decoded_message(wire).unwrap()),
            )
        }),
{
    let head = wire.take(cut);
    let frame = decode_frame(wire).unwrap();
    law_truncated_input_needs_more_bytes(frame.payload, cut - 3);
    assert(head + wire.skip(cut) =~= wire);
}

} // verus!
