//! The handshake of one connection, as a state machine.
//!
//! The machine does no input or output. Whoever owns the connection performs
//! the [`HandshakeAction`] it is handed and reports what came of it as the
//! next [`HandshakeEvent`]; the machine decides.

use vstd::prelude::*;
use vstd::utf8::encode_utf8;

use crate::driver::parser::{
    law_parsed_registration_ok_is_well_formed, law_registration_ok_round_trip,
    law_truncated_input_needs_more_bytes, parse_registration_ok_method, parsed_registration_ok,
    ParseError,
};
use crate::protocol::json::json_member_text;
use crate::protocol::wire::{be_bytes, write_u32_be};
use crate::protocol::{
    class_of, decode_frame, encode_frame, header_bytes, header_text,
    law_decoded_frame_encodes_back, law_frame_round_trip, law_header_bytes_encode_header_text,
    max_name_size_key, method_of, Class, ConnectionConstraints, Frame, FrameView, Method,
    ProtocolHeader, CONNECTION_TAG, FRAME_END, REGISTRATION_OK_TAG, REGISTRATION_TAG,
};

verus! {

/// What the owner of the connection reports when the greeting was refused.
pub const INVALID_HEADER_REPORT: &'static str = "Connection closed - Invalid header";

/// The registration frame on the wire, for the JSON text `text` of the
/// constraints: the two tags, the text's length in four bytes, the text,
/// and the frame end.
pub open spec fn registration_wire(text: Seq<u8>) -> Seq<u8>
    recommends
        text.len() <= u32::MAX,
{
    encode_frame(
        FrameView {
            class: CONNECTION_TAG,
            method: REGISTRATION_TAG,
            payload: be_bytes(text.len() as u32) + text,
        },
    )
}

/// Frames the JSON text of the constraints as a registration.
pub fn frame_registration(text: &[u8]) -> (wire: Vec<u8>)
    requires
        text@.len() <= u32::MAX,
    ensures
        wire@ == registration_wire(text@),
{
    let mut registration_payload = Vec::new();
    let bytes_length = text.len() as u32;
    write_u32_be(&mut registration_payload, bytes_length);
    registration_payload.extend_from_slice(text);
    let frame = Frame::new(CONNECTION_TAG, REGISTRATION_TAG, registration_payload);
    Vec::<u8>::from(frame)
}

/// The registration frame for the JSON text that the writer made of the
/// constraints, if any: there is no frame where the writer refused or the
/// text is too long for its length prefix.
pub open spec fn registration_of(text: Option<Seq<u8>>) -> Option<Seq<u8>> {
    match text {
        Some(text) => if text.len() <= u32::MAX {
            Some(registration_wire(text))
        } else {
            None
        },
        None => None,
    }
}

/// The registration frame that announces `constraints`, where there is one.
pub fn registration_frame(constraints: &ConnectionConstraints) -> (wire: Option<Vec<u8>>)
    ensures
        match wire {
            Some(bytes) => registration_of(
                json_member_text(max_name_size_key(), constraints.max_name_size as u64),
            ) == Some(bytes@),
            None => registration_of(
                json_member_text(max_name_size_key(), constraints.max_name_size as u64),
            ) is None,
        },
{
    match constraints.to_json() {
        Some(text) => {
            if text.len() <= u32::MAX as usize {
                Some(frame_registration(text.as_slice()))
            } else {
                None
            }
        },
        None => None,
    }
}

/// Where the handshake of a connection stands.
#[derive(Debug, Clone, Copy, PartialEq, Eq, Structural)]
pub enum HandshakeState {
    /// Nothing was received yet: the peer has to open with the greeting.
    AwaitingHeader,
    /// The greeting was accepted and the registration frame is on its way.
    Registering,
    /// The registration frame was sent: the peer has to acknowledge it.
    AwaitingRegistrationAck,
    /// The peer is registered. Terminal.
    Established,
    /// The connection is given up. Terminal.
    Rejected,
}

/// Position of a state in the course of a handshake; the two terminal states
/// share the last position.
pub open spec fn state_rank(state: HandshakeState) -> nat {
    match state {
        HandshakeState::AwaitingHeader => 0,
        HandshakeState::Registering => 1,
        HandshakeState::AwaitingRegistrationAck => 2,
        HandshakeState::Established => 3,
        HandshakeState::Rejected => 3,
    }
}

/// A protocol error that ends the handshake after the greeting.
#[derive(Debug, Clone, Copy, PartialEq, Eq, Structural)]
pub enum HandshakeError {
    /// What was received is no frame.
    MalformedFrame,
    /// The acknowledgment's payload is not a length-prefixed UTF-8 name and
    /// nothing else.
    MalformedRegistration,
    /// The name is longer than the constraints allow.
    NameTooLong,
}

/// What the owner of the connection reports to the machine.
#[derive(Debug, PartialEq)]
pub enum HandshakeEvent {
    /// The five bytes that the peer opened with.
    Greeting(Vec<u8>),
    /// The registration frame was written to the peer.
    RegistrationSent,
    /// The bytes received up to and including the next frame end.
    Frame(Vec<u8>),
}

/// [`HandshakeEvent`] with its bytes as sequences.
pub enum HandshakeEventView {
    Greeting(Seq<u8>),
    RegistrationSent,
    Frame(Seq<u8>),
}

impl View for HandshakeEvent {
    type V = HandshakeEventView;

    open spec fn view(&self) -> HandshakeEventView {
        match self {
            HandshakeEvent::Greeting(bytes) => HandshakeEventView::Greeting(bytes@),
            HandshakeEvent::RegistrationSent => HandshakeEventView::RegistrationSent,
            HandshakeEvent::Frame(bytes) => HandshakeEventView::Frame(bytes@),
        }
    }
}

/// What the machine asks the owner of the connection to do next.
#[derive(Debug, PartialEq)]
pub enum HandshakeAction {
    /// Read exactly five bytes and report them as the greeting.
    ReadGreeting,
    /// Write these bytes, the registration frame, and report that it was
    /// sent.
    SendRegistration(Vec<u8>),
    /// Read up to and including the next frame end and report the bytes.
    ReadFrame,
    /// Write this text, the greeting that was expected, then flush and close
    /// the connection and report an invalid header.
    Reject(String),
    /// The peer is registered under this name: hand over to the session.
    Welcome(String),
    /// Close the connection and report this protocol error.
    Abort(HandshakeError),
    /// The handshake is over: there is nothing left to do.
    Stop,
}

/// [`HandshakeAction`] with its bytes and texts as sequences.
pub enum HandshakeActionView {
    ReadGreeting,
    SendRegistration(Seq<u8>),
    ReadFrame,
    Reject(Seq<char>),
    Welcome(Seq<char>),
    Abort(HandshakeError),
    Stop,
}

impl View for HandshakeAction {
    type V = HandshakeActionView;

    open spec fn view(&self) -> HandshakeActionView {
        match self {
            HandshakeAction::ReadGreeting => HandshakeActionView::ReadGreeting,
            HandshakeAction::SendRegistration(bytes) => HandshakeActionView::SendRegistration(
                bytes@,
            ),
            HandshakeAction::ReadFrame => HandshakeActionView::ReadFrame,
            HandshakeAction::Reject(text) => HandshakeActionView::Reject(text@),
            HandshakeAction::Welcome(name) => HandshakeActionView::Welcome(name@),
            HandshakeAction::Abort(error) => HandshakeActionView::Abort(*error),
            HandshakeAction::Stop => HandshakeActionView::Stop,
        }
    }
}

/// A handshake as plain mathematical values.
pub struct HandshakeView {
    pub state: HandshakeState,
    /// The constraints that the server announces.
    pub constraints: ConnectionConstraints,
    /// The registration frame that announces them.
    pub registration: Seq<u8>,
    /// Received bytes of an acknowledgment that is not complete yet.
    pub pending: Seq<u8>,
}

impl HandshakeView {
    /// A handshake before anything was received.
    pub open spec fn initial(constraints: ConnectionConstraints, registration: Seq<u8>) -> Self {
        HandshakeView {
            state: HandshakeState::AwaitingHeader,
            constraints,
            registration,
            pending: Seq::empty(),
        }
    }

    /// The handshake moved to `state`, with nothing pending.
    pub open spec fn moved_to(self, state: HandshakeState) -> Self {
        HandshakeView { state, pending: Seq::empty(), ..self }
    }

    /// What the machine is waiting for the owner to do.
    pub open spec fn awaited(self) -> HandshakeActionView {
        match self.state {
            HandshakeState::AwaitingHeader => HandshakeActionView::ReadGreeting,
            HandshakeState::Registering => HandshakeActionView::SendRegistration(
                self.registration,
            ),
            HandshakeState::AwaitingRegistrationAck => HandshakeActionView::ReadFrame,
            HandshakeState::Established => HandshakeActionView::Stop,
            HandshakeState::Rejected => HandshakeActionView::Stop,
        }
    }

    /// The greeting decides: the expected five bytes open the registration;
    /// anything else is answered with the expected greeting and rejected.
    pub open spec fn greeted(self, bytes: Seq<u8>) -> (Self, HandshakeActionView) {
        if bytes == header_bytes() {
            (
                self.moved_to(HandshakeState::Registering),
                HandshakeActionView::SendRegistration(self.registration),
            )
        } else {
            (self.moved_to(HandshakeState::Rejected), HandshakeActionView::Reject(header_text()))
        }
    }

    /// The payload of an acknowledgment decides: a name within the
    /// constraints, and nothing after it, registers the peer; a payload that
    /// stops short keeps `buffer` for the bytes to come; anything else ends
    /// the handshake.
    pub open spec fn acknowledged(self, buffer: Seq<u8>, payload: Seq<u8>) -> (
        Self,
        HandshakeActionView,
    ) {
        match parsed_registration_ok(payload) {
            Ok((rest, registration_ok)) => if rest.len() > 0 {
                (
                    self.moved_to(HandshakeState::Rejected),
                    HandshakeActionView::Abort(HandshakeError::MalformedRegistration),
                )
            } else if registration_ok.size > self.constraints.max_name_size {
                (
                    self.moved_to(HandshakeState::Rejected),
                    HandshakeActionView::Abort(HandshakeError::NameTooLong),
                )
            } else {
                (
                    self.moved_to(HandshakeState::Established),
                    HandshakeActionView::Welcome(registration_ok.user_name),
                )
            },
            Err(ParseError::NeedMoreBytes) => (
                HandshakeView { pending: buffer, ..self },
                HandshakeActionView::ReadFrame,
            ),
            Err(ParseError::Malformed) => (
                self.moved_to(HandshakeState::Rejected),
                HandshakeActionView::Abort(HandshakeError::MalformedRegistration),
            ),
        }
    }

    /// Received bytes decide, together with what is pending: bytes that are
    /// no frame end the handshake, an acknowledgment is judged by its
    /// payload, and every other frame is dropped and the next one awaited.
    pub open spec fn framed(self, bytes: Seq<u8>) -> (Self, HandshakeActionView) {
        match decode_frame(self.pending + bytes) {
            Some(frame) => if class_of(frame.class) == Class::Connection && method_of(
                frame.method,
            ) == Method::RegistrationOk {
                self.acknowledged(self.pending + bytes, frame.payload)
            } else {
                (
                    self.moved_to(HandshakeState::AwaitingRegistrationAck),
                    HandshakeActionView::ReadFrame,
                )
            },
            None => (
                self.moved_to(HandshakeState::Rejected),
                HandshakeActionView::Abort(HandshakeError::MalformedFrame),
            ),
        }
    }

    /// The machine: the state after `event` and what to do next. An event
    /// that the state does not wait for changes nothing and is answered with
    /// what the machine is waiting for.
    pub open spec fn step(self, event: HandshakeEventView) -> (Self, HandshakeActionView) {
        match (self.state, event) {
            (HandshakeState::AwaitingHeader, HandshakeEventView::Greeting(bytes)) => self.greeted(
                bytes,
            ),
            (HandshakeState::Registering, HandshakeEventView::RegistrationSent) => (
                self.moved_to(HandshakeState::AwaitingRegistrationAck),
                HandshakeActionView::ReadFrame,
            ),
            (HandshakeState::AwaitingRegistrationAck, HandshakeEventView::Frame(bytes)) => {
                self.framed(bytes)
            },
            _ => (self, self.awaited()),
        }
    }
}

/// The handshake of one connection.
pub struct Handshake {
    state: HandshakeState,
    constraints: ConnectionConstraints,
    registration: Vec<u8>,
    pending: Vec<u8>,
}

impl View for Handshake {
    type V = HandshakeView;

    closed spec fn view(&self) -> HandshakeView {
        HandshakeView {
            state: self.state,
            constraints: self.constraints,
            registration: self.registration@,
            pending: self.pending@,
        }
    }
}

impl Handshake {
    /// A handshake that will announce `constraints`; `None` where no
    /// registration frame can be made of them.
    pub fn new(constraints: ConnectionConstraints) -> (handshake: Option<Handshake>)
        ensures
            match handshake {
                Some(handshake) => registration_of(
                    json_member_text(max_name_size_key(), constraints.max_name_size as u64),
                ) == Some(handshake@.registration) && handshake@ == HandshakeView::initial(
                    constraints,
                    handshake@.registration,
                ),
                None => registration_of(
                    json_member_text(max_name_size_key(), constraints.max_name_size as u64),
                ) is None,
            },
    {
        match registration_frame(&constraints) {
            Some(registration) => Some(
                Handshake {
                    state: HandshakeState::AwaitingHeader,
                    constraints,
                    registration,
                    pending: Vec::new(),
                },
            ),
            None => None,
        }
    }

    /// Where the handshake stands.
    pub fn state(&self) -> (state: HandshakeState)
        ensures
            state == self@.state,
    {
        self.state
    }

    /// The constraints that the handshake announces.
    pub fn constraints(&self) -> (constraints: ConnectionConstraints)
        ensures
            constraints == self@.constraints,
    {
        self.constraints
    }

    /// What the machine is waiting for the owner to do.
    pub fn awaited(&self) -> (action: HandshakeAction)
        ensures
            action@ == self@.awaited(),
    {
        match self.state {
            HandshakeState::AwaitingHeader => HandshakeAction::ReadGreeting,
            HandshakeState::Registering => HandshakeAction::SendRegistration(
                self.registration.clone(),
            ),
            HandshakeState::AwaitingRegistrationAck => HandshakeAction::ReadFrame,
            HandshakeState::Established => HandshakeAction::Stop,
            HandshakeState::Rejected => HandshakeAction::Stop,
        }
    }

    /// Moves to `state` and drops what is pending.
    fn move_to(&mut self, state: HandshakeState)
        ensures
            final(self)@ == old(self)@.moved_to(state),
    {
        self.state = state;
        self.pending = Vec::new();
    }

    /// Decides on the greeting.
    fn greet(&mut self, bytes: Vec<u8>) -> (action: HandshakeAction)
        ensures
            (final(self)@, action@) == old(self)@.greeted(bytes@),
    {
        match ProtocolHeader::try_from(bytes) {
            Ok(_) => {
                self.move_to(HandshakeState::Registering);
                HandshakeAction::SendRegistration(self.registration.clone())
            },
            Err(protocol_header) => {
                self.move_to(HandshakeState::Rejected);
                HandshakeAction::Reject(protocol_header)
            },
        }
    }

    /// Decides on bytes received while the acknowledgment is awaited.
    fn frame(&mut self, bytes: Vec<u8>) -> (action: HandshakeAction)
        ensures
            (final(self)@, action@) == old(self)@.framed(bytes@),
    {
        let mut bytes = bytes;
        let mut buffer = Vec::new();
        core::mem::swap(&mut buffer, &mut self.pending);
        buffer.append(&mut bytes);
        let ghost received = buffer@;
        let frame = match Frame::try_from(buffer) {
            Ok(frame) => frame,
            Err(_) => {
                self.move_to(HandshakeState::Rejected);
                return HandshakeAction::Abort(HandshakeError::MalformedFrame);
            },
        };
        if Class::from_tag(frame.class) != Class::Connection || Method::from_tag(frame.method)
            != Method::RegistrationOk {
            self.move_to(HandshakeState::AwaitingRegistrationAck);
            return HandshakeAction::ReadFrame;
        }
        match parse_registration_ok_method(frame.payload.as_slice()) {
            Ok((rest, registration_ok)) => {
                if rest.len() > 0 {
                    self.move_to(HandshakeState::Rejected);
                    HandshakeAction::Abort(HandshakeError::MalformedRegistration)
                } else if registration_ok.size > self.constraints.max_name_size {
                    self.move_to(HandshakeState::Rejected);
                    HandshakeAction::Abort(HandshakeError::NameTooLong)
                } else {
                    self.move_to(HandshakeState::Established);
                    HandshakeAction::Welcome(registration_ok.user_name)
                }
            },
            Err(ParseError::NeedMoreBytes) => {
                proof {
                    law_decoded_frame_encodes_back(received);
                }
                self.pending = Vec::<u8>::from(frame);
                HandshakeAction::ReadFrame
            },
            Err(ParseError::Malformed) => {
                self.move_to(HandshakeState::Rejected);
                HandshakeAction::Abort(HandshakeError::MalformedRegistration)
            },
        }
    }

    /// Takes the machine one step: decides on `event` and says what to do
    /// next.
    pub fn step(&mut self, event: HandshakeEvent) -> (action: HandshakeAction)
        ensures
            (final(self)@, action@) == old(self)@.step(event@),
    {
        match event {
            HandshakeEvent::Greeting(bytes) => {
                if self.state == HandshakeState::AwaitingHeader {
                    self.greet(bytes)
                } else {
                    self.awaited()
                }
            },
            HandshakeEvent::RegistrationSent => {
                if self.state == HandshakeState::Registering {
                    self.move_to(HandshakeState::AwaitingRegistrationAck);
                    HandshakeAction::ReadFrame
                } else {
                    self.awaited()
                }
            },
            HandshakeEvent::Frame(bytes) => {
                if self.state == HandshakeState::AwaitingRegistrationAck {
                    self.frame(bytes)
                } else {
                    self.awaited()
                }
            },
        }
    }
}

/// The acknowledgment frame on the wire for the name `user_name`: the two
/// tags, the length of the encoded name in one byte, the encoded name, and
/// the frame end.
pub open spec fn acknowledgment_wire(user_name: Seq<char>) -> Seq<u8>
    recommends
        encode_utf8(user_name).len() <= 255,
{
    encode_frame(
        FrameView {
            class: CONNECTION_TAG,
            method: REGISTRATION_OK_TAG,
            payload: seq![encode_utf8(user_name).len() as u8] + encode_utf8(user_name),
        },
    )
}

/// The greeting alone decides the first step: the five bytes `GG010` are
/// answered with the registration frame, and every other input is rejected
/// with a reply that is, text and bytes, the expected greeting.
pub proof fn law_greeting_decides(handshake: HandshakeView, bytes: Seq<u8>)
    requires
        handshake.state == HandshakeState::AwaitingHeader,
    ensures
        bytes == header_bytes() ==> handshake.step(HandshakeEventView::Greeting(bytes)) == (
            handshake.moved_to(HandshakeState::Registering),
            HandshakeActionView::SendRegistration(handshake.registration),
        ),
        bytes != header_bytes() ==> handshake.step(HandshakeEventView::Greeting(bytes)) == (
            handshake.moved_to(HandshakeState::Rejected),
            HandshakeActionView::Reject(header_text()),
        ),
        encode_utf8(header_text()) == header_bytes(),
{
    law_header_bytes_encode_header_text();
}

/// Once the peer is registered or the connection is given up, no event
/// changes anything any more.
pub proof fn law_terminal_states_absorb(handshake: HandshakeView, event: HandshakeEventView)
    requires
        handshake.state == HandshakeState::Established || handshake.state
            == HandshakeState::Rejected,
    ensures
        handshake.step(event) == (handshake, HandshakeActionView::Stop),
{
}

/// A handshake only moves forward, and it never changes what it announces.
/// It is rejected at the greeting only for a wrong greeting, and later only
/// for a protocol error.
pub proof fn law_handshake_only_advances(handshake: HandshakeView, event: HandshakeEventView)
    ensures
        state_rank(handshake.state) <= state_rank(handshake.step(event).0.state),
        handshake.step(event).0.constraints == handshake.constraints,
        handshake.step(event).0.registration == handshake.registration,
        handshake.step(event).1 is Reject ==> handshake.state == HandshakeState::AwaitingHeader
            && handshake.step(event).0.state == HandshakeState::Rejected,
        handshake.step(event).1 is Abort ==> handshake.state
            == HandshakeState::AwaitingRegistrationAck && handshake.step(event).0.state
            == HandshakeState::Rejected,
        handshake.state != HandshakeState::Rejected && handshake.step(event).0.state
            == HandshakeState::Rejected ==> handshake.step(event).1 is Reject
            || handshake.step(event).1 is Abort,
{
}

/// Nobody is welcomed without having registered: a welcome is only ever the
/// answer to a complete, well-formed acknowledgment frame, whose name is the
/// one welcomed and is no longer than the constraints allow.
pub proof fn law_welcome_means_registered(handshake: HandshakeView, event: HandshakeEventView)
    requires
        handshake.step(event).1 is Welcome,
    ensures
        handshake.state == HandshakeState::AwaitingRegistrationAck,
        handshake.step(event).0 == handshake.moved_to(HandshakeState::Established),
        ({
            let user_name = handshake.step(event).1->Welcome_0;
            &&& encode_utf8(user_name).len() <= handshake.constraints.max_name_size
            &&& event matches HandshakeEventView::Frame(bytes) && handshake.pending + bytes
                == acknowledgment_wire(user_name)
        }),
{
    let bytes = event->Frame_0;
    let received = handshake.pending + bytes;
    let frame = decode_frame(received).unwrap();
    law_decoded_frame_encodes_back(received);
    law_parsed_registration_ok_is_well_formed(frame.payload);
}

/// Every name that the constraints allow registers: its acknowledgment
/// frame, received in one piece, is answered with a welcome under that name.
pub proof fn law_acknowledgment_registers(handshake: HandshakeView, user_name: Seq<char>)
    requires
        handshake.state == HandshakeState::AwaitingRegistrationAck,
        handshake.pending.len() == 0,
        encode_utf8(user_name).len() <= handshake.constraints.max_name_size,
    ensures
        handshake.step(HandshakeEventView::Frame(acknowledgment_wire(user_name))) == (
            handshake.moved_to(HandshakeState::Established),
            HandshakeActionView::Welcome(user_name),
        ),
{
    let payload = seq![encode_utf8(user_name).len() as u8] + encode_utf8(user_name);
    let frame = FrameView {
        class: CONNECTION_TAG,
        method: REGISTRATION_OK_TAG,
        payload,
    };
    law_frame_round_trip(frame);
    law_registration_ok_round_trip(user_name, Seq::empty());
}

/// A frame end inside the name does no harm. Where the acknowledgment frame
/// arrives in two pieces, the first one ending with a byte that looks like
/// the frame end, the first piece is kept and the second completes the
/// registration.
pub proof fn law_split_acknowledgment_registers(
    handshake: HandshakeView,
    user_name: Seq<char>,
    cut: int,
)
    requires
        handshake.state == HandshakeState::AwaitingRegistrationAck,
        handshake.pending.len() == 0,
        encode_utf8(user_name).len() <= handshake.constraints.max_name_size,
        0 < cut < acknowledgment_wire(user_name).len(),
        acknowledgment_wire(user_name)[cut - 1] == FRAME_END,
    ensures
        ({
            let wire = acknowledgment_wire(user_name);
            let first = handshake.step(HandshakeEventView::Frame(wire.take(cut)));
            &&& first == (
                HandshakeView { pending: wire.take(cut), ..handshake },
                HandshakeActionView::ReadFrame,
            )
            &&& first.0.step(HandshakeEventView::Frame(wire.skip(cut))) == (
                handshake.moved_to(HandshakeState::Established),
                HandshakeActionView::Welcome(user_name),
            )
        }),
{
    let payload = seq![encode_utf8(user_name).len() as u8] + encode_utf8(user_name);
    let wire = acknowledgment_wire(user_name);
    let head = wire.take(cut);
    law_registration_ok_round_trip(user_name, Seq::empty());
    law_truncated_input_needs_more_bytes(payload, cut - 3);
    let waiting = HandshakeView { pending: head, ..handshake };
    assert(waiting.pending + wire.skip(cut) == wire);
    law_frame_round_trip(
        FrameView { class: CONNECTION_TAG, method: REGISTRATION_OK_TAG, payload },
    );
}

} // verus!
