//! The wire protocol: greeting, frames and the messages they carry.

pub mod json;
pub mod wire;

use vstd::prelude::*;
use vstd::std_specs::convert::{FromSpecImpl, TryFromSpecImpl};
use vstd::utf8::{encode_utf8, is_ascii_chars_encode_utf8};

verus! {

/// The byte that ends every frame.
pub const FRAME_END: u8 = 0x4;

/// The greeting as text.
pub open spec fn header_text() -> Seq<char> {
    "GG010"@
}

/// The greeting as the five bytes that go over the wire.
pub open spec fn header_bytes() -> Seq<u8> {
    seq![0x47u8, 0x47u8, 0x30u8, 0x31u8, 0x30u8]
}

/// The greeting's bytes are the UTF-8 encoding of its text.
pub proof fn law_header_bytes_encode_header_text()
    ensures
        header_text() == seq!['G', 'G', '0', '1', '0'],
        encode_utf8(header_text()) == header_bytes(),
{
    reveal_strlit("GG010");
    is_ascii_chars_encode_utf8(header_text());
}

/// The fixed greeting that opens every connection. There is one value of
/// this type: the header `GG010`.
#[derive(Debug, PartialEq)]
pub struct ProtocolHeader {
    header: String,
}

impl View for ProtocolHeader {
    type V = Seq<char>;

    closed spec fn view(&self) -> Seq<char> {
        self.header@
    }
}

impl Default for ProtocolHeader {
    fn default() -> (header: ProtocolHeader)
        ensures
            header@ == header_text(),
    {
        ProtocolHeader { header: "GG010".to_owned() }
    }
}

impl ProtocolHeader {
    /// The header's text.
    pub fn header(&self) -> (text: &String)
        ensures
            text@ == self@,
    {
        &self.header
    }
}

impl TryFrom<Vec<u8>> for ProtocolHeader {
    type Error = String;

    /// Accepts the five bytes of the greeting and nothing else. Whatever is
    /// wrong with `value`, the error is the text of the expected greeting.
    fn try_from(value: Vec<u8>) -> (result: Result<ProtocolHeader, String>)
        ensures
            result is Ok <==> value@ == header_bytes(),
            result matches Ok(header) ==> header@ == header_text(),
            result matches Err(expected) ==> expected@ == header_text(),
    {
        let expected = "GG010".as_bytes();
        proof {
            law_header_bytes_encode_header_text();
        }
        if value.len() != 5 {
            return Err(ProtocolHeader::default().header);
        }
        let mut i: usize = 0;
        while i < 5
            invariant
                i <= 5,
                value@.len() == 5,
                expected@ == header_bytes(),
                forall|k: int| 0 <= k < i ==> value@[k] == expected@[k],
            decreases 5 - i,
        {
            if value[i] != expected[i] {
                return Err(ProtocolHeader::default().header);
            }
            i += 1;
        }
        assert(value@ =~= header_bytes());
        Ok(ProtocolHeader::default())
    }
}

/// The outcome holds strings, which specifications can only speak of through
/// their views: the contract stands on `try_from` itself.
impl TryFromSpecImpl<Vec<u8>> for ProtocolHeader {
    open spec fn obeys_try_from_spec() -> bool {
        false
    }

    open spec fn try_from_spec(value: Vec<u8>) -> Result<ProtocolHeader, String> {
        arbitrary()
    }
}

/// A frame as plain mathematical values.
pub struct FrameView {
    pub class: u8,
    pub method: u8,
    pub payload: Seq<u8>,
}

/// The unit of the wire: two tag bytes and a payload. On the wire the frame
/// is followed by [`FRAME_END`].
#[derive(Debug, PartialEq)]
pub struct Frame {
    pub class: u8,
    pub method: u8,
    pub payload: Vec<u8>,
}

impl View for Frame {
    type V = FrameView;

    open spec fn view(&self) -> FrameView {
        FrameView { class: self.class, method: self.method, payload: self.payload@ }
    }
}

/// The bytes of a frame on the wire: class, method, the payload as it is,
/// and the frame end.
pub open spec fn encode_frame(frame: FrameView) -> Seq<u8> {
    seq![frame.class, frame.method] + frame.payload + seq![FRAME_END]
}

/// The frame that `bytes` hold: they must end with the frame end and have
/// room for the two tags before it. Everything between the tags and the
/// frame end is payload.
pub open spec fn decode_frame(bytes: Seq<u8>) -> Option<FrameView> {
    if bytes.len() >= 3 && bytes.last() == FRAME_END {
        Some(
            FrameView {
                class: bytes[0],
                method: bytes[1],
                payload: bytes.subrange(2, bytes.len() - 1),
            },
        )
    } else {
        None
    }
}

/// The frame end occurs nowhere inside the frame: neither as a tag nor in the
/// payload.
pub open spec fn is_clean(frame: FrameView) -> bool {
    &&& frame.class != FRAME_END
    &&& frame.method != FRAME_END
    &&& forall|i: int| 0 <= i < frame.payload.len() ==> frame.payload[i] != FRAME_END
}

impl Frame {
    /// A frame of the given tags and payload.
    pub fn new(class: u8, method: u8, payload: Vec<u8>) -> (frame: Frame)
        ensures
            frame@ == (FrameView { class, method, payload: payload@ }),
    {
        Frame { class, method, payload }
    }
}

impl From<Frame> for Vec<u8> {
    /// Encodes `frame` for the wire. This never fails and looks at no tag.
    fn from(frame: Frame) -> (bytes: Vec<u8>)
        ensures
            bytes@ == encode_frame(frame@),
    {
        let mut frame_bytes = Vec::new();
        wire::write_u8(&mut frame_bytes, frame.class);
        wire::write_u8(&mut frame_bytes, frame.method);
        frame_bytes.extend_from_slice(frame.payload.as_slice());
        wire::write_u8(&mut frame_bytes, FRAME_END);
        frame_bytes
    }
}

/// The outcome is a vector, which specifications can only speak of through
/// its view: the contract stands on `from` itself.
impl FromSpecImpl<Frame> for Vec<u8> {
    open spec fn obeys_from_spec() -> bool {
        false
    }

    open spec fn from_spec(frame: Frame) -> Vec<u8> {
        arbitrary()
    }
}

impl TryFrom<Vec<u8>> for Frame {
    type Error = String;

    /// Decodes the bytes of one frame. Bytes that do not end with the frame
    /// end, or that have no room for the two tags, are a malformed frame.
    fn try_from(payload: Vec<u8>) -> (result: Result<Frame, String>)
        ensures
            match result {
                Ok(frame) => decode_frame(payload@) == Some(frame@),
                Err(message) => decode_frame(payload@) is None && message@ == "Malformed frame"@,
            },
    {
        let mut payload = payload;
        let ghost bytes = payload@;
        let frame_end = payload.pop();
        if frame_end.is_none() || frame_end.unwrap() != FRAME_END || payload.len() < 2 {
            return Err("Malformed frame".to_owned());
        }
        let class = payload[0];
        let method = payload[1];
        let body = payload.split_off(2);
        assert(body@ =~= bytes.subrange(2, bytes.len() - 1));
        Ok(Frame { class, method, payload: body })
    }
}

/// The outcome holds a string and a vector, which specifications can only
/// speak of through their views: the contract stands on `try_from` itself.
impl TryFromSpecImpl<Vec<u8>> for Frame {
    open spec fn obeys_try_from_spec() -> bool {
        false
    }

    open spec fn try_from_spec(payload: Vec<u8>) -> Result<Frame, String> {
        arbitrary()
    }
}

/// Decoding what was encoded gives the frame back, whatever its tags and its
/// payload are.
pub proof fn law_frame_round_trip(frame: FrameView)
    ensures
        decode_frame(encode_frame(frame)) == Some(frame),
{
    let bytes = encode_frame(frame);
    assert(bytes.subrange(2, bytes.len() - 1) =~= frame.payload);
}

/// Bytes that decode are the encoding of the frame they decode to.
pub proof fn law_decoded_frame_encodes_back(bytes: Seq<u8>)
    requires
        decode_frame(bytes) is Some,
    ensures
        encode_frame(decode_frame(bytes).unwrap()) == bytes,
{
}

/// On the wire a clean frame ends at the first frame end: a reader that
/// stops there has read exactly the frame.
pub proof fn law_clean_frame_ends_at_first_frame_end(frame: FrameView)
    requires
        is_clean(frame),
    ensures
        encode_frame(frame).last() == FRAME_END,
        forall|i: int|
            0 <= i < encode_frame(frame).len() - 1 ==> encode_frame(frame)[i] != FRAME_END,
{
}

/// The first tag of a frame: what the message is about.
#[derive(Debug, Clone, Copy, PartialEq, Eq, Structural)]
pub enum Class {
    /// Setting up the connection.
    Connection,
    /// Any tag that names no class.
    Unknown,
}

/// The second tag of a frame: which message it is.
#[derive(Debug, Clone, Copy, PartialEq, Eq, Structural)]
pub enum Method {
    /// The server announces its constraints.
    Registration,
    /// The client registers under a name.
    RegistrationOk,
    /// The server describes the registered user.
    User,
    /// Any tag that names no method.
    Unknown,
}

/// The tag of the class `Connection`.
pub const CONNECTION_TAG: u8 = 1;

/// The tag of the method `Registration`.
pub const REGISTRATION_TAG: u8 = 1;

/// The tag of the method `RegistrationOk`.
pub const REGISTRATION_OK_TAG: u8 = 2;

/// The tag of the method `User`.
pub const USER_TAG: u8 = 3;

/// The class that a tag byte stands for. No tag is refused: what is not
/// known is surfaced as `Unknown`.
pub open spec fn class_of(tag: u8) -> Class {
    if tag == CONNECTION_TAG {
        Class::Connection
    } else {
        Class::Unknown
    }
}

/// The method that a tag byte stands for. No tag is refused: what is not
/// known is surfaced as `Unknown`.
pub open spec fn method_of(tag: u8) -> Method {
    if tag == REGISTRATION_TAG {
        Method::Registration
    } else if tag == REGISTRATION_OK_TAG {
        Method::RegistrationOk
    } else if tag == USER_TAG {
        Method::User
    } else {
        Method::Unknown
    }
}

impl Class {
    /// The class that `tag` stands for.
    pub fn from_tag(tag: u8) -> (class: Class)
        ensures
            class == class_of(tag),
    {
        if tag == CONNECTION_TAG {
            Class::Connection
        } else {
            Class::Unknown
        }
    }
}

impl Method {
    /// The method that `tag` stands for.
    pub fn from_tag(tag: u8) -> (method: Method)
        ensures
            method == method_of(tag),
    {
        if tag == REGISTRATION_TAG {
            Method::Registration
        } else if tag == REGISTRATION_OK_TAG {
            Method::RegistrationOk
        } else if tag == USER_TAG {
            Method::User
        } else {
            Method::Unknown
        }
    }
}

/// The two tags of a frame, decoded.
#[derive(Debug, Clone, Copy, PartialEq, Eq, Structural)]
pub struct FrameHeader {
    pub class: Class,
    pub method: Method,
}

impl FrameHeader {
    /// A header of the given class and method.
    pub fn new(class: Class, method: Method) -> (header: FrameHeader)
        ensures
            header == (FrameHeader { class, method }),
    {
        FrameHeader { class, method }
    }
}

/// A message that a frame can carry.
pub trait FramePayload: Sized {
    type Payload;

    /// The payload that `get` hands out.
    spec fn payload(self) -> Self::Payload;

    /// Hands the payload out.
    fn get(self) -> (payload: Self::Payload)
        ensures
            payload == self.payload(),
    ;
}

/// The name of the one member of the constraints' JSON object.
pub open spec fn max_name_size_key() -> Seq<char> {
    "max_name_size"@
}

/// The limits that the server announces before anybody registers.
#[derive(Debug, Clone, Copy, PartialEq, Eq, Structural)]
pub struct ConnectionConstraints {
    pub max_name_size: u8,
}

impl Default for ConnectionConstraints {
    fn default() -> (constraints: ConnectionConstraints)
        ensures
            constraints.max_name_size == 10,
    {
        ConnectionConstraints { max_name_size: 10u8 }
    }
}

impl ConnectionConstraints {
    /// The constraints as the text of a JSON object with the single member
    /// `max_name_size`, where the JSON writer gives one.
    pub fn to_json(&self) -> (text: Option<Vec<u8>>)
        ensures
            match text {
                Some(bytes) => json::json_member_text(
                    max_name_size_key(),
                    self.max_name_size as u64,
                ) == Some(bytes@),
                None => json::json_member_text(max_name_size_key(), self.max_name_size as u64)
                    is None,
            },
    {
        json::write_member("max_name_size", self.max_name_size as u64)
    }

    /// The constraints that a JSON object announces, given what its member
    /// `max_name_size` holds: the member has to be there and fit in a byte.
    pub fn from_member(member: Option<u64>) -> (constraints: Option<ConnectionConstraints>)
        ensures
            constraints == constraints_of(member),
    {
        match member {
            Some(size) => {
                if size <= 255 {
                    Some(ConnectionConstraints { max_name_size: size as u8 })
                } else {
                    None
                }
            },
            None => None,
        }
    }
}

/// The constraints that a JSON object announces, given what its member
/// `max_name_size` holds.
pub open spec fn constraints_of(member: Option<u64>) -> Option<ConnectionConstraints> {
    match member {
        Some(size) => if size <= 255 {
            Some(ConnectionConstraints { max_name_size: size as u8 })
        } else {
            None
        },
        None => None,
    }
}

/// The server's announcement of its constraints: the length in bytes of the
/// JSON text, and what the text says.
#[derive(Debug, Clone, Copy, PartialEq, Eq, Structural)]
pub struct Registration {
    pub size: u32,
    pub constraints: ConnectionConstraints,
}

impl Registration {
    /// A registration of the given size and constraints.
    pub fn new(size: u32, constraints: ConnectionConstraints) -> (registration: Registration)
        ensures
            registration == (Registration { size, constraints }),
    {
        Registration { size, constraints }
    }
}

impl FramePayload for Registration {
    type Payload = Registration;

    open spec fn payload(self) -> Registration {
        self
    }

    fn get(self) -> (payload: Registration) {
        self
    }
}

/// A registration acknowledgment as plain mathematical values.
pub struct RegistrationOkView {
    pub size: u8,
    pub user_name: Seq<char>,
}

/// The client's answer to the constraints: the name it registers under and
/// the length of that name in bytes.
#[derive(Debug, PartialEq)]
pub struct RegistrationOk {
    pub size: u8,
    pub user_name: String,
}

impl View for RegistrationOk {
    type V = RegistrationOkView;

    open spec fn view(&self) -> RegistrationOkView {
        RegistrationOkView { size: self.size, user_name: self.user_name@ }
    }
}

impl RegistrationOkView {
    /// The declared size is the length of the name's UTF-8 encoding.
    pub open spec fn wf(self) -> bool {
        self.size == encode_utf8(self.user_name).len()
    }
}

impl RegistrationOk {
    /// An acknowledgment of the given size and name.
    pub fn new(size: u8, user_name: String) -> (registration_ok: RegistrationOk)
        ensures
            registration_ok@ == (RegistrationOkView { size, user_name: user_name@ }),
    {
        RegistrationOk { size, user_name }
    }
}

impl FramePayload for RegistrationOk {
    type Payload = RegistrationOk;

    open spec fn payload(self) -> RegistrationOk {
        self
    }

    fn get(self) -> (payload: RegistrationOk) {
        self
    }
}

/// A user as the server describes it: the text of a JSON object.
#[derive(Debug, PartialEq)]
pub struct User {
    pub document: Vec<u8>,
}

impl View for User {
    type V = Seq<u8>;

    open spec fn view(&self) -> Seq<u8> {
        self.document@
    }
}

/// A user message as plain mathematical values.
pub struct UserRegistredView {
    pub size: u32,
    pub document: Seq<u8>,
}

/// The user object that is echoed once registration is complete, with the
/// length of its text in bytes.
#[derive(Debug, PartialEq)]
pub struct UserRegistred {
    pub size: u32,
    pub user: User,
}

impl View for UserRegistred {
    type V = UserRegistredView;

    open spec fn view(&self) -> UserRegistredView {
        UserRegistredView { size: self.size, document: self.user.document@ }
    }
}

impl UserRegistredView {
    /// The declared size is the length of the text, and the text is a JSON
    /// object.
    pub open spec fn wf(self) -> bool {
        self.size == self.document.len() && json::json_object_members(self.document) is Some
    }
}

impl UserRegistred {
    /// A user message of the given size and user.
    pub fn new(size: u32, user: User) -> (registred: UserRegistred)
        ensures
            registred@ == (UserRegistredView { size, document: user.document@ }),
    {
        UserRegistred { size, user }
    }
}

} // verus!
