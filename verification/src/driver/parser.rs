//! The message parsers.
//!
//! Each parser reads one item from the front of its input and hands back what
//! is left together with the item. An input that ends too early is reported
//! as [`ParseError::NeedMoreBytes`]: the same bytes followed by more may
//! parse. An input that is there but wrong is [`ParseError::Malformed`], and
//! no continuation will mend it.

use vstd::prelude::*;
use vstd::string::StringSliceAdditionalSpecFns;
use vstd::utf8::{decode_utf8, encode_utf8, valid_utf8};

use crate::protocol::json::{get_unsigned, json_object_members, read_object, unsigned_member};
use crate::protocol::wire::{be_bytes, be_u32, law_length_prefix_round_trip, read_u32_be};
use crate::protocol::{
    class_of, constraints_of, max_name_size_key, method_of, Class, ConnectionConstraints,
    FrameHeader, Method, Registration, RegistrationOk, RegistrationOkView, User, UserRegistred,
    UserRegistredView,
};

verus! {

/// Why a parser gave up.
#[derive(Debug, Clone, Copy, PartialEq, Eq, Structural)]
pub enum ParseError {
    /// The input ends before the item does.
    NeedMoreBytes,
    /// The bytes of the item are all there and are not what they should be.
    Malformed,
}

/// What a parser returned, with the rest of the input as a sequence.
pub open spec fn outcome<T>(result: Result<(&[u8], T), ParseError>) -> Result<
    (Seq<u8>, T),
    ParseError,
> {
    match result {
        Ok((rest, item)) => Ok((rest@, item)),
        Err(error) => Err(error),
    }
}

/// What a parser returned, with the rest of the input as a sequence and the
/// item by its view.
pub open spec fn outcome_view<T: View>(result: Result<(&[u8], T), ParseError>) -> Result<
    (Seq<u8>, T::V),
    ParseError,
> {
    match result {
        Ok((rest, item)) => Ok((rest@, item@)),
        Err(error) => Err(error),
    }
}

/// The first `count` bytes of `input` and what follows them.
pub open spec fn taken(input: Seq<u8>, count: nat) -> Result<(Seq<u8>, Seq<u8>), ParseError> {
    if count <= input.len() {
        Ok((input.skip(count as int), input.take(count as int)))
    } else {
        Err(ParseError::NeedMoreBytes)
    }
}

/// The class tag at the front of `input`.
pub open spec fn parsed_frame_class(input: Seq<u8>) -> Result<(Seq<u8>, Class), ParseError> {
    if input.len() >= 1 {
        Ok((input.skip(1), class_of(input[0])))
    } else {
        Err(ParseError::NeedMoreBytes)
    }
}

/// The method tag at the front of `input`.
pub open spec fn parsed_frame_method(input: Seq<u8>) -> Result<(Seq<u8>, Method), ParseError> {
    if input.len() >= 1 {
        Ok((input.skip(1), method_of(input[0])))
    } else {
        Err(ParseError::NeedMoreBytes)
    }
}

/// The two tags at the front of `input`: the class, then the method.
pub open spec fn parsed_frame_header(input: Seq<u8>) -> Result<(Seq<u8>, FrameHeader), ParseError> {
    if input.len() >= 2 {
        Ok((input.skip(2), FrameHeader { class: class_of(input[0]), method: method_of(input[1]) }))
    } else {
        Err(ParseError::NeedMoreBytes)
    }
}

/// The constraints that the JSON text `text` announces: the text has to be an
/// object whose member `max_name_size` is an unsigned integer that fits in a
/// byte. Other members are not looked at.
pub open spec fn announced(text: Seq<u8>) -> Option<ConnectionConstraints> {
    match json_object_members(text) {
        Some(members) => constraints_of(unsigned_member(members, max_name_size_key())),
        None => None,
    }
}

/// The constraints that the first `size` bytes of `input` announce as a JSON
/// object.
pub open spec fn parsed_constraints(input: Seq<u8>, size: nat) -> Result<
    (Seq<u8>, ConnectionConstraints),
    ParseError,
> {
    if size <= input.len() {
        match announced(input.take(size as int)) {
            Some(constraints) => Ok((input.skip(size as int), constraints)),
            None => Err(ParseError::Malformed),
        }
    } else {
        Err(ParseError::NeedMoreBytes)
    }
}

/// A registration at the front of `input`: four bytes that give a length in
/// network byte order, then that many bytes of JSON text.
pub open spec fn parsed_registration(input: Seq<u8>) -> Result<
    (Seq<u8>, Registration),
    ParseError,
> {
    if input.len() >= 4 {
        match parsed_constraints(input.skip(4), be_u32(input) as nat) {
            Ok((rest, constraints)) => Ok(
                (rest, Registration { size: be_u32(input) as u32, constraints }),
            ),
            Err(error) => Err(error),
        }
    } else {
        Err(ParseError::NeedMoreBytes)
    }
}

/// The name that the first `size` bytes of `input` spell in UTF-8.
pub open spec fn parsed_user_name(input: Seq<u8>, size: nat) -> Result<
    (Seq<u8>, Seq<char>),
    ParseError,
> {
    if size <= input.len() {
        if valid_utf8(input.take(size as int)) {
            Ok((input.skip(size as int), decode_utf8(input.take(size as int))))
        } else {
            Err(ParseError::Malformed)
        }
    } else {
        Err(ParseError::NeedMoreBytes)
    }
}

/// A registration acknowledgment at the front of `input`: one byte that
/// gives a length, then that many bytes of UTF-8 text.
pub open spec fn parsed_registration_ok(input: Seq<u8>) -> Result<
    (Seq<u8>, RegistrationOkView),
    ParseError,
> {
    if input.len() >= 1 {
        match parsed_user_name(input.skip(1), input[0] as nat) {
            Ok((rest, user_name)) => Ok((rest, RegistrationOkView { size: input[0], user_name })),
            Err(error) => Err(error),
        }
    } else {
        Err(ParseError::NeedMoreBytes)
    }
}

/// The user object that the first `size` bytes of `input` hold as JSON text.
pub open spec fn parsed_user(input: Seq<u8>, size: nat) -> Result<(Seq<u8>, Seq<u8>), ParseError> {
    if size <= input.len() {
        if json_object_members(input.take(size as int)) is Some {
            Ok((input.skip(size as int), input.take(size as int)))
        } else {
            Err(ParseError::Malformed)
        }
    } else {
        Err(ParseError::NeedMoreBytes)
    }
}

/// A user message at the front of `input`: four bytes that give a length in
/// network byte order, then that many bytes of JSON text.
pub open spec fn parsed_user_registred(input: Seq<u8>) -> Result<
    (Seq<u8>, UserRegistredView),
    ParseError,
> {
    if input.len() >= 4 {
        match parsed_user(input.skip(4), be_u32(input) as nat) {
            Ok((rest, document)) => Ok(
                (rest, UserRegistredView { size: be_u32(input) as u32, document }),
            ),
            Err(error) => Err(error),
        }
    } else {
        Err(ParseError::NeedMoreBytes)
    }
}

/// `core::str::from_utf8` of std: the text that `bytes` encode, where they
/// are valid UTF-8.
#[verifier::external_body]
fn utf8_text(bytes: &[u8]) -> (text: Option<&str>)
    ensures
        text is Some <==> valid_utf8(bytes@),
        text matches Some(decoded) ==> decoded.spec_bytes() == bytes@,
{
    match core::str::from_utf8(bytes) {
        Ok(decoded) => Some(decoded),
        Err(_) => None,
    }
}

/// Splits `count` bytes off the front of `input`.
pub fn take(input: &[u8], count: usize) -> (result: Result<(&[u8], &[u8]), ParseError>)
    ensures
        outcome_view(result) == taken(input@, count as nat),
{
    if count <= input.len() {
        let (front, rest) = input.split_at(count);
        Ok((rest, front))
    } else {
        Err(ParseError::NeedMoreBytes)
    }
}

/// Reads the class tag.
fn parse_frame_class(input: &[u8]) -> (result: Result<(&[u8], Class), ParseError>)
    ensures
        outcome(result) == parsed_frame_class(input@),
{
    match take(input, 1) {
        Ok((rest, tag)) => {
            Ok((rest, Class::from_tag(tag[0])))
        },
        Err(error) => Err(error),
    }
}

/// Reads the method tag.
fn parse_frame_method(input: &[u8]) -> (result: Result<(&[u8], Method), ParseError>)
    ensures
        outcome(result) == parsed_frame_method(input@),
{
    match take(input, 1) {
        Ok((rest, tag)) => {
            Ok((rest, Method::from_tag(tag[0])))
        },
        Err(error) => Err(error),
    }
}

/// Reads the two tags of a frame: one byte for the class, one for the
/// method. Every tag value is accepted.
pub fn parse_frame_header(input: &[u8]) -> (result: Result<(&[u8], FrameHeader), ParseError>)
    ensures
        outcome(result) == parsed_frame_header(input@),
{
    let (remain_bytes, class) = match parse_frame_class(input) {
        Ok(parsed) => parsed,
        Err(error) => {
            return Err(error);
        },
    };
    let (remain_bytes, method) = match parse_frame_method(remain_bytes) {
        Ok(parsed) => parsed,
        Err(error) => {
            return Err(error);
        },
    };
    assert(remain_bytes@ =~= input@.skip(2));
    Ok((remain_bytes, FrameHeader::new(class, method)))
}

/// Reads `size` bytes of JSON text as the constraints.
fn parse_registration_constraints(input: &[u8], size: usize) -> (result: Result<
    (&[u8], ConnectionConstraints),
    ParseError,
>)
    ensures
        outcome(result) == parsed_constraints(input@, size as nat),
{
    match take(input, size) {
        Ok((rest, text)) => {
            let member = match read_object(text) {
                Some(object) => get_unsigned(&object, "max_name_size"),
                None => None,
            };
            match ConnectionConstraints::from_member(member) {
                Some(constraints) => Ok((rest, constraints)),
                None => Err(ParseError::Malformed),
            }
        },
        Err(error) => Err(error),
    }
}

/// Reads a registration: a four-byte length in network byte order and that
/// many bytes of JSON text, which must be an object whose member
/// `max_name_size` fits in a byte.
pub fn parse_registration_method(input: &[u8]) -> (result: Result<
    (&[u8], Registration),
    ParseError,
>)
    ensures
        outcome(result) == parsed_registration(input@),
{
    let (remain_bytes, size_bytes) = match take(input, 4) {
        Ok(parsed) => parsed,
        Err(error) => {
            return Err(error);
        },
    };
    let constraint_size = read_u32_be(size_bytes);
    match parse_registration_constraints(remain_bytes, constraint_size as usize) {
        Ok((remain_bytes, connection_constraints)) => Ok(
            (remain_bytes, Registration::new(constraint_size, connection_constraints)),
        ),
        Err(error) => Err(error),
    }
}

/// Reads `size` bytes of UTF-8 text as the user's name.
fn parse_user_name(input: &[u8], size: usize) -> (result: Result<(&[u8], String), ParseError>)
    ensures
        outcome_view(result) == parsed_user_name(input@, size as nat),
{
    match take(input, size) {
        Ok((rest, name_bytes)) => {
            match utf8_text(name_bytes) {
                Some(text) => {
                    proof {
                        vstd::utf8::encode_utf8_decode_utf8(text@);
                    }
                    Ok((rest, text.to_owned()))
                },
                None => Err(ParseError::Malformed),
            }
        },
        Err(error) => Err(error),
    }
}

/// Reads a registration acknowledgment: a one-byte length and that many
/// bytes, which must be the UTF-8 encoding of the user's name.
pub fn parse_registration_ok_method(input: &[u8]) -> (result: Result<
    (&[u8], RegistrationOk),
    ParseError,
>)
    ensures
        outcome_view(result) == parsed_registration_ok(input@),
{
    let (remain_bytes, size_byte) = match take(input, 1) {
        Ok(parsed) => parsed,
        Err(error) => {
            return Err(error);
        },
    };
    let user_name_size = size_byte[0];
    match parse_user_name(remain_bytes, user_name_size as usize) {
        Ok((remain_bytes, user_name)) => Ok(
            (remain_bytes, RegistrationOk::new(user_name_size, user_name)),
        ),
        Err(error) => Err(error),
    }
}

/// Reads `size` bytes of JSON text as the user object.
fn parse_user(input: &[u8], size: usize) -> (result: Result<(&[u8], User), ParseError>)
    ensures
        outcome_view(result) == parsed_user(input@, size as nat),
{
    match take(input, size) {
        Ok((rest, text)) => {
            if read_object(text).is_some() {
                Ok((rest, User { document: vstd::slice::slice_to_vec(text) }))
            } else {
                Err(ParseError::Malformed)
            }
        },
        Err(error) => Err(error),
    }
}

/// Reads a user message: a four-byte length in network byte order and that
/// many bytes of JSON text, which must be an object.
pub fn parse_user_registred_method(input: &[u8]) -> (result: Result<
    (&[u8], UserRegistred),
    ParseError,
>)
    ensures
        outcome_view(result) == parsed_user_registred(input@),
{
    let (remain_bytes, size_bytes) = match take(input, 4) {
        Ok(parsed) => parsed,
        Err(error) => {
            return Err(error);
        },
    };
    let user_size = read_u32_be(size_bytes);
    match parse_user(remain_bytes, user_size as usize) {
        Ok((remain_bytes, user)) => Ok((remain_bytes, UserRegistred::new(user_size, user))),
        Err(error) => Err(error),
    }
}

/// A registration acknowledgment that parses is well formed: the declared
/// size is the length of the name's UTF-8 encoding, and the input is the
/// size byte, the encoded name and the rest.
pub proof fn law_parsed_registration_ok_is_well_formed(input: Seq<u8>)
    requires
        parsed_registration_ok(input) is Ok,
    ensures
        ({
            let (rest, registration_ok) = parsed_registration_ok(input).unwrap();
            &&& registration_ok.wf()
            &&& input == seq![registration_ok.size] + encode_utf8(registration_ok.user_name) + rest
        }),
{
    vstd::utf8::decode_utf8_encode_utf8(input.skip(1).take(input[0] as int));
}

/// Every name of at most 255 bytes comes back from its wire form, with the
/// bytes that followed it left over.
pub proof fn law_registration_ok_round_trip(user_name: Seq<char>, rest: Seq<u8>)
    requires
        encode_utf8(user_name).len() <= 255,
    ensures
        parsed_registration_ok(
            seq![encode_utf8(user_name).len() as u8] + encode_utf8(user_name) + rest,
        ) == Ok::<(Seq<u8>, RegistrationOkView), ParseError>(
            (rest, RegistrationOkView { size: encode_utf8(user_name).len() as u8, user_name }),
        ),
{
    let name_bytes = encode_utf8(user_name);
    let input = seq![name_bytes.len() as u8] + name_bytes + rest;
    vstd::utf8::encode_utf8_valid_utf8(user_name);
    vstd::utf8::encode_utf8_decode_utf8(user_name);
    assert(input.skip(1).take(input[0] as int) =~= name_bytes);
    assert(input.skip(1).skip(input[0] as int) =~= rest);
}

/// A JSON text that announces constraints comes back from its wire form as
/// those constraints, with the bytes that followed it left over.
pub proof fn law_registration_round_trip(
    text: Seq<u8>,
    constraints: ConnectionConstraints,
    rest: Seq<u8>,
)
    requires
        text.len() <= u32::MAX,
        announced(text) == Some(constraints),
    ensures
        parsed_registration(be_bytes(text.len() as u32) + text + rest) == Ok::<
            (Seq<u8>, Registration),
            ParseError,
        >((rest, Registration { size: text.len() as u32, constraints })),
{
    let input = be_bytes(text.len() as u32) + text + rest;
    law_length_prefix_round_trip(text.len() as u32, text + rest);
    assert(input.skip(4).take(text.len() as int) =~= text);
    assert(input.skip(4).skip(text.len() as int) =~= rest);
}

/// A JSON object comes back from its wire form as a user message, with the
/// bytes that followed it left over.
pub proof fn law_user_registred_round_trip(document: Seq<u8>, rest: Seq<u8>)
    requires
        document.len() <= u32::MAX,
        json_object_members(document) is Some,
    ensures
        parsed_user_registred(be_bytes(document.len() as u32) + document + rest) == Ok::<
            (Seq<u8>, UserRegistredView),
            ParseError,
        >((rest, UserRegistredView { size: document.len() as u32, document })),
        (UserRegistredView { size: document.len() as u32, document }).wf(),
{
    let input = be_bytes(document.len() as u32) + document + rest;
    law_length_prefix_round_trip(document.len() as u32, document + rest);
    assert(input.skip(4).take(document.len() as int) =~= document);
    assert(input.skip(4).skip(document.len() as int) =~= rest);
}

/// Cutting a message short is never mistaken for a wrong message: where an
/// input parses, every input that stops before the end of the item asks for
/// more bytes.
pub proof fn law_truncated_input_needs_more_bytes(input: Seq<u8>, cut: int)
    requires
        0 <= cut <= input.len(),
    ensures
        parsed_frame_header(input) matches Ok((rest, _)) && cut < input.len() - rest.len()
            ==> parsed_frame_header(input.take(cut)) == Err::<(Seq<u8>, FrameHeader), ParseError>(
            ParseError::NeedMoreBytes,
        ),
        parsed_registration(input) matches Ok((rest, _)) && cut < input.len() - rest.len()
            ==> parsed_registration(input.take(cut)) == Err::<(Seq<u8>, Registration), ParseError>(
            ParseError::NeedMoreBytes,
        ),
        parsed_registration_ok(input) matches Ok((rest, _)) && cut < input.len() - rest.len()
            ==> parsed_registration_ok(input.take(cut)) == Err::<
            (Seq<u8>, RegistrationOkView),
            ParseError,
        >(ParseError::NeedMoreBytes),
        parsed_user_registred(input) matches Ok((rest, _)) && cut < input.len() - rest.len()
            ==> parsed_user_registred(input.take(cut)) == Err::<
            (Seq<u8>, UserRegistredView),
            ParseError,
        >(ParseError::NeedMoreBytes),
{
}

/// More bytes never change what was already decided: an item that parses
/// still parses, to the same value, when bytes are appended, and a malformed
/// item stays malformed.
pub proof fn law_appended_bytes_change_no_verdict(input: Seq<u8>, more: Seq<u8>)
    ensures
        parsed_frame_header(input) matches Ok((rest, header)) ==> parsed_frame_header(input + more)
            == Ok::<(Seq<u8>, FrameHeader), ParseError>((rest + more, header)),
        parsed_registration(input) matches Ok((rest, registration)) ==> parsed_registration(
            input + more,
        ) == Ok::<(Seq<u8>, Registration), ParseError>((rest + more, registration)),
        parsed_registration_ok(input) matches Ok((rest, registration_ok))
            ==> parsed_registration_ok(input + more) == Ok::<
            (Seq<u8>, RegistrationOkView),
            ParseError,
        >((rest + more, registration_ok)),
        parsed_user_registred(input) matches Ok((rest, registred)) ==> parsed_user_registred(
            input + more,
        ) == Ok::<(Seq<u8>, UserRegistredView), ParseError>((rest + more, registred)),
        parsed_registration(input) == Err::<(Seq<u8>, Registration), ParseError>(
            ParseError::Malformed,
        ) ==> parsed_registration(input + more) == Err::<(Seq<u8>, Registration), ParseError>(
            ParseError::Malformed,
        ),
        parsed_registration_ok(input) == Err::<(Seq<u8>, RegistrationOkView), ParseError>(
            ParseError::Malformed,
        ) ==> parsed_registration_ok(input + more) == Err::<
            (Seq<u8>, RegistrationOkView),
            ParseError,
        >(ParseError::Malformed),
        parsed_user_registred(input) == Err::<(Seq<u8>, UserRegistredView), ParseError>(
            ParseError::Malformed,
        ) ==> parsed_user_registred(input + more) == Err::<
            (Seq<u8>, UserRegistredView),
            ParseError,
        >(ParseError::Malformed),
{
    let long = input + more;
    if input.len() >= 2 {
        assert(long.skip(2) =~= input.skip(2) + more);
    }
    if input.len() >= 4 {
        let size = be_u32(input);
        if size <= input.len() - 4 {
            assert(long.skip(4).take(size) =~= input.skip(4).take(size));
            assert(long.skip(4).skip(size) =~= input.skip(4).skip(size) + more);
        }
    }
    if input.len() >= 1 {
        let size = input[0] as int;
        if size <= input.len() - 1 {
            assert(long.skip(1).take(size) =~= input.skip(1).take(size));
            assert(long.skip(1).skip(size) =~= input.skip(1).skip(size) + more);
        }
    }
}

} // verus!
