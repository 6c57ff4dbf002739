//! What a visitor may ask for, and how anything else is answered.

use vstd::prelude::*;
use vstd::utf8::*;

use crate::text::{trim, trimmed};

verus! {

/// The longest message, in bytes, that is accepted. The white space around it does not count.
pub const MAX_MESSAGE_LEN: usize = 400;

/// The status that answers a round that was accepted.
pub const ROUND_ACCEPTED: u16 = 202;

/// The status that answers a heartbeat that was accepted.
pub const HEARTBEAT_ACCEPTED: u16 = 204;

/// Why a request is turned down.
#[derive(Clone, Copy, Debug, PartialEq, Eq, Structural)]
pub enum Refusal {
    EmptyMessage,
    MessageTooLong,
    UnknownScenario,
    /// The scenario exists, but nobody has finished setting it up.
    NotProvisioned,
    /// Another round is in flight.
    Busy,
    UnknownPeer,
    /// The heartbeat does not carry the peer's token.
    Unauthorized,
}

impl Refusal {
    /// The HTTP status of the answer.
    pub open spec fn status_code(self) -> u16 {
        match self {
            Refusal::EmptyMessage => 400,
            Refusal::MessageTooLong => 400,
            Refusal::UnknownScenario => 404,
            Refusal::NotProvisioned => 404,
            Refusal::Busy => 429,
            Refusal::UnknownPeer => 404,
            Refusal::Unauthorized => 401,
        }
    }

    /// The text of the answer, where it has one.
    pub open spec fn body_text(self) -> Option<Seq<char>> {
        match self {
            Refusal::EmptyMessage => Some("message must not be empty"@),
            Refusal::MessageTooLong => Some("message too long"@),
            Refusal::UnknownScenario => Some("unknown scenario"@),
            Refusal::NotProvisioned => Some("scenario not provisioned yet"@),
            Refusal::Busy => Some("a round is already running, wait for round_done"@),
            Refusal::UnknownPeer => Some("unknown peer"@),
            Refusal::Unauthorized => None,
        }
    }

    /// The HTTP status of the answer. A scenario that is not provisioned is absent and not merely
    /// down, so it is not found.
    pub fn status(&self) -> (r: u16)
        ensures
            r == self.status_code(),
    {
        match self {
            Refusal::EmptyMessage => 400,
            Refusal::MessageTooLong => 400,
            Refusal::UnknownScenario => 404,
            Refusal::NotProvisioned => 404,
            Refusal::Busy => 429,
            Refusal::UnknownPeer => 404,
            Refusal::Unauthorized => 401,
        }
    }

    /// The text of the answer, where it has one.
    pub fn body(&self) -> (r: Option<&'static str>)
        ensures
            match r {
                Some(text) => self.body_text() == Some(text@),
                None => self.body_text() is None,
            },
    {
        match self {
            Refusal::EmptyMessage => Some("message must not be empty"),
            Refusal::MessageTooLong => Some("message too long"),
            Refusal::UnknownScenario => Some("unknown scenario"),
            Refusal::NotProvisioned => Some("scenario not provisioned yet"),
            Refusal::Busy => Some("a round is already running, wait for round_done"),
            Refusal::UnknownPeer => Some("unknown peer"),
            Refusal::Unauthorized => None,
        }
    }
}

/// The message that `raw` stands for: `raw` without the white space around it, unless nothing is
/// left of it or it is too long.
pub open spec fn message_of(raw: Seq<char>) -> Result<Seq<char>, Refusal> {
    let message = trimmed(raw);
    if message.len() == 0 {
        Err(Refusal::EmptyMessage)
    } else if encode_utf8(message).len() > MAX_MESSAGE_LEN {
        Err(Refusal::MessageTooLong)
    } else {
        Ok(message)
    }
}

/// The view of a message or a refusal.
pub open spec fn message_or_refusal(r: Result<String, Refusal>) -> Result<Seq<char>, Refusal> {
    match r {
        Ok(message) => Ok(message@),
        Err(refusal) => Err(refusal),
    }
}

/// Takes the white space off a visitor's message and turns it down where nothing is left or too
/// much. What is measured is not what is sent: a message that passes goes out as it was typed.
pub fn validate_message(raw: &str) -> (r: Result<String, Refusal>)
    ensures
        message_or_refusal(r) == message_of(raw@),
{
    let message = trim(raw).to_owned();
    if message.as_str().is_empty() {
        return Err(Refusal::EmptyMessage);
    }
    if message.as_str().as_bytes().len() > MAX_MESSAGE_LEN {
        return Err(Refusal::MessageTooLong);
    }
    Ok(message)
}

/// A message is turned down as empty exactly when it holds nothing but white space.
pub proof fn blank_messages_are_refused(raw: Seq<char>)
    ensures
        message_of(raw) == Err::<Seq<char>, Refusal>(Refusal::EmptyMessage)
            <==> crate::text::is_blank(raw),
{
    crate::text::blank_texts_trim_to_nothing(raw);
}

/// What was accepted is accepted again, unchanged.
pub proof fn accepted_messages_stay_as_they_are(raw: Seq<char>)
    requires
        message_of(raw) is Ok,
    ensures
        message_of(message_of(raw)->Ok_0) == message_of(raw),
        0 < encode_utf8(message_of(raw)->Ok_0).len() <= MAX_MESSAGE_LEN,
{
    crate::text::trimming_twice_is_trimming_once(raw);
    let message = trimmed(raw);
    encode_utf8_decode_utf8(message);
    if encode_utf8(message).len() == 0 {
        assert(encode_utf8(message) =~= Seq::<u8>::empty());
        assert(decode_utf8(encode_utf8(message)).len() == 0);
    }
}

/// A message passes exactly if, without the white space around it, it has one to four hundred
/// bytes, and it passes as just that. It is empty if it is blank, too long otherwise, and turned
/// down for nothing else.
pub proof fn messages_pass_by_their_length(raw: Seq<char>)
    ensures
        match message_of(raw) {
            Ok(message) => {
                &&& message == trimmed(raw)
                &&& exists|i: int| 0 <= i < raw.len() && !crate::text::is_white_space(
                    #[trigger] raw[i],
                )
                &&& encode_utf8(trimmed(raw)).len() <= 400
            },
            Err(Refusal::EmptyMessage) => forall|i: int|
                0 <= i < raw.len() ==> crate::text::is_white_space(#[trigger] raw[i]),
            Err(Refusal::MessageTooLong) => {
                &&& exists|i: int| 0 <= i < raw.len() && !crate::text::is_white_space(
                    #[trigger] raw[i],
                )
                &&& encode_utf8(trimmed(raw)).len() > 400
            },
            Err(_) => false,
        },
{
    crate::text::blank_texts_trim_to_nothing(raw);
}

/// The white space around a message has no bearing on whether it passes.
pub proof fn padding_has_no_bearing(before: Seq<char>, message: Seq<char>, after: Seq<char>)
    requires
        forall|i: int| 0 <= i < before.len() ==> crate::text::is_white_space(#[trigger] before[i]),
        forall|i: int| 0 <= i < after.len() ==> crate::text::is_white_space(#[trigger] after[i]),
        message.len() > 0,
        !crate::text::is_white_space(message[0]),
        !crate::text::is_white_space(message[message.len() - 1]),
    ensures
        encode_utf8(message).len() <= 400 ==> message_of(before + message + after) == Ok::<
            Seq<char>,
            Refusal,
        >(message),
        encode_utf8(message).len() > 400 ==> message_of(before + message + after) == Err::<
            Seq<char>,
            Refusal,
        >(Refusal::MessageTooLong),
{
    crate::text::trimming_cuts_off_what_is_around(before, message, after);
}

/// The client is at fault for a bad message, what does not exist is not found, a missing token is
/// unauthorized, and a request that only has to wait is one too many.
pub proof fn refusals_have_their_status(refusal: Refusal)
    ensures
        refusal.status_code() == 400 <==> refusal is EmptyMessage || refusal is MessageTooLong,
        refusal.status_code() == 404 <==> refusal is UnknownScenario || refusal is NotProvisioned
            || refusal is UnknownPeer,
        refusal.status_code() == 401 <==> refusal is Unauthorized,
        refusal.status_code() == 429 <==> refusal is Busy,
        refusal.body_text() is None <==> refusal is Unauthorized,
{
}

} // verus!
