//! The frames exchanged with the chat server.
//!
//! A frame is one JSON object `{"messageType":..,"dataArray":..,"data":..}`.
//! Outbound frames are written here, byte for byte; string literals are
//! quoted by `serde_json`. Inbound text is read into a [`WebSocketMessage`]
//! before it reaches this module, which then checks its shape.

use vstd::prelude::*;

verus! {

/// The error type of `serde_json`.
#[verifier::external_type_specification]
#[verifier::external_body]
pub struct ExJsonError(serde_json::Error);

/// The JSON string literal (quotes and escapes included) that `serde_json`
/// writes for a string.
pub uninterp spec fn json_quoted(s: Seq<char>) -> Seq<char>;

/// Relies on `serde_json::to_string` applied to a `str`: it returns the JSON
/// string literal for `s`. The literal is written into an in-memory `Vec<u8>`,
/// whose `io::Write` never fails, so the result is always `Ok`.
#[verifier::external_body]
fn quote_json(s: &str) -> (r: Result<String, serde_json::Error>)
    ensures
        r is Ok,
        r matches Ok(t) ==> t@ == json_quoted(s@),
{
    serde_json::to_string(s)
}

/// The discriminant of a frame.
#[derive(Clone, Copy, Debug, PartialEq, Eq, Structural)]
pub enum MsgTypes {
    Users,
    Register,
    Message,
}

/// Why an inbound frame was dropped, or an outbound one not written.
#[derive(Clone, Copy, Debug, PartialEq, Eq, Structural)]
pub enum ProtocolError {
    /// The text is not a frame: not JSON, not an object of the frame's
    /// fields, or an unknown `messageType`.
    Unreadable,
    /// The payload field that the discriminant calls for is absent.
    MissingPayload,
    /// The `data` of a `message` frame is not a chat payload.
    BadPayload,
}

/// A frame as it stands on the wire: the discriminant and both payload fields.
#[derive(Clone, Debug)]
pub struct WebSocketMessage {
    pub message_type: MsgTypes,
    pub data_array: Option<Vec<String>>,
    pub data: Option<String>,
}

/// The chat payload carried, as JSON text, in the `data` of a `message` frame.
#[derive(Clone, Debug)]
pub struct MessageData {
    pub from: String,
    pub message: String,
}

/// A frame whose payload has the shape its discriminant calls for.
#[derive(Clone, Debug)]
pub enum Frame {
    Users(Vec<String>),
    Register(String),
    Message(MessageData),
}

pub struct WireModel {
    pub kind: MsgTypes,
    pub data_array: Option<Seq<Seq<char>>>,
    pub data: Option<Seq<char>>,
}

pub enum FrameModel {
    Users(Seq<Seq<char>>),
    Register(Seq<char>),
    /// Sender, then body.
    Message(Seq<char>, Seq<char>),
}

impl View for WebSocketMessage {
    type V = WireModel;

    open spec fn view(&self) -> WireModel {
        WireModel {
            kind: self.message_type,
            data_array: match self.data_array {
                Some(v) => Some(v.deep_view()),
                None => None,
            },
            data: match self.data {
                Some(d) => Some(d@),
                None => None,
            },
        }
    }
}

impl View for MessageData {
    /// Sender, then body.
    type V = (Seq<char>, Seq<char>);

    open spec fn view(&self) -> (Seq<char>, Seq<char>) {
        (self.from@, self.message@)
    }
}

impl View for Frame {
    type V = FrameModel;

    open spec fn view(&self) -> FrameModel {
        match self {
            Frame::Users(v) => FrameModel::Users(v.deep_view()),
            Frame::Register(d) => FrameModel::Register(d@),
            Frame::Message(m) => FrameModel::Message(m.from@, m.message@),
        }
    }
}

pub open spec fn option_view(p: Option<MessageData>) -> Option<(Seq<char>, Seq<char>)> {
    match p {
        Some(m) => Some(m@),
        None => None,
    }
}

/// The lower-case name of a discriminant on the wire.
pub open spec fn kind_name(t: MsgTypes) -> Seq<char> {
    match t {
        MsgTypes::Users => "users"@,
        MsgTypes::Register => "register"@,
        MsgTypes::Message => "message"@,
    }
}

/// The quoted items of a list, separated by commas.
pub open spec fn quoted_items(items: Seq<Seq<char>>) -> Seq<char>
    decreases items.len(),
{
    if items.len() == 0 {
        Seq::empty()
    } else if items.len() == 1 {
        json_quoted(items[0])
    } else {
        quoted_items(items.drop_last()) + ","@ + json_quoted(items.last())
    }
}

pub open spec fn list_text(items: Seq<Seq<char>>) -> Seq<char> {
    "["@ + quoted_items(items) + "]"@
}

/// The JSON text of a frame: its fields in the order `messageType`,
/// `dataArray`, `data`, with `null` for an absent payload.
pub open spec fn wire_text(w: WireModel) -> Seq<char> {
    "{\"messageType\":\""@ + kind_name(w.kind) + "\",\"dataArray\":"@ + match w.data_array {
        Some(l) => list_text(l),
        None => "null"@,
    } + ",\"data\":"@ + match w.data {
        Some(d) => json_quoted(d),
        None => "null"@,
    } + "}"@
}

/// The JSON text of a chat payload.
pub open spec fn payload_text(from: Seq<char>, message: Seq<char>) -> Seq<char> {
    "{\"from\":"@ + json_quoted(from) + ",\"message\":"@ + json_quoted(message) + "}"@
}

/// What a wire frame decodes to, given what its `data` reads as a chat
/// payload (`payload`, if it reads as one at all).
pub open spec fn decode(w: WireModel, payload: Option<(Seq<char>, Seq<char>)>) -> Result<
    FrameModel,
    ProtocolError,
> {
    match w.kind {
        MsgTypes::Users => match w.data_array {
            Some(l) => Ok(FrameModel::Users(l)),
            None => Err(ProtocolError::MissingPayload),
        },
        MsgTypes::Register => match w.data {
            Some(d) => Ok(FrameModel::Register(d)),
            None => Err(ProtocolError::MissingPayload),
        },
        MsgTypes::Message => match (w.data, payload) {
            (None, _) => Err(ProtocolError::MissingPayload),
            (Some(_), None) => Err(ProtocolError::BadPayload),
            (Some(_), Some(p)) => Ok(FrameModel::Message(p.0, p.1)),
        },
    }
}

/// The wire frame that carries a frame: exactly one payload field is set.
pub open spec fn encode(f: FrameModel) -> WireModel {
    match f {
        FrameModel::Users(l) => WireModel { kind: MsgTypes::Users, data_array: Some(l), data: None },
        FrameModel::Register(d) => WireModel {
            kind: MsgTypes::Register,
            data_array: None,
            data: Some(d),
        },
        FrameModel::Message(from, message) => WireModel {
            kind: MsgTypes::Message,
            data_array: None,
            data: Some(payload_text(from, message)),
        },
    }
}

/// The chat payload that a decoded frame carries, if any.
pub open spec fn carried_payload(f: FrameModel) -> Option<(Seq<char>, Seq<char>)> {
    match f {
        FrameModel::Message(from, message) => Some((from, message)),
        _ => None,
    }
}

pub fn kind_str(t: MsgTypes) -> (r: &'static str)
    ensures
        r@ == kind_name(t),
{
    match t {
        MsgTypes::Users => "users",
        MsgTypes::Register => "register",
        MsgTypes::Message => "message",
    }
}

fn quoted(s: &str) -> (r: String)
    ensures
        r@ == json_quoted(s@),
{
    quote_json(s).unwrap()
}

/// Writes a list of strings as a JSON array.
pub fn encode_list(items: &Vec<String>) -> (r: String)
    ensures
        r@ == list_text(items.deep_view()),
{
    let mut acc = String::new();
    let ghost dv = items.deep_view();
    let mut i: usize = 0;
    while i < items.len()
        invariant
            i <= items.len(),
            dv == items.deep_view(),
            acc@ == quoted_items(dv.subrange(0, i as int)),
        decreases items.len() - i,
    {
        if i > 0 {
            acc.append(",");
        }
        let q = quoted(items[i].as_str());
        acc.append(q.as_str());
        proof {
            let next = dv.subrange(0, i + 1);
            assert(next.drop_last() =~= dv.subrange(0, i as int));
            assert(next.last() == dv[i as int]);
            if i == 0 {
                assert(next.len() == 1);
            }
        }
        i = i + 1;
    }
    assert(dv.subrange(0, items.len() as int) =~= dv);
    let mut out = String::from_str("[");
    out.append(acc.as_str());
    out.append("]");
    out
}

/// Writes a wire frame as its JSON text.
pub fn encode_wire(w: &WebSocketMessage) -> (r: String)
    ensures
        r@ == wire_text(w@),
{
    let mut out = String::from_str("{\"messageType\":\"");
    out.append(kind_str(w.message_type));
    out.append("\",\"dataArray\":");
    match &w.data_array {
        Some(l) => {
            let t = encode_list(l);
            out.append(t.as_str());
        },
        None => {
            out.append("null");
        },
    }
    out.append(",\"data\":");
    match &w.data {
        Some(d) => {
            let t = quoted(d.as_str());
            out.append(t.as_str());
        },
        None => {
            out.append("null");
        },
    }
    out.append("}");
    out
}

/// Writes a chat payload as the JSON text that a `message` frame carries.
pub fn encode_payload(m: &MessageData) -> (r: String)
    ensures
        r@ == payload_text(m.from@, m.message@),
{
    let mut out = String::from_str("{\"from\":");
    let f = quoted(m.from.as_str());
    out.append(f.as_str());
    out.append(",\"message\":");
    let b = quoted(m.message.as_str());
    out.append(b.as_str());
    out.append("}");
    out
}

impl Frame {
    /// Checks that a wire frame's payload has the shape its discriminant
    /// calls for. `payload` is what the frame's `data` reads as a chat
    /// payload, or `None` where it is absent or does not read as one; only a
    /// `message` frame looks at it.
    pub fn from_wire(w: WebSocketMessage, payload: Option<MessageData>) -> (r: Result<
        Frame,
        ProtocolError,
    >)
        ensures
            r matches Ok(f) ==> decode(w@, option_view(payload)) == Ok::<FrameModel, ProtocolError>(f@),
            r matches Err(e) ==> decode(w@, option_view(payload)) == Err::<FrameModel, ProtocolError>(e),
    {
        match w.message_type {
            MsgTypes::Users => match w.data_array {
                Some(l) => Ok(Frame::Users(l)),
                None => Err(ProtocolError::MissingPayload),
            },
            MsgTypes::Register => match w.data {
                Some(d) => Ok(Frame::Register(d)),
                None => Err(ProtocolError::MissingPayload),
            },
            MsgTypes::Message => match (w.data, payload) {
                (None, _) => Err(ProtocolError::MissingPayload),
                (Some(_), None) => Err(ProtocolError::BadPayload),
                (Some(_), Some(p)) => Ok(Frame::Message(p)),
            },
        }
    }

    /// The wire frame that carries this frame.
    pub fn to_wire(self) -> (r: WebSocketMessage)
        ensures
            r@ == encode(self@),
    {
        match self {
            Frame::Users(l) => WebSocketMessage {
                message_type: MsgTypes::Users,
                data_array: Some(l),
                data: None,
            },
            Frame::Register(d) => WebSocketMessage {
                message_type: MsgTypes::Register,
                data_array: None,
                data: Some(d),
            },
            Frame::Message(m) => {
                let text = encode_payload(&m);
                WebSocketMessage {
                    message_type: MsgTypes::Message,
                    data_array: None,
                    data: Some(text),
                }
            },
        }
    }

    /// The JSON text of this frame.
    pub fn to_text(self) -> (r: String)
        ensures
            r@ == wire_text(encode(self@)),
    {
        let w = self.to_wire();
        encode_wire(&w)
    }
}

/// Encoding a frame and decoding the result, with the chat payload that the
/// frame carries, gives the frame back.
pub proof fn lemma_encode_then_decode(f: FrameModel)
    ensures
        decode(encode(f), carried_payload(f)) == Ok::<FrameModel, ProtocolError>(f),
{
}

/// Decoding a frame and encoding it again keeps its discriminant and its
/// payload: the same user list, the same registered name, or a `data` that is
/// the text of the same chat payload.
pub proof fn lemma_decode_then_encode(
    w: WireModel,
    payload: Option<(Seq<char>, Seq<char>)>,
    f: FrameModel,
)
    requires
        decode(w, payload) == Ok::<FrameModel, ProtocolError>(f),
    ensures
        encode(f).kind == w.kind,
        w.kind == MsgTypes::Users ==> encode(f).data_array == w.data_array,
        w.kind == MsgTypes::Register ==> encode(f).data == w.data,
        w.kind == MsgTypes::Message ==> (payload matches Some(p) && carried_payload(f) == payload
            && encode(f).data == Some(payload_text(p.0, p.1))),
{
}

} // verus!
