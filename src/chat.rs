//! The chat state machine: a roster that each `users` frame replaces, a
//! message log that each `message` frame extends, and the outbound frames
//! for registration and for the user's own messages.

use vstd::prelude::*;

use crate::wire::{
    encode_wire, wire_text, Frame, FrameModel, MessageData, MsgTypes, ProtocolError,
    WebSocketMessage, WireModel,
};

verus! {

/// What `str::trim` leaves of a string.
pub uninterp spec fn trim_of(s: Seq<char>) -> Seq<char>;

/// Relies on `str::trim`: the string without its leading and trailing white
/// space; nothing is left of an empty string.
#[verifier::external_body]
fn trimmed(s: &str) -> (r: &str)
    ensures
        r@ == trim_of(s@),
        s@.len() == 0 ==> r@.len() == 0,
{
    s.trim()
}

/// Input that holds nothing but white space is not sent.
pub open spec fn is_blank(text: Seq<char>) -> bool {
    trim_of(text).len() == 0
}

/// The avatar of a user: a fixed base URL with the name as its last segment.
pub open spec fn avatar_of(name: Seq<char>) -> Seq<char> {
    "https://avatars.dicebear.com/api/adventurer-neutral/"@ + name + ".svg"@
}

/// A user of the roster, with the avatar derived from the name.
#[derive(Clone, Debug)]
pub struct UserProfile {
    pub name: String,
    pub avatar: String,
}

impl View for UserProfile {
    /// Name, then avatar.
    type V = (Seq<char>, Seq<char>);

    open spec fn view(&self) -> (Seq<char>, Seq<char>) {
        (self.name@, self.avatar@)
    }
}

pub fn avatar_url(name: &str) -> (r: String)
    ensures
        r@ == avatar_of(name@),
{
    let mut url = String::from_str("https://avatars.dicebear.com/api/adventurer-neutral/");
    url.append(name);
    url.append(".svg");
    url
}

pub fn profile_of(name: &str) -> (r: UserProfile)
    ensures
        r@ == (name@, avatar_of(name@)),
{
    UserProfile { name: String::from_str(name), avatar: avatar_url(name) }
}

/// The state of a chat view: who is in the room, and what was said.
pub struct ChatModel {
    /// Name and avatar of each user, in the order of the last `users` frame.
    pub roster: Seq<(Seq<char>, Seq<char>)>,
    /// Sender and body of each message, oldest first.
    pub log: Seq<(Seq<char>, Seq<char>)>,
}

pub open spec fn empty_model() -> ChatModel {
    ChatModel { roster: Seq::empty(), log: Seq::empty() }
}

pub open spec fn roster_of(names: Seq<Seq<char>>) -> Seq<(Seq<char>, Seq<char>)> {
    names.map_values(|n: Seq<char>| (n, avatar_of(n)))
}

/// The effect of one decoded frame: a user list replaces the roster, a chat
/// payload is appended to the log, a registration changes nothing.
pub open spec fn apply(m: ChatModel, f: FrameModel) -> ChatModel {
    match f {
        FrameModel::Users(names) => ChatModel { roster: roster_of(names), log: m.log },
        FrameModel::Register(_) => m,
        FrameModel::Message(from, body) => ChatModel { roster: m.roster, log: m.log.push((from, body)) },
    }
}

/// The effect of one inbound frame, which may have failed to decode: a
/// failed frame changes nothing.
pub open spec fn step(m: ChatModel, r: Result<FrameModel, ProtocolError>) -> ChatModel {
    match r {
        Ok(f) => apply(m, f),
        Err(_) => m,
    }
}

/// Whether the view is drawn again after an inbound frame.
pub open spec fn rerenders(r: Result<FrameModel, ProtocolError>) -> bool {
    match r {
        Ok(FrameModel::Register(_)) => false,
        Ok(_) => true,
        Err(_) => false,
    }
}

pub open spec fn frame_view(r: Result<Frame, ProtocolError>) -> Result<FrameModel, ProtocolError> {
    match r {
        Ok(f) => Ok(f@),
        Err(e) => Err(e),
    }
}

/// The frame that registers a user name with the server.
pub open spec fn register_text(name: Seq<char>) -> Seq<char> {
    wire_text(WireModel { kind: MsgTypes::Register, data_array: None, data: Some(name) })
}

/// The frame that sends the text of the input box.
pub open spec fn outbound_text(text: Seq<char>) -> Seq<char> {
    wire_text(WireModel { kind: MsgTypes::Message, data_array: None, data: Some(text) })
}

/// An event of the chat view.
pub enum Msg {
    /// An inbound frame, or why it could not be read.
    HandleMsg(Result<Frame, ProtocolError>),
    /// The user submitted the text of the input box.
    SubmitMessage(String),
}

/// What the view does after an event.
pub struct Reaction {
    /// Draw the view again.
    pub rerender: bool,
    /// A frame to send.
    pub outbound: Option<String>,
    /// Empty the input box.
    pub clear_input: bool,
}

/// The state machine of one chat view.
pub struct Chat {
    users: Vec<UserProfile>,
    messages: Vec<MessageData>,
}

impl View for Chat {
    type V = ChatModel;

    closed spec fn view(&self) -> ChatModel {
        ChatModel {
            roster: self.users@.map_values(|u: UserProfile| u@),
            log: self.messages@.map_values(|m: MessageData| m@),
        }
    }
}

impl Chat {
    /// A chat view with an empty roster and an empty log.
    pub fn new() -> (r: Chat)
        ensures
            r@ == empty_model(),
    {
        let r = Chat { users: Vec::new(), messages: Vec::new() };
        assert(r@.roster =~= Seq::<(Seq<char>, Seq<char>)>::empty());
        assert(r@.log =~= Seq::<(Seq<char>, Seq<char>)>::empty());
        r
    }

    /// Mounts a chat view for `username`: the empty state, and the one
    /// registration frame to send.
    pub fn create(username: &str) -> (r: (Chat, String))
        ensures
            r.0@ == empty_model(),
            r.1@ == register_text(username@),
    {
        let w = WebSocketMessage {
            message_type: MsgTypes::Register,
            data_array: None,
            data: Some(String::from_str(username)),
        };
        (Chat::new(), encode_wire(&w))
    }

    /// The roster, in the order of the last `users` frame.
    pub fn users(&self) -> (r: &Vec<UserProfile>)
        ensures
            r@.map_values(|u: UserProfile| u@) == self@.roster,
    {
        &self.users
    }

    /// The message log, oldest first.
    pub fn messages(&self) -> (r: &Vec<MessageData>)
        ensures
            r@.map_values(|m: MessageData| m@) == self@.log,
    {
        &self.messages
    }

    /// Replaces the roster with one profile for each name, in order.
    fn set_roster(&mut self, names: Vec<String>)
        ensures
            final(self)@ == (ChatModel { roster: roster_of(names.deep_view()), log: old(self)@.log }),
    {
        let ghost dv = names.deep_view();
        let mut users: Vec<UserProfile> = Vec::new();
        let mut i: usize = 0;
        while i < names.len()
            invariant
                i <= names.len(),
                dv == names.deep_view(),
                users@.map_values(|u: UserProfile| u@) =~= roster_of(dv.subrange(0, i as int)),
            decreases names.len() - i,
        {
            let p = profile_of(names[i].as_str());
            users.push(p);
            assert(roster_of(dv.subrange(0, i + 1)) =~= roster_of(dv.subrange(0, i as int)).push(
                (dv[i as int], avatar_of(dv[i as int])),
            ));
            i = i + 1;
        }
        assert(dv.subrange(0, names.len() as int) =~= dv);
        self.users = users;
    }

    /// Applies one inbound frame. A frame that failed to decode is dropped
    /// and changes nothing. Returns whether the view is drawn again.
    pub fn on_frame(&mut self, frame: Result<Frame, ProtocolError>) -> (rerender: bool)
        ensures
            final(self)@ == step(old(self)@, frame_view(frame)),
            rerender == rerenders(frame_view(frame)),
    {
        match frame {
            Ok(Frame::Users(names)) => {
                self.set_roster(names);
                true
            },
            Ok(Frame::Message(m)) => {
                self.messages.push(m);
                assert(self@.log =~= old(self)@.log.push(m@));
                assert(self@.roster =~= old(self)@.roster);
                true
            },
            Ok(Frame::Register(_)) => false,
            Err(_) => false,
        }
    }

    /// The frame that sends `text`, or `None` where `text` is blank. The text
    /// is sent as it was typed; the state does not change.
    pub fn submit(&self, text: &str) -> (r: Option<String>)
        ensures
            r is None <==> is_blank(text@),
            r matches Some(t) ==> t@ == outbound_text(text@),
    {
        if trimmed(text).is_empty() {
            None
        } else {
            let w = WebSocketMessage {
                message_type: MsgTypes::Message,
                data_array: None,
                data: Some(String::from_str(text)),
            };
            Some(encode_wire(&w))
        }
    }

    /// Handles one event of the view. An inbound frame updates the state; a
    /// submission leaves it as it is, yields the frame to send unless the
    /// text is blank, and then empties the input box.
    pub fn update(&mut self, msg: Msg) -> (r: Reaction)
        ensures
            match msg {
                Msg::HandleMsg(f) => {
                    &&& final(self)@ == step(old(self)@, frame_view(f))
                    &&& r.rerender == rerenders(frame_view(f))
                    &&& r.outbound is None
                    &&& !r.clear_input
                },
                Msg::SubmitMessage(text) => {
                    &&& final(self)@ == old(self)@
                    &&& !r.rerender
                    &&& (r.outbound is None <==> is_blank(text@))
                    &&& (r.outbound matches Some(t) ==> t@ == outbound_text(text@))
                    &&& r.clear_input == !is_blank(text@)
                },
            },
    {
        match msg {
            Msg::HandleMsg(f) => {
                let rerender = self.on_frame(f);
                Reaction { rerender, outbound: None, clear_input: false }
            },
            Msg::SubmitMessage(text) => {
                let outbound = self.submit(text.as_str());
                let clear_input = outbound.is_some();
                Reaction { rerender: false, outbound, clear_input }
            },
        }
    }
}

/// The state after a run of inbound frames, oldest first.
pub open spec fn run(m: ChatModel, frames: Seq<Result<FrameModel, ProtocolError>>) -> ChatModel
    decreases frames.len(),
{
    if frames.len() == 0 {
        m
    } else {
        step(run(m, frames.drop_last()), frames.last())
    }
}

/// The chat payloads of the frames of a run that decoded as messages, in
/// order of arrival.
pub open spec fn delivered(frames: Seq<Result<FrameModel, ProtocolError>>) -> Seq<
    (Seq<char>, Seq<char>),
>
    decreases frames.len(),
{
    if frames.len() == 0 {
        Seq::empty()
    } else {
        let d = delivered(frames.drop_last());
        match frames.last() {
            Ok(FrameModel::Message(from, body)) => d.push((from, body)),
            _ => d,
        }
    }
}

/// How many frames of a run decoded.
pub open spec fn decoded_count(frames: Seq<Result<FrameModel, ProtocolError>>) -> nat
    decreases frames.len(),
{
    if frames.len() == 0 {
        0
    } else {
        decoded_count(frames.drop_last()) + if frames.last() is Ok {
            1nat
        } else {
            0nat
        }
    }
}

/// Only message frames were decoded in this run.
pub open spec fn only_messages(frames: Seq<Result<FrameModel, ProtocolError>>) -> bool {
    forall|i: int|
        0 <= i < frames.len() && #[trigger] frames[i] is Ok ==> frames[i]->Ok_0 is Message
}

/// A `users` frame replaces the roster whole: after two of them the roster
/// holds exactly the second frame's names, in its order, whatever the first
/// held; the log is kept.
pub proof fn lemma_users_replace(
    m: ChatModel,
    first: Seq<Seq<char>>,
    second: Seq<Seq<char>>,
)
    ensures
        apply(apply(m, FrameModel::Users(first)), FrameModel::Users(second)).roster == roster_of(
            second,
        ),
        apply(apply(m, FrameModel::Users(first)), FrameModel::Users(second)).roster.map_values(
            |p: (Seq<char>, Seq<char>)| p.0,
        ) == second,
        apply(apply(m, FrameModel::Users(first)), FrameModel::Users(second)).log == m.log,
{
    assert(roster_of(second).map_values(|p: (Seq<char>, Seq<char>)| p.0) =~= second);
}

/// The log only grows: after any run of frames it is the old log followed by
/// the payloads of the frames that decoded as messages, in order of arrival.
/// Where every decoded frame is a message, it grew by one entry per decoded
/// frame.
pub proof fn lemma_log_append_only(m: ChatModel, frames: Seq<Result<FrameModel, ProtocolError>>)
    ensures
        run(m, frames).log == m.log + delivered(frames),
        only_messages(frames) ==> run(m, frames).log.len() == m.log.len() + decoded_count(frames),
    decreases frames.len(),
{
    if frames.len() > 0 {
        let rest = frames.drop_last();
        lemma_log_append_only(m, rest);
        assert(run(m, frames).log =~= m.log + delivered(frames));
        if only_messages(frames) {
            assert forall|i: int|
                0 <= i < rest.len() && #[trigger] rest[i] is Ok implies rest[i]->Ok_0 is Message by {
                assert(frames[i] == rest[i]);
            }
            assert(frames[frames.len() - 1] == frames.last());
        }
    }
}

/// A frame that failed to decode leaves roster and log as they were and does
/// not draw the view again.
pub proof fn lemma_rejected_frame_changes_nothing(m: ChatModel, e: ProtocolError)
    ensures
        step(m, Err(e)) == m,
        !rerenders(Err(e)),
{
}

/// Every roster entry carries the avatar derived from its name.
pub open spec fn avatars_derived(m: ChatModel) -> bool {
    forall|i: int| 0 <= i < m.roster.len() ==> #[trigger] m.roster[i].1 == avatar_of(m.roster[i].0)
}

/// The avatars of the roster stay derived from the names: so they are in an
/// empty state, and every inbound frame keeps them so.
pub proof fn lemma_avatars_stay_derived(m: ChatModel, r: Result<FrameModel, ProtocolError>)
    requires
        avatars_derived(m),
    ensures
        avatars_derived(empty_model()),
        avatars_derived(step(m, r)),
{
}

} // verus!
