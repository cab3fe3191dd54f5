use yew_chat::chat::{avatar_url, Chat, Msg};
use yew_chat::render::{is_image_ref, Body};
use yew_chat::wire::{
    encode_list, encode_payload, encode_wire, Frame, MessageData, MsgTypes, ProtocolError,
    WebSocketMessage,
};

fn users_frame(names: &[&str]) -> Result<Frame, ProtocolError> {
    let w = WebSocketMessage {
        message_type: MsgTypes::Users,
        data_array: Some(names.iter().map(|n| n.to_string()).collect()),
        data: None,
    };
    Frame::from_wire(w, None)
}

/// Reads the chat payload of a `message` frame's `data` the way a client does.
fn read_payload(data: &str) -> Option<MessageData> {
    let v: serde_json::Value = serde_json::from_str(data).ok()?;
    let from = v.get("from")?.as_str()?.to_string();
    let message = v.get("message")?.as_str()?.to_string();
    Some(MessageData { from, message })
}

fn message_frame(data: &str) -> Result<Frame, ProtocolError> {
    let w = WebSocketMessage {
        message_type: MsgTypes::Message,
        data_array: None,
        data: Some(data.to_string()),
    };
    Frame::from_wire(w, read_payload(data))
}

fn names(chat: &Chat) -> Vec<String> {
    chat.users().iter().map(|u| u.name.clone()).collect()
}

fn log(chat: &Chat) -> Vec<(String, String)> {
    chat.messages().iter().map(|m| (m.from.clone(), m.message.clone())).collect()
}

#[test]
fn second_users_frame_replaces_roster() {
    let mut chat = Chat::new();
    assert!(chat.on_frame(users_frame(&["alice", "bob", "carol"])));
    assert!(chat.on_frame(users_frame(&["dave"])));
    assert_eq!(names(&chat), vec!["dave".to_string()]);
    assert_eq!(
        chat.users()[0].avatar,
        "https://avatars.dicebear.com/api/adventurer-neutral/dave.svg"
    );
    assert!(chat.on_frame(users_frame(&[])));
    assert!(chat.users().is_empty());
}

#[test]
fn message_frames_append_in_arrival_order() {
    let mut chat = Chat::new();
    assert!(chat.on_frame(message_frame(r#"{"from":"a","message":"one"}"#)));
    assert!(!chat.on_frame(message_frame("not json")));
    assert!(chat.on_frame(message_frame(r#"{"from":"b","message":"two"}"#)));
    assert!(!chat.on_frame(message_frame(r#"{"from":"c"}"#)));
    assert!(chat.on_frame(message_frame(r#"{"from":"a","message":"three"}"#)));
    assert_eq!(
        log(&chat),
        vec![
            ("a".to_string(), "one".to_string()),
            ("b".to_string(), "two".to_string()),
            ("a".to_string(), "three".to_string()),
        ]
    );
}

#[test]
fn users_frame_round_trip() {
    let w = WebSocketMessage {
        message_type: MsgTypes::Users,
        data_array: Some(vec!["alice".to_string(), "bob".to_string()]),
        data: None,
    };
    let f = Frame::from_wire(w, None).unwrap();
    let back = f.clone().to_wire();
    assert_eq!(back.message_type, MsgTypes::Users);
    assert_eq!(back.data_array, Some(vec!["alice".to_string(), "bob".to_string()]));
    assert_eq!(back.data, None);
    assert_eq!(
        f.to_text(),
        r#"{"messageType":"users","dataArray":["alice","bob"],"data":null}"#
    );
}

#[test]
fn message_frame_round_trip() {
    let f = message_frame(r#"{ "from" : "alice", "message": "hi \"there\"" }"#).unwrap();
    let w = f.to_wire();
    assert_eq!(w.message_type, MsgTypes::Message);
    let data = w.data.clone().unwrap();
    assert_eq!(data, r#"{"from":"alice","message":"hi \"there\""}"#);
    match Frame::from_wire(w, read_payload(&data)).unwrap() {
        Frame::Message(m) => {
            assert_eq!(m.from, "alice");
            assert_eq!(m.message, "hi \"there\"");
        }
        _ => panic!("not a message frame"),
    }
}

#[test]
fn encoded_text_reads_back_as_the_same_frame() {
    let f = Frame::Register("b\\o\nb".to_string());
    let text = f.to_text();
    let v: serde_json::Value = serde_json::from_str(&text).unwrap();
    assert_eq!(v["messageType"], "register");
    assert_eq!(v["data"], "b\\o\nb");
    assert!(v["dataArray"].is_null());
}

#[test]
fn submit_blank_sends_nothing() {
    let mut chat = Chat::new();
    chat.on_frame(message_frame(r#"{"from":"a","message":"x"}"#));
    assert_eq!(chat.submit(""), None);
    assert_eq!(chat.submit("   "), None);
    assert_eq!(chat.submit("\t\n"), None);
    let r = chat.update(Msg::SubmitMessage("   ".to_string()));
    assert!(r.outbound.is_none());
    assert!(!r.clear_input);
    assert!(!r.rerender);
    assert_eq!(log(&chat).len(), 1);
}

#[test]
fn submit_hello_sends_one_message_frame() {
    let mut chat = Chat::new();
    let r = chat.update(Msg::SubmitMessage("hello".to_string()));
    assert_eq!(
        r.outbound,
        Some(r#"{"messageType":"message","dataArray":null,"data":"hello"}"#.to_string())
    );
    assert!(r.clear_input);
    assert!(!r.rerender);
    assert!(chat.messages().is_empty());
}

#[test]
fn submit_sends_text_as_typed() {
    let chat = Chat::new();
    assert_eq!(
        chat.submit("  hi \"you\"  "),
        Some(r#"{"messageType":"message","dataArray":null,"data":"  hi \"you\"  "}"#.to_string())
    );
}

#[test]
fn create_sends_registration() {
    let (chat, frame) = Chat::create("alice");
    assert_eq!(frame, r#"{"messageType":"register","dataArray":null,"data":"alice"}"#);
    assert!(chat.users().is_empty());
    assert!(chat.messages().is_empty());
}

#[test]
fn register_frame_is_a_quiet_no_op() {
    let mut chat = Chat::new();
    chat.on_frame(users_frame(&["alice"]));
    let w = WebSocketMessage {
        message_type: MsgTypes::Register,
        data_array: None,
        data: Some("bob".to_string()),
    };
    assert!(!chat.on_frame(Frame::from_wire(w, None)));
    assert_eq!(names(&chat), vec!["alice".to_string()]);
    assert!(chat.messages().is_empty());
}

#[test]
fn gif_body_renders_as_image() {
    let mut chat = Chat::new();
    chat.on_frame(users_frame(&["alice"]));
    chat.on_frame(message_frame(r#"{"from":"alice","message":"http://x/y.gif"}"#));
    chat.on_frame(message_frame(r#"{"from":"alice","message":"http://x/y.png"}"#));
    chat.on_frame(message_frame(r#"{"from":"alice","message":"plain words"}"#));
    let view = chat.render();
    assert_eq!(view.bubbles.len(), 3);
    assert!(matches!(&view.bubbles[0].body, Body::Image(u) if u == "http://x/y.gif"));
    assert!(matches!(&view.bubbles[1].body, Body::Text(t) if t == "http://x/y.png"));
    assert!(matches!(&view.bubbles[2].body, Body::Text(t) if t == "plain words"));
}

#[test]
fn image_suffix_is_matched_exactly() {
    assert!(is_image_ref(".gif"));
    assert!(is_image_ref("é.gif"));
    assert!(!is_image_ref("gif"));
    assert!(!is_image_ref("y.GIF"));
    assert!(!is_image_ref("y.gif "));
    assert!(!is_image_ref(""));
}

#[test]
fn bogus_frame_changes_nothing() {
    let mut chat = Chat::new();
    chat.on_frame(users_frame(&["alice"]));
    chat.on_frame(message_frame(r#"{"from":"alice","message":"hi"}"#));
    let r = chat.update(Msg::HandleMsg(Err(ProtocolError::Unreadable)));
    assert!(!r.rerender);
    assert!(r.outbound.is_none());
    assert_eq!(names(&chat), vec!["alice".to_string()]);
    assert_eq!(log(&chat), vec![("alice".to_string(), "hi".to_string())]);
    let view = chat.render();
    assert_eq!(view.roster.len(), 1);
    assert_eq!(view.bubbles.len(), 1);
}

#[test]
fn malformed_payloads_are_errors() {
    let w = WebSocketMessage { message_type: MsgTypes::Users, data_array: None, data: None };
    assert_eq!(Frame::from_wire(w, None).unwrap_err(), ProtocolError::MissingPayload);
    let w = WebSocketMessage { message_type: MsgTypes::Message, data_array: None, data: None };
    assert_eq!(Frame::from_wire(w, None).unwrap_err(), ProtocolError::MissingPayload);
    let w = WebSocketMessage { message_type: MsgTypes::Register, data_array: None, data: None };
    assert_eq!(Frame::from_wire(w, None).unwrap_err(), ProtocolError::MissingPayload);
    assert_eq!(message_frame("[1,2]").unwrap_err(), ProtocolError::BadPayload);
}

#[test]
fn end_to_end_roster_then_message() {
    let mut chat = Chat::new();
    assert!(chat.update(Msg::HandleMsg(users_frame(&["alice", "bob"]))).rerender);
    assert!(
        chat.update(Msg::HandleMsg(message_frame(r#"{"from":"alice","message":"hi"}"#)))
            .rerender
    );
    let view = chat.render();
    let roster: Vec<(String, String)> =
        view.roster.iter().map(|u| (u.name.clone(), u.avatar.clone())).collect();
    assert_eq!(
        roster,
        vec![
            (
                "alice".to_string(),
                "https://avatars.dicebear.com/api/adventurer-neutral/alice.svg".to_string()
            ),
            (
                "bob".to_string(),
                "https://avatars.dicebear.com/api/adventurer-neutral/bob.svg".to_string()
            ),
        ]
    );
    assert_eq!(view.bubbles.len(), 1);
    assert_eq!(view.bubbles[0].sender, "alice");
    assert_eq!(
        view.bubbles[0].avatar,
        Some("https://avatars.dicebear.com/api/adventurer-neutral/alice.svg".to_string())
    );
    assert!(matches!(&view.bubbles[0].body, Body::Text(t) if t == "hi"));
}

#[test]
fn unknown_sender_is_shown_without_avatar() {
    let mut chat = Chat::new();
    chat.on_frame(users_frame(&["alice"]));
    chat.on_frame(message_frame(r#"{"from":"zed","message":"hi"}"#));
    let view = chat.render();
    assert_eq!(view.bubbles.len(), 1);
    assert_eq!(view.bubbles[0].sender, "zed");
    assert_eq!(view.bubbles[0].avatar, None);
}

#[test]
fn first_roster_entry_wins() {
    let mut chat = Chat::new();
    chat.on_frame(users_frame(&["bob", "alice", "alice"]));
    chat.on_frame(message_frame(r#"{"from":"alice","message":"hi"}"#));
    let view = chat.render();
    assert_eq!(view.roster.len(), 3);
    assert_eq!(
        view.bubbles[0].avatar,
        Some("https://avatars.dicebear.com/api/adventurer-neutral/alice.svg".to_string())
    );
}

#[test]
fn render_is_repeatable() {
    let mut chat = Chat::new();
    chat.on_frame(users_frame(&["alice"]));
    chat.on_frame(message_frame(r#"{"from":"alice","message":"a.gif"}"#));
    let a = chat.render();
    let b = chat.render();
    assert_eq!(a.roster.len(), b.roster.len());
    assert_eq!(a.bubbles[0].sender, b.bubbles[0].sender);
    assert_eq!(a.bubbles[0].avatar, b.bubbles[0].avatar);
}

#[test]
fn quoting_escapes_strings() {
    let m = MessageData { from: "a\"b".to_string(), message: "line\nnext\\".to_string() };
    assert_eq!(encode_payload(&m), r#"{"from":"a\"b","message":"line\nnext\\"}"#);
    assert_eq!(encode_list(&vec![]), "[]");
    assert_eq!(encode_list(&vec!["x".to_string(), "\u{1}".to_string()]), r#"["x","\u0001"]"#);
    let w = WebSocketMessage { message_type: MsgTypes::Users, data_array: None, data: None };
    assert_eq!(encode_wire(&w), r#"{"messageType":"users","dataArray":null,"data":null}"#);
}

#[test]
fn avatar_url_uses_fixed_template() {
    assert_eq!(avatar_url("bob"), "https://avatars.dicebear.com/api/adventurer-neutral/bob.svg");
    assert_eq!(avatar_url(""), "https://avatars.dicebear.com/api/adventurer-neutral/.svg");
}
