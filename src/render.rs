//! The projection of a chat's state into what its view shows: the roster in
//! its order, and one bubble per logged message, oldest first. Nothing here
//! changes the state, so drawing the same state twice gives the same result.

use vstd::prelude::*;

use crate::chat::{Chat, ChatModel, UserProfile};
use crate::wire::MessageData;

verus! {

/// A message body that ends in `.gif` is shown as an image at that address;
/// any other body as text. The test is on the suffix alone.
pub open spec fn is_image_body(b: Seq<char>) -> bool {
    b.len() >= 4 && b.subrange(b.len() - 4, b.len() as int) == ".gif"@
}

/// The avatar of the first roster entry with this name, if there is one.
pub open spec fn avatar_for(roster: Seq<(Seq<char>, Seq<char>)>, name: Seq<char>) -> Option<
    Seq<char>,
>
    decreases roster.len(),
{
    if roster.len() == 0 {
        None
    } else if roster[0].0 == name {
        Some(roster[0].1)
    } else {
        avatar_for(roster.drop_first(), name)
    }
}

/// How a message body is shown.
#[derive(Clone, Debug)]
pub enum Body {
    /// An image, at the address that the body holds.
    Image(String),
    /// The body as it is.
    Text(String),
}

/// One message of the log as shown. A sender that is not on the roster has
/// no avatar: the message is still shown, without it.
#[derive(Clone, Debug)]
pub struct Bubble {
    pub sender: String,
    pub avatar: Option<String>,
    pub body: Body,
}

/// Everything that the view shows.
#[derive(Clone, Debug)]
pub struct ChatView {
    pub roster: Vec<UserProfile>,
    pub bubbles: Vec<Bubble>,
}

pub enum BodyModel {
    Image(Seq<char>),
    Text(Seq<char>),
}

pub struct BubbleModel {
    pub sender: Seq<char>,
    pub avatar: Option<Seq<char>>,
    pub body: BodyModel,
}

pub struct ViewModel {
    pub roster: Seq<(Seq<char>, Seq<char>)>,
    pub bubbles: Seq<BubbleModel>,
}

impl View for Body {
    type V = BodyModel;

    open spec fn view(&self) -> BodyModel {
        match self {
            Body::Image(s) => BodyModel::Image(s@),
            Body::Text(s) => BodyModel::Text(s@),
        }
    }
}

impl View for Bubble {
    type V = BubbleModel;

    open spec fn view(&self) -> BubbleModel {
        BubbleModel {
            sender: self.sender@,
            avatar: match self.avatar {
                Some(a) => Some(a@),
                None => None,
            },
            body: self.body@,
        }
    }
}

impl View for ChatView {
    type V = ViewModel;

    open spec fn view(&self) -> ViewModel {
        ViewModel {
            roster: self.roster@.map_values(|u: UserProfile| u@),
            bubbles: self.bubbles@.map_values(|b: Bubble| b@),
        }
    }
}

pub open spec fn body_of(b: Seq<char>) -> BodyModel {
    if is_image_body(b) {
        BodyModel::Image(b)
    } else {
        BodyModel::Text(b)
    }
}

pub open spec fn bubble_of(
    roster: Seq<(Seq<char>, Seq<char>)>,
    m: (Seq<char>, Seq<char>),
) -> BubbleModel {
    BubbleModel { sender: m.0, avatar: avatar_for(roster, m.0), body: body_of(m.1) }
}

/// What the view shows of a state.
pub open spec fn render_model(m: ChatModel) -> ViewModel {
    ViewModel {
        roster: m.roster,
        bubbles: m.log.map_values(|x: (Seq<char>, Seq<char>)| bubble_of(m.roster, x)),
    }
}

/// Whether a message body is shown as an image: it ends in `.gif`.
pub fn is_image_ref(body: &str) -> (r: bool)
    ensures
        r == is_image_body(body@),
{
    proof {
        reveal_strlit(".gif");
    }
    let n = body.unicode_len();
    if n < 4 {
        return false;
    }
    let r = body.get_char(n - 4) == '.' && body.get_char(n - 3) == 'g' && body.get_char(n - 2)
        == 'i' && body.get_char(n - 1) == 'f';
    let ghost tail = body@.subrange(n - 4, n as int);
    proof {
        if r {
            assert(tail =~= ".gif"@);
        } else if tail == ".gif"@ {
            assert(tail[0] == body@[n - 4]);
            assert(tail[1] == body@[n - 3]);
            assert(tail[2] == body@[n - 2]);
            assert(tail[3] == body@[n - 1]);
        }
    }
    r
}

/// How a message body is shown.
pub fn body_for(body: &String) -> (r: Body)
    ensures
        r@ == body_of(body@),
{
    if is_image_ref(body.as_str()) {
        Body::Image(body.clone())
    } else {
        Body::Text(body.clone())
    }
}

/// The avatar of the first user of the roster with this name, if any.
pub fn find_avatar(users: &Vec<UserProfile>, name: &String) -> (r: Option<String>)
    ensures
        r matches Some(a) ==> avatar_for(users@.map_values(|u: UserProfile| u@), name@) == Some(
            a@,
        ),
        r is None ==> avatar_for(users@.map_values(|u: UserProfile| u@), name@) is None,
{
    let ghost roster = users@.map_values(|u: UserProfile| u@);
    assert(roster.subrange(0, roster.len() as int) =~= roster);
    let mut i: usize = 0;
    while i < users.len()
        invariant
            i <= users.len(),
            roster == users@.map_values(|u: UserProfile| u@),
            avatar_for(roster, name@) == avatar_for(
                roster.subrange(i as int, roster.len() as int),
                name@,
            ),
        decreases users.len() - i,
    {
        let ghost rest = roster.subrange(i as int, roster.len() as int);
        assert(rest[0] == roster[i as int]);
        if users[i].name == *name {
            return Some(users[i].avatar.clone());
        }
        assert(rest.drop_first() =~= roster.subrange(i + 1, roster.len() as int));
        i = i + 1;
    }
    None
}

/// The bubble that shows one message.
pub fn bubble_for(users: &Vec<UserProfile>, m: &MessageData) -> (r: Bubble)
    ensures
        r@ == bubble_of(users@.map_values(|u: UserProfile| u@), m@),
{
    let avatar = find_avatar(users, &m.from);
    Bubble { sender: m.from.clone(), avatar, body: body_for(&m.message) }
}

impl Chat {
    /// What the view shows of this chat.
    pub fn render(&self) -> (r: ChatView)
        ensures
            r@ == render_model(self@),
    {
        let users = self.users();
        let messages = self.messages();
        let ghost roster = users@.map_values(|u: UserProfile| u@);
        let ghost log = messages@.map_values(|m: MessageData| m@);
        let mut shown: Vec<UserProfile> = Vec::new();
        let mut i: usize = 0;
        while i < users.len()
            invariant
                i <= users.len(),
                roster == users@.map_values(|u: UserProfile| u@),
                shown@.map_values(|u: UserProfile| u@) =~= roster.subrange(0, i as int),
            decreases users.len() - i,
        {
            let p = UserProfile { name: users[i].name.clone(), avatar: users[i].avatar.clone() };
            assert(p@ == roster[i as int]);
            shown.push(p);
            assert(shown@.map_values(|u: UserProfile| u@) =~= roster.subrange(0, i as int).push(
                roster[i as int],
            ));
            assert(roster.subrange(0, i as int).push(roster[i as int]) =~= roster.subrange(
                0,
                i + 1,
            ));
            i = i + 1;
        }
        let mut bubbles: Vec<Bubble> = Vec::new();
        let mut j: usize = 0;
        while j < messages.len()
            invariant
                j <= messages.len(),
                roster == users@.map_values(|u: UserProfile| u@),
                log == messages@.map_values(|m: MessageData| m@),
                bubbles@.map_values(|b: Bubble| b@) =~= log.subrange(0, j as int).map_values(
                    |x: (Seq<char>, Seq<char>)| bubble_of(roster, x),
                ),
            decreases messages.len() - j,
        {
            let b = bubble_for(users, &messages[j]);
            assert(messages[j as int]@ == log[j as int]);
            bubbles.push(b);
            assert(log.subrange(0, j + 1) =~= log.subrange(0, j as int).push(log[j as int]));
            assert(log.subrange(0, j + 1).map_values(
                |x: (Seq<char>, Seq<char>)| bubble_of(roster, x),
            ) =~= log.subrange(0, j as int).map_values(
                |x: (Seq<char>, Seq<char>)| bubble_of(roster, x),
            ).push(bubble_of(roster, log[j as int])));
            assert(bubbles@.map_values(|b: Bubble| b@) =~= log.subrange(0, j + 1).map_values(
                |x: (Seq<char>, Seq<char>)| bubble_of(roster, x),
            ));
            j = j + 1;
        }
        assert(roster.subrange(0, users.len() as int) =~= roster);
        assert(log.subrange(0, messages.len() as int) =~= log);
        ChatView { roster: shown, bubbles }
    }
}

} // verus!
