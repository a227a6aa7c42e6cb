//! What each printed line about an incoming message says: who sent it and
//! what it holds.
use vstd::prelude::*;
use vstd::string::*;

verus! {

/// Whether a character has the Unicode `White_Space` property, the set of
/// characters that `char::is_whitespace` accepts.
pub open spec fn white_space(c: char) -> bool {
    let n = c as u32;
    (0x9 <= n && n <= 0xD) || n == 0x20 || n == 0x85 || n == 0xA0 || n == 0x1680 || (0x2000 <= n
        && n <= 0x200A) || n == 0x2028 || n == 0x2029 || n == 0x202F || n == 0x205F || n == 0x3000
}

pub fn is_white(c: char) -> (r: bool)
    ensures
        r == white_space(c),
{
    let n = c as u32;
    (0x9 <= n && n <= 0xD) || n == 0x20 || n == 0x85 || n == 0xA0 || n == 0x1680 || (0x2000 <= n
        && n <= 0x200A) || n == 0x2028 || n == 0x2029 || n == 0x202F || n == 0x205F || n == 0x3000
}

/// Nothing but white space (what `trim` leaves empty).
pub open spec fn blank(s: Seq<char>) -> bool {
    forall|i: int| 0 <= i < s.len() ==> white_space(#[trigger] s[i])
}

pub fn is_blank(s: &str) -> (r: bool)
    ensures
        r == blank(s@),
{
    let n = s.unicode_len();
    let mut i: usize = 0;
    while i < n
        invariant
            n == s@.len(),
            i <= n,
            forall|j: int| 0 <= j < i ==> white_space(#[trigger] s@[j]),
        decreases n - i,
    {
        if !is_white(s.get_char(i)) {
            return false;
        }
        i = i + 1;
    }
    true
}

/// The sender of a message, as far as its label needs.
#[derive(Debug, PartialEq, Eq)]
pub struct Sender {
    pub username: Option<String>,
    pub first_name: String,
    pub last_name: Option<String>,
}

/// Given name, then a space and the family name when there is a non-empty one.
pub open spec fn full_name(user: Sender) -> Seq<char> {
    match user.last_name {
        Some(l) if l@.len() > 0 => user.first_name@ + " "@ + l@,
        _ => user.first_name@,
    }
}

/// `@handle` when there is a handle, else the full name, else a placeholder.
pub open spec fn user_label(user: Sender) -> Seq<char> {
    match user.username {
        Some(u) => "@"@ + u@,
        None => if blank(full_name(user)) {
            "<no-name>"@
        } else {
            full_name(user)
        },
    }
}

pub fn format_user(user: &Sender) -> (r: String)
    ensures
        r@ == user_label(*user),
{
    match &user.username {
        Some(u) => {
            let mut s = String::from_str("@");
            s.append(u.as_str());
            s
        },
        None => {
            let mut name = String::from_str(user.first_name.as_str());
            match &user.last_name {
                Some(l) => {
                    if l.unicode_len() > 0 {
                        name.append(" ");
                        name.append(l.as_str());
                    }
                },
                None => {},
            }
            if is_blank(name.as_str()) {
                String::from_str("<no-name>")
            } else {
                name
            }
        },
    }
}

pub open spec fn sender_text(sender: Option<Sender>) -> Seq<char> {
    match sender {
        Some(u) => user_label(u),
        None => "<unknown user>"@,
    }
}

/// The label of a message's sender, or a placeholder when it has none.
pub fn sender_label(sender: &Option<Sender>) -> (r: String)
    ensures
        r@ == sender_text(*sender),
{
    match sender {
        Some(u) => format_user(u),
        None => String::from_str("<unknown user>"),
    }
}

/// The text, else the caption, else the message kind in angle brackets.
pub open spec fn content_text(text: Option<String>, caption: Option<String>, kind: Seq<char>) -> Seq<
    char,
> {
    match text {
        Some(t) => t@,
        None => match caption {
            Some(c) => c@,
            None => "<"@ + kind + ">"@,
        },
    }
}

pub fn message_content(text: Option<String>, caption: Option<String>, kind: &str) -> (r: String)
    ensures
        r@ == content_text(text, caption, kind@),
{
    match text {
        Some(t) => t,
        None => match caption {
            Some(c) => c,
            None => {
                let mut s = String::from_str("<");
                s.append(kind);
                s.append(">");
                s
            },
        },
    }
}

pub open spec fn line_text(
    timestamp: Seq<char>,
    chat: Seq<char>,
    user: Seq<char>,
    content: Seq<char>,
) -> Seq<char> {
    "["@ + timestamp + "] chat_id="@ + chat + " user="@ + user + " text="@ + content
}

/// The printed line: `[timestamp] chat_id=... user=... text=...`.
pub fn message_line(timestamp: &str, chat: &str, user: &str, content: &str) -> (r: String)
    ensures
        r@ == line_text(timestamp@, chat@, user@, content@),
{
    let mut s = String::from_str("[");
    s.append(timestamp);
    s.append("] chat_id=");
    s.append(chat);
    s.append(" user=");
    s.append(user);
    s.append(" text=");
    s.append(content);
    s
}

} // verus!
