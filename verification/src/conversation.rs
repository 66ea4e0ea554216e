//! The conversation with the chat model: its history, and how a reply of the
//! model is split into what is kept about the user and what the user is told.
use vstd::prelude::*;
use vstd::string::*;

use crate::text::{
    is_byte_boundary, byte_suffix, chars_of, find_chars, find_first, lemma_byte_suffix_of_ascii_prefix,
    lemma_find_from_is_first, skip_bytes, utf8_len, find_from,
};

verus! {

/// The author of a message in the conversation.
#[derive(Clone, Copy, Debug, PartialEq, Eq, Structural)]
pub enum Role {
    System,
    User,
    Assistant,
    Function,
    Tool,
    Developer,
}

/// One message of the conversation.
#[derive(Debug)]
pub struct ChatMessage {
    pub role: Role,
    pub content: Option<String>,
}

/// What a message holds, as plain values.
pub struct ChatMessageView {
    pub role: Role,
    pub content: Option<Seq<char>>,
}

impl View for ChatMessage {
    type V = ChatMessageView;

    open spec fn view(&self) -> ChatMessageView {
        ChatMessageView {
            role: self.role,
            content: match self.content {
                Some(c) => Some(c@),
                None => None,
            },
        }
    }
}

/// The views of a conversation's messages, in order.
pub open spec fn history_view(messages: Seq<ChatMessage>) -> Seq<ChatMessageView> {
    messages.map_values(|m: ChatMessage| m@)
}

/// The marker after which a reply of the model addresses the user.
pub const REPLY_TO_USER: &'static str = "Reply to User: ";

/// Bytes of the header ("Reply to Admin: ") in front of what the model
/// wants remembered about the user.
pub const ADMIN_HEADER_BYTES: usize = 16;

/// Bytes of the marker in front of what the user is told.
pub const USER_HEADER_BYTES: usize = 15;

/// Why a reply of the model could not be read.
#[derive(Clone, Copy, Debug, PartialEq, Eq, Structural)]
pub enum ReplyError {
    /// The reply has no text.
    MissingContent,
    /// The text holds no "Reply to User: ".
    MissingUserReply,
    /// What precedes "Reply to User: " is shorter than the admin header, or
    /// its sixteenth byte ends inside a character.
    AdminReplyTooShort,
}

/// A reply of the model, split in two.
#[derive(Debug)]
pub struct BotReply {
    /// What the model asks to be kept about the user.
    pub admin_info: String,
    /// What the user is told, from "Reply to User: " on.
    pub user_answer: String,
}

/// How a reply's text splits: the part after the admin header and before
/// the first "Reply to User: ", and the rest from that marker on.
pub open spec fn split_reply(content: Seq<char>) -> Result<(Seq<char>, Seq<char>), ReplyError> {
    match find_first(content, REPLY_TO_USER@) {
        None => Err(ReplyError::MissingUserReply),
        Some(p) => match byte_suffix(content.take(p), ADMIN_HEADER_BYTES as nat) {
            None => Err(ReplyError::AdminReplyTooShort),
            Some(info) => Ok((info, content.skip(p))),
        },
    }
}

/// The text shown to the user for an answer that starts with the marker.
pub open spec fn shown_answer(user_answer: Seq<char>) -> Option<Seq<char>> {
    byte_suffix(user_answer, USER_HEADER_BYTES as nat)
}

/// A message that holds `content`, written by `role`.
pub fn new_message(role: Role, content: String) -> (m: ChatMessage)
    ensures
        m@ == (ChatMessageView { role: role, content: Some(content@) }),
{
    ChatMessage { role, content: Some(content) }
}

/// A copy of `m`.
pub fn copy_message(m: &ChatMessage) -> (r: ChatMessage)
    ensures
        r@ == m@,
{
    let content = match &m.content {
        Some(c) => Some(c.clone()),
        None => None,
    };
    ChatMessage { role: m.role, content }
}

/// A copy of a whole conversation.
pub fn copy_history(messages: &Vec<ChatMessage>) -> (r: Vec<ChatMessage>)
    ensures
        history_view(r@) == history_view(messages@),
{
    let mut r: Vec<ChatMessage> = Vec::new();
    let mut i: usize = 0;
    while i < messages.len()
        invariant
            i <= messages.len(),
            history_view(r@) == history_view(messages@).take(i as int),
        decreases messages.len() - i,
    {
        let m = copy_message(&messages[i]);
        let ghost before = r@;
        r.push(m);
        assert(r@ == before.push(m));
        assert(history_view(r@) =~= history_view(before).push(m@));
        i = i + 1;
        assert(history_view(r@) =~= history_view(messages@).take(i as int));
    }
    assert(history_view(messages@).take(messages.len() as int) =~= history_view(messages@));
    r
}

/// A new conversation: the system prompt alone.
pub fn create_bot(prompt: String) -> (messages: Vec<ChatMessage>)
    ensures
        history_view(messages@) == seq![ChatMessageView { role: Role::System, content: Some(prompt@) }],
{
    let mut messages: Vec<ChatMessage> = Vec::new();
    messages.push(new_message(Role::System, prompt));
    assert(history_view(messages@) =~= seq![ChatMessageView { role: Role::System, content: Some(prompt@) }]);
    messages
}

/// Adds what the user said to the conversation.
pub fn add_user_message(messages: &mut Vec<ChatMessage>, content: String)
    ensures
        history_view(final(messages)@) == history_view(old(messages)@).push(
            ChatMessageView { role: Role::User, content: Some(content@) },
        ),
{
    let m = new_message(Role::User, content);
    messages.push(m);
    assert(history_view(final(messages)@) =~= history_view(old(messages)@).push(
        ChatMessageView { role: Role::User, content: Some(content@) },
    ));
}

/// Splits the text of a reply as `split_reply` says.
pub fn split_reply_text(content: &str) -> (r: Result<BotReply, ReplyError>)
    ensures
        match split_reply(content@) {
            Ok((info, answer)) => r matches Ok(b) && b.admin_info@ == info && b.user_answer@
                == answer,
            Err(e) => r == Err::<BotReply, ReplyError>(e),
        },
{
    let chars = chars_of(content);
    let marker = chars_of(REPLY_TO_USER);
    match find_chars(&chars, &marker) {
        None => Err(ReplyError::MissingUserReply),
        Some(p) => {
            proof {
                lemma_find_from_is_first(content@, REPLY_TO_USER@, 0);
            }
            let admin = content.substring_char(0, p);
            assert(admin@ =~= content@.take(p as int));
            match skip_bytes(admin, ADMIN_HEADER_BYTES) {
                None => Err(ReplyError::AdminReplyTooShort),
                Some(info) => {
                    let answer = content.substring_char(p, chars.len());
                    assert(answer@ =~= content@.skip(p as int));
                    Ok(BotReply { admin_info: info, user_answer: answer.to_owned() })
                },
            }
        },
    }
}

/// Reads the model's reply to the last message. Where the reply can be read,
/// it joins the conversation and its two parts come back; where not, the
/// conversation is left as it was and the error says why.
pub fn accept_bot_reply(messages: &mut Vec<ChatMessage>, reply: ChatMessage) -> (r: Result<
    BotReply,
    ReplyError,
>)
    ensures
        reply.content is None ==> r == Err::<BotReply, ReplyError>(ReplyError::MissingContent)
            && final(messages)@ == old(messages)@,
        reply.content matches Some(c) ==> match split_reply(c@) {
            Ok((info, answer)) => {
                &&& r matches Ok(b) && b.admin_info@ == info && b.user_answer@ == answer
                &&& history_view(final(messages)@) == history_view(old(messages)@).push(reply@)
            },
            Err(e) => r == Err::<BotReply, ReplyError>(e) && final(messages)@ == old(messages)@,
        },
{
    let parts = match &reply.content {
        None => {
            return Err(ReplyError::MissingContent);
        },
        Some(c) => split_reply_text(c.as_str()),
    };
    match parts {
        Err(e) => Err(e),
        Ok(b) => {
            let ghost v = reply@;
            messages.push(reply);
            assert(history_view(final(messages)@) =~= history_view(old(messages)@).push(v));
            Ok(b)
        },
    }
}

/// The text shown to the user for an answer: what follows its first
/// fifteen bytes (the marker), or `None` where the answer is shorter or its
/// fifteenth byte ends inside a character.
pub fn displayed_answer(user_answer: &str) -> (r: Option<String>)
    ensures
        r is Some <==> shown_answer(user_answer@) is Some,
        r matches Some(t) ==> t@ == shown_answer(user_answer@)->Some_0,
{
    skip_bytes(user_answer, USER_HEADER_BYTES)
}

/// The text shown for an answer is the answer without its first fifteen
/// characters when those take one byte each; an answer of fewer than fifteen
/// bytes shows nothing.
pub proof fn lemma_shown_answer_drops_the_marker(head: Seq<char>, line: Seq<char>)
    requires
        head.len() == 15,
        forall|i: int| 0 <= i < 15 ==> (#[trigger] head[i] as u32) < 0x80,
    ensures
        shown_answer(head + line) == Some(line),
        forall|a: Seq<char>| utf8_len(a) < 15 ==> #[trigger] shown_answer(a) is None,
{
    lemma_marker_is_ascii();
    let r = head + line;
    assert forall|i: int| 0 <= i < 15 implies (#[trigger] r[i] as u32) < 0x80 by {
        assert(r[i] == head[i]);
    }
    assert(r.skip(15) =~= line);
    lemma_byte_suffix_of_ascii_prefix(r, 15);
    assert forall|a: Seq<char>| utf8_len(a) < 15 implies #[trigger] shown_answer(a) is None by {
        assert forall|k: int| 0 <= k <= a.len() implies #[trigger] utf8_len(a.take(k)) != 15 by {
            if k < a.len() {
                crate::text::lemma_utf8_len_strictly_grows(a, k, a.len() as int);
            }
            assert(a.take(a.len() as int) =~= a);
        }
    }
}

/// The marker is fifteen ASCII characters.
pub proof fn lemma_marker_is_ascii()
    ensures
        REPLY_TO_USER@ == "Reply to User: "@,
        USER_HEADER_BYTES == 15,
        ADMIN_HEADER_BYTES == 16,
        REPLY_TO_USER@.len() == USER_HEADER_BYTES,
        forall|i: int| 0 <= i < REPLY_TO_USER@.len() ==> (#[trigger] REPLY_TO_USER@[i] as u32) < 0x80,
{
    reveal_strlit("Reply to User: ");
}

/// A reply that reads splits without loss: it is the admin header, then
/// the kept info, then the user's answer; the answer starts with the first
/// "Reply to User: ", and what the user is shown is the answer without it.
pub proof fn lemma_reply_parts_cover_reply(content: Seq<char>)
    requires
        split_reply(content) is Ok,
    ensures
        ({
            let (info, answer) = split_reply(content)->Ok_0;
            let header = content.take(content.len() - info.len() - answer.len());
            &&& utf8_len(header) == ADMIN_HEADER_BYTES
            &&& content == header + info + answer
            &&& answer.take(USER_HEADER_BYTES as int) == REPLY_TO_USER@
            &&& shown_answer(answer) == Some(answer.skip(USER_HEADER_BYTES as int))
        }),
{
    lemma_marker_is_ascii();
    lemma_find_from_is_first(content, REPLY_TO_USER@, 0);
    let p = find_first(content, REPLY_TO_USER@)->Some_0;
    let admin = content.take(p);
    let info = byte_suffix(admin, ADMIN_HEADER_BYTES as nat)->Some_0;
    let answer = content.skip(p);
    let k = choose|k: int| 0 <= k <= admin.len() && #[trigger] utf8_len(admin.take(k)) == ADMIN_HEADER_BYTES as nat;
    assert(info == admin.skip(k));
    assert(content.take(content.len() - info.len() - answer.len()) =~= admin.take(k));
    assert(content =~= admin.take(k) + info + answer);
    assert(answer.take(USER_HEADER_BYTES as int) =~= REPLY_TO_USER@);
    lemma_byte_suffix_of_ascii_prefix(answer, USER_HEADER_BYTES as int);
}

/// A reply without "Reply to User: " is refused as such. Where the marker
/// first occurs at `p`, the reply reads exactly when byte 16 of what precedes
/// it starts a character, and then the user's part is everything from `p`
/// on; otherwise it is refused as too short.
pub proof fn lemma_reply_errors(content: Seq<char>)
    ensures
        (forall|q: int|
            0 <= q && q + 15 <= content.len() ==> #[trigger] content.subrange(q, q + 15)
                != "Reply to User: "@) ==> split_reply(content) == Err::<
            (Seq<char>, Seq<char>),
            ReplyError,
        >(ReplyError::MissingUserReply),
        forall|p: int|
            0 <= p && p + 15 <= content.len() && #[trigger] content.subrange(p, p + 15)
                == "Reply to User: "@ && (forall|q: int|
                0 <= q < p ==> #[trigger] content.subrange(q, q + 15) != "Reply to User: "@) ==> {
                &&& (split_reply(content) is Ok <==> is_byte_boundary(content.take(p), 16))
                &&& (!is_byte_boundary(content.take(p), 16) ==> split_reply(content) == Err::<
                    (Seq<char>, Seq<char>),
                    ReplyError,
                >(ReplyError::AdminReplyTooShort))
                &&& (split_reply(content) matches Ok((_, answer)) ==> answer == content.skip(p))
            },
{
    lemma_marker_is_ascii();
    lemma_find_from_is_first(content, REPLY_TO_USER@, 0);
    assert forall|p: int|
        0 <= p && p + 15 <= content.len() && #[trigger] content.subrange(p, p + 15)
            == "Reply to User: "@ && (forall|q: int|
            0 <= q < p ==> #[trigger] content.subrange(q, q + 15) != "Reply to User: "@) implies {
            &&& (split_reply(content) is Ok <==> is_byte_boundary(content.take(p), 16))
            &&& (!is_byte_boundary(content.take(p), 16) ==> split_reply(content) == Err::<
                (Seq<char>, Seq<char>),
                ReplyError,
            >(ReplyError::AdminReplyTooShort))
            &&& (split_reply(content) matches Ok((_, answer)) ==> answer == content.skip(p))
        } by {
        let f = find_first(content, REPLY_TO_USER@);
        assert(f is Some);
        let p2 = f->Some_0;
        if p2 < p {
            assert(content.subrange(p2, p2 + 15) == "Reply to User: "@);
        }
        assert(p2 == p);
    }
}

/// `find_from` from any start up to an occurrence with none before it gives it.
proof fn lemma_find_from_reaches(hay: Seq<char>, needle: Seq<char>, i: int, target: int)
    requires
        0 <= i <= target,
        target + needle.len() <= hay.len(),
        hay.subrange(target, target + needle.len()) == needle,
        forall|q: int| 0 <= q < target ==> #[trigger] hay.subrange(q, q + needle.len()) != needle,
    ensures
        find_from(hay, needle, i) == Some(target),
    decreases target - i,
{
    if i < target {
        lemma_find_from_reaches(hay, needle, i + 1, target);
    }
}

/// Composing a reply the way the system prompt asks for and reading it
/// gives back its parts: the info after the admin header, and the user's
/// part behind the marker, provided the marker first occurs where the
/// user's part begins.
pub proof fn lemma_split_of_composed_reply(header: Seq<char>, info: Seq<char>, answer: Seq<char>)
    requires
        utf8_len(header) == 16,
        ({
            let whole = header + info + "Reply to User: "@ + answer;
            forall|q: int|
                0 <= q < header.len() + info.len() ==> #[trigger] whole.subrange(
                    q,
                    q + "Reply to User: "@.len(),
                ) != "Reply to User: "@
        }),
    ensures
        split_reply(header + info + "Reply to User: "@ + answer) == Ok::<
            (Seq<char>, Seq<char>),
            ReplyError,
        >((info, "Reply to User: "@ + answer)),
{
    lemma_marker_is_ascii();
    let whole = header + info + REPLY_TO_USER@ + answer;
    let p: int = (header.len() + info.len()) as int;
    assert(whole.subrange(p, p + REPLY_TO_USER@.len()) =~= REPLY_TO_USER@);
    lemma_find_from_reaches(whole, REPLY_TO_USER@, 0, p);
    let admin = whole.take(p);
    assert(admin.take(header.len() as int) =~= header);
    let k = choose|k: int| 0 <= k <= admin.len() && #[trigger] utf8_len(admin.take(k)) == ADMIN_HEADER_BYTES as nat;
    if k < header.len() {
        crate::text::lemma_utf8_len_strictly_grows(admin, k, header.len() as int);
    } else if k > header.len() {
        crate::text::lemma_utf8_len_strictly_grows(admin, header.len() as int, k);
    }
    assert(admin.skip(header.len() as int) =~= info);
    assert(whole.skip(p) =~= REPLY_TO_USER@ + answer);
}

} // verus!
