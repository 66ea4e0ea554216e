use kiya::conversation::{
    accept_bot_reply, add_user_message, copy_history, create_bot, displayed_answer,
    split_reply_text, ChatMessage, ReplyError, Role,
};

fn assistant(text: &str) -> ChatMessage {
    ChatMessage { role: Role::Assistant, content: Some(text.to_string()) }
}

#[test]
fn reply_splits_at_user_marker() {
    let r = split_reply_text("Reply to Admin: Likes Chocolate, Reply to User: Hello Dorothy!").unwrap();
    assert_eq!(r.admin_info, "Likes Chocolate, ");
    assert_eq!(r.user_answer, "Reply to User: Hello Dorothy!");
}

#[test]
fn reply_splits_at_first_marker() {
    let r = split_reply_text("Reply to Admin: x Reply to User: a Reply to User: b").unwrap();
    assert_eq!(r.admin_info, "x ");
    assert_eq!(r.user_answer, "Reply to User: a Reply to User: b");
}

#[test]
fn reply_without_user_part_is_refused() {
    let r = split_reply_text("Reply to Admin: No relevant information provided.");
    assert_eq!(r.err(), Some(ReplyError::MissingUserReply));
}

#[test]
fn reply_with_short_admin_part_is_refused() {
    let r = split_reply_text("Hi Reply to User: hello");
    assert_eq!(r.err(), Some(ReplyError::AdminReplyTooShort));
}

#[test]
fn reply_cut_inside_a_character_is_refused() {
    // "Reply to Admin:" takes 15 bytes and 'é' the next two: byte 16 is inside it.
    let r = split_reply_text("Reply to Admin:éReply to User: hi");
    assert_eq!(r.err(), Some(ReplyError::AdminReplyTooShort));
}

#[test]
fn admin_part_of_exactly_the_header_gives_empty_info() {
    let r = split_reply_text("Reply to Admin: Reply to User: hi").unwrap();
    assert_eq!(r.admin_info, "");
    assert_eq!(r.user_answer, "Reply to User: hi");
}

#[test]
fn new_conversation_holds_the_prompt() {
    let m = create_bot("be kind".to_string());
    assert_eq!(m.len(), 1);
    assert_eq!(m[0].role, Role::System);
    assert_eq!(m[0].content.as_deref(), Some("be kind"));
}

#[test]
fn user_message_is_appended() {
    let mut m = create_bot("p".to_string());
    add_user_message(&mut m, "hello".to_string());
    assert_eq!(m.len(), 2);
    assert_eq!(m[1].role, Role::User);
    assert_eq!(m[1].content.as_deref(), Some("hello"));
}

#[test]
fn accepted_reply_joins_conversation() {
    let mut m = create_bot("p".to_string());
    add_user_message(&mut m, "hi".to_string());
    let b = accept_bot_reply(&mut m, assistant("Reply to Admin: Can't drive, Reply to User: Hi!")).unwrap();
    assert_eq!(b.admin_info, "Can't drive, ");
    assert_eq!(b.user_answer, "Reply to User: Hi!");
    assert_eq!(m.len(), 3);
    assert_eq!(m[2].role, Role::Assistant);
    assert_eq!(m[2].content.as_deref(), Some("Reply to Admin: Can't drive, Reply to User: Hi!"));
}

#[test]
fn reply_without_text_leaves_conversation() {
    let mut m = create_bot("p".to_string());
    let r = accept_bot_reply(&mut m, ChatMessage { role: Role::Assistant, content: None });
    assert_eq!(r.err(), Some(ReplyError::MissingContent));
    assert_eq!(m.len(), 1);
}

#[test]
fn unreadable_reply_leaves_conversation() {
    let mut m = create_bot("p".to_string());
    let r = accept_bot_reply(&mut m, assistant("no marker here"));
    assert_eq!(r.err(), Some(ReplyError::MissingUserReply));
    assert_eq!(m.len(), 1);
}

#[test]
fn shown_answer_drops_marker() {
    assert_eq!(displayed_answer("Reply to User: Good morning"), Some("Good morning".to_string()));
    assert_eq!(displayed_answer("Reply to User: "), Some(String::new()));
    assert_eq!(displayed_answer("short"), None);
}

#[test]
fn composed_reply_reads_back_its_parts() {
    let info = "Has 2 grandkids";
    let answer = "How are they?";
    let text = format!("Reply to Admin: {}Reply to User: {}", info, answer);
    let r = split_reply_text(&text).unwrap();
    assert_eq!(r.admin_info, info);
    assert_eq!(displayed_answer(&r.user_answer), Some(answer.to_string()));
}

#[test]
fn history_copy_is_equal() {
    let mut m = create_bot("p".to_string());
    add_user_message(&mut m, "q".to_string());
    let c = copy_history(&m);
    assert_eq!(c.len(), 2);
    assert_eq!(c[0].content.as_deref(), Some("p"));
    assert_eq!(c[1].role, Role::User);
    assert_eq!(c[1].content.as_deref(), Some("q"));
}
