use custos::{classify, get_new_chat_members, ChatEvent, ChatId, MemberId, MessageId, Payload, Update, User};

fn user(id: i64) -> User {
    User { id: MemberId(id), is_bot: false }
}

fn update(payload: Payload) -> Update {
    Update { chat_id: ChatId(-1001), message_id: MessageId(7), payload }
}

#[test]
fn added_members_are_extracted_in_delivery_order() {
    let update = update(Payload::NewChatMembers(vec![user(30), user(10), user(20)]));
    assert_eq!(
        get_new_chat_members(&update),
        Some(vec![MemberId(30), MemberId(10), MemberId(20)])
    );
}

#[test]
fn a_member_added_twice_is_listed_twice() {
    let update = update(Payload::NewChatMembers(vec![user(5), user(5)]));
    assert_eq!(get_new_chat_members(&update), Some(vec![MemberId(5), MemberId(5)]));
}

#[test]
fn bots_are_members_like_any_other() {
    let bot = User { id: MemberId(99), is_bot: true };
    let update = update(Payload::NewChatMembers(vec![bot]));
    assert_eq!(get_new_chat_members(&update), Some(vec![MemberId(99)]));
}

#[test]
fn an_empty_list_of_added_members_is_still_a_list() {
    let update = update(Payload::NewChatMembers(vec![]));
    assert_eq!(get_new_chat_members(&update), Some(vec![]));
}

#[test]
fn a_departure_reports_no_added_members() {
    assert_eq!(get_new_chat_members(&update(Payload::LeftChatMember(user(1)))), None);
}

#[test]
fn other_payloads_report_no_added_members() {
    assert_eq!(get_new_chat_members(&update(Payload::Other)), None);
}

#[test]
fn added_members_classify_as_new_members() {
    let update = update(Payload::NewChatMembers(vec![user(1), user(2)]));
    assert_eq!(
        classify(&update),
        ChatEvent::NewMembers { members: vec![MemberId(1), MemberId(2)], trigger: MessageId(7) }
    );
}

#[test]
fn an_empty_list_of_added_members_classifies_as_new_members() {
    let update = update(Payload::NewChatMembers(vec![]));
    assert_eq!(classify(&update), ChatEvent::NewMembers { members: vec![], trigger: MessageId(7) });
}

#[test]
fn a_departure_classifies_as_member_left_without_members() {
    let update = update(Payload::LeftChatMember(user(1)));
    assert_eq!(classify(&update), ChatEvent::MemberLeft { trigger: MessageId(7) });
}

#[test]
fn anything_else_classifies_as_other() {
    assert_eq!(classify(&update(Payload::Other)), ChatEvent::Other);
}

#[test]
fn the_trigger_is_the_message_that_carries_the_update() {
    let update = Update {
        chat_id: ChatId(1),
        message_id: MessageId(i64::MAX),
        payload: Payload::LeftChatMember(user(1)),
    };
    assert_eq!(classify(&update), ChatEvent::MemberLeft { trigger: MessageId(i64::MAX) });
}

#[test]
fn classifying_twice_gives_the_same_event() {
    let update = update(Payload::NewChatMembers(vec![user(3), user(1), user(2)]));
    let first = classify(&update);
    let second = classify(&update);
    assert_eq!(first, second);
    let copy = update.clone();
    assert_eq!(classify(&copy), first);
}

#[test]
fn classifying_leaves_the_update_as_it_was() {
    let update = update(Payload::NewChatMembers(vec![user(3), user(1)]));
    let before = update.clone();
    let _ = classify(&update);
    assert_eq!(update, before);
}
