use chat_server::conversation::{new_request_id, ConversationAdd, ConversationItemAdd};

fn is_simple_v4_uuid(s: &str) -> bool {
    let chars: Vec<char> = s.chars().collect();
    chars.len() == 32
        && chars.iter().all(|c| c.is_ascii_digit() || ('a'..='f').contains(c))
        && chars[12] == '4'
        && matches!(chars[16], '8' | '9' | 'a' | 'b')
}

#[test]
fn new_conversation_is_titled_with_the_prompt() {
    let c = ConversationAdd::gen_conversation(&"hello".to_string(), &7, 100, 101);
    assert_eq!(
        c,
        ConversationAdd { created_time: 100, title: "hello".to_string(), updated_time: 101, user_id: 7 }
    );
}

#[test]
fn item_records_question_and_answer() {
    let item = ConversationItemAdd::build_conversation_item(
        &"q".to_string(),
        &"a".to_string(),
        5,
        "abc".to_string(),
        1,
        2,
        3,
        4,
    );
    assert_eq!(
        item,
        ConversationItemAdd {
            created_time: 1,
            question: Some("q".to_string()),
            updated_time: Some(2),
            answer: Some("a".to_string()),
            question_time: Some(3),
            answer_time: Some(4),
            cid: 5,
            req_id: Some("abc".to_string()),
        }
    );
}

#[test]
fn generated_item_has_a_dashless_uuid_request_id() {
    let item = ConversationItemAdd::gen_conversation_item(&"q".to_string(), &"".to_string(), 9, 10, 11, 12, 13);
    assert_eq!(item.cid, 9);
    assert_eq!(item.created_time, 10);
    assert_eq!(item.updated_time, Some(11));
    assert_eq!(item.question_time, Some(12));
    assert_eq!(item.answer_time, Some(13));
    assert_eq!(item.answer, Some(String::new()));
    let id = item.req_id.unwrap();
    assert!(is_simple_v4_uuid(&id), "{}", id);
}

#[test]
fn request_ids_are_fresh() {
    let a = new_request_id();
    let b = new_request_id();
    assert!(is_simple_v4_uuid(&a) && is_simple_v4_uuid(&b));
    assert!(!a.contains('-'));
    assert_ne!(a, b);
}
