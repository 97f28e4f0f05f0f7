use chat_server::requests::{
    conversation_item_page_plan, conversation_page_plan, page_plan, title_like_pattern,
    ConversationItemReq, ConversationReq, PagePlan,
};

#[test]
fn missing_page_defaults_differ_between_query_and_reply() {
    assert_eq!(
        page_plan(None, None),
        PagePlan { query_page_num: 1, query_page_size: 9, reply_page_num: 1, reply_page_size: 10 }
    );
    assert_eq!(
        page_plan(Some(3), Some(25)),
        PagePlan { query_page_num: 3, query_page_size: 25, reply_page_num: 3, reply_page_size: 25 }
    );
    assert_eq!(
        page_plan(Some(2), None),
        PagePlan { query_page_num: 2, query_page_size: 9, reply_page_num: 2, reply_page_size: 10 }
    );
}

#[test]
fn title_filter_matches_any_containing_title() {
    assert_eq!(title_like_pattern("rust"), "%rust%");
    assert_eq!(title_like_pattern(""), "%%");
    assert_eq!(title_like_pattern("50%_off"), "%50%_off%");
    let plan = conversation_page_plan(&ConversationReq { title: Some("abc".to_string()), page_num: None, page_size: Some(5) });
    assert_eq!(plan.title_pattern, Some("%abc%".to_string()));
    assert_eq!(plan.page, page_plan(None, Some(5)));
    let plan = conversation_page_plan(&ConversationReq { title: None, page_num: Some(4), page_size: None });
    assert_eq!(plan.title_pattern, None);
    assert_eq!(plan.page.query_page_num, 4);
}

#[test]
fn item_listing_is_filtered_by_conversation() {
    let plan = conversation_item_page_plan(&ConversationItemReq { cid: 77, page_num: None, page_size: None });
    assert_eq!(plan.cid, 77);
    assert_eq!(plan.page, page_plan(None, None));
}
