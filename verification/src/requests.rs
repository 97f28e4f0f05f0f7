//! Request parameters of the chat and conversation endpoints, and the page
//! queries that the conversation listings run for them.
use vstd::prelude::*;
use vstd::string::*;

verus! {

/// A chat question: the prompt, and the conversation it continues (none, or
/// `0`, to open a new conversation).
#[derive(Debug, Clone, PartialEq, Eq)]
pub struct AskReq {
    pub prompt: String,
    pub cid: Option<i64>,
}

/// A page of conversations, optionally filtered by a part of their title.
#[derive(Debug, Clone, PartialEq, Eq)]
pub struct ConversationReq {
    pub title: Option<String>,
    pub page_num: Option<i64>,
    pub page_size: Option<i64>,
}

/// A page of the items of one conversation.
#[derive(Debug, Clone, PartialEq, Eq)]
pub struct ConversationItemReq {
    pub cid: i64,
    pub page_num: Option<i64>,
    pub page_size: Option<i64>,
}

/// The page numbers and sizes of a listing: those the query runs with, and
/// those the reply reports. When the request leaves them out, the query runs
/// on page 1 with 9 rows, and the reply reports page 1 with 10 rows.
#[derive(Debug, Clone, Copy, PartialEq, Eq, Structural)]
pub struct PagePlan {
    pub query_page_num: i64,
    pub query_page_size: i64,
    pub reply_page_num: i64,
    pub reply_page_size: i64,
}

/// The query of a page of conversations.
#[derive(Debug, Clone, PartialEq, Eq)]
pub struct ConversationPagePlan {
    /// The SQL `LIKE` pattern that titles must match, if any.
    pub title_pattern: Option<String>,
    pub page: PagePlan,
}

/// The query of a page of the items of one conversation.
#[derive(Debug, Clone, PartialEq, Eq)]
pub struct ConversationItemPagePlan {
    /// The conversation whose items are listed.
    pub cid: i64,
    pub page: PagePlan,
}

/// `o.unwrap_or(d)`.
pub open spec fn or_default(o: Option<i64>, d: i64) -> i64 {
    match o {
        Some(v) => v,
        None => d,
    }
}

/// The page plan for the requested page number and size.
pub open spec fn spec_page_plan(page_num: Option<i64>, page_size: Option<i64>) -> PagePlan {
    PagePlan {
        query_page_num: or_default(page_num, 1),
        query_page_size: or_default(page_size, 9),
        reply_page_num: or_default(page_num, 1),
        reply_page_size: or_default(page_size, 10),
    }
}

/// A requested page number or size is used as given, by the query and by
/// the reply alike, whatever the other one is; only a missing one falls back
/// to its default (page 1; 9 rows queried, 10 reported).
pub proof fn lemma_requested_page_is_used(page_num: Option<i64>, page_size: Option<i64>)
    ensures
        page_num matches Some(p) ==> spec_page_plan(page_num, page_size).query_page_num == p
            && spec_page_plan(page_num, page_size).reply_page_num == p,
        page_size matches Some(z) ==> spec_page_plan(page_num, page_size).query_page_size == z
            && spec_page_plan(page_num, page_size).reply_page_size == z,
        page_num is None ==> spec_page_plan(page_num, page_size).query_page_num == 1
            && spec_page_plan(page_num, page_size).reply_page_num == 1,
        page_size is None ==> spec_page_plan(page_num, page_size).query_page_size == 9
            && spec_page_plan(page_num, page_size).reply_page_size == 10,
{
}

/// The page plan for the requested page number and size.
pub fn page_plan(page_num: Option<i64>, page_size: Option<i64>) -> (plan: PagePlan)
    ensures
        plan == spec_page_plan(page_num, page_size),
        page_num matches Some(p) ==> plan.query_page_num == p && plan.reply_page_num == p,
        page_num is None ==> plan.query_page_num == 1 && plan.reply_page_num == 1,
        page_size matches Some(z) ==> plan.query_page_size == z && plan.reply_page_size == z,
        page_size is None ==> plan.query_page_size == 9 && plan.reply_page_size == 10,
{
    PagePlan {
        query_page_num: page_num.unwrap_or(1),
        query_page_size: page_size.unwrap_or(9),
        reply_page_num: page_num.unwrap_or(1),
        reply_page_size: page_size.unwrap_or(10),
    }
}

/// The SQL `LIKE` pattern matching every text that contains `title`
/// (`format!("%{}%", title)`; `%` and `_` in `title` keep their meaning).
pub fn title_like_pattern(title: &str) -> (pattern: String)
    ensures
        pattern@ == "%"@ + title@ + "%"@,
{
    let mut pattern = String::new();
    pattern.append("%");
    pattern.append(title);
    pattern.append("%");
    pattern
}

/// The query of a page of conversations.
pub fn conversation_page_plan(params: &ConversationReq) -> (plan: ConversationPagePlan)
    ensures
        plan.page == spec_page_plan(params.page_num, params.page_size),
        params.title is None ==> plan.title_pattern is None,
        params.title matches Some(t) ==> (plan.title_pattern matches Some(p) && p@ == "%"@ + t@ + "%"@),
        params.page_num matches Some(p) ==> plan.page.query_page_num == p && plan.page.reply_page_num == p,
        params.page_num is None ==> plan.page.query_page_num == 1 && plan.page.reply_page_num == 1,
        params.page_size matches Some(z) ==> plan.page.query_page_size == z && plan.page.reply_page_size == z,
        params.page_size is None ==> plan.page.query_page_size == 9 && plan.page.reply_page_size == 10,
{
    let title_pattern = match &params.title {
        Some(t) => Some(title_like_pattern(t.as_str())),
        None => None,
    };
    ConversationPagePlan { title_pattern, page: page_plan(params.page_num, params.page_size) }
}

/// The query of a page of the items of one conversation.
pub fn conversation_item_page_plan(params: &ConversationItemReq) -> (plan: ConversationItemPagePlan)
    ensures
        plan.cid == params.cid,
        plan.page == spec_page_plan(params.page_num, params.page_size),
        params.page_num matches Some(p) ==> plan.page.query_page_num == p && plan.page.reply_page_num == p,
        params.page_num is None ==> plan.page.query_page_num == 1 && plan.page.reply_page_num == 1,
        params.page_size matches Some(z) ==> plan.page.query_page_size == z && plan.page.reply_page_size == z,
        params.page_size is None ==> plan.page.query_page_size == 9 && plan.page.reply_page_size == 10,
{
    ConversationItemPagePlan { cid: params.cid, page: page_plan(params.page_num, params.page_size) }
}

} // verus!
