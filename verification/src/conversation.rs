//! New rows of the conversation tables: a conversation opened by a prompt,
//! and a question/answer item within a conversation.
use vstd::prelude::*;

use crate::text::{lemma_without_dashes_concat, lemma_without_dashes_none, remove_dashes, without_dashes};

verus! {

/// A new row of the `conversation` table.
#[derive(Debug, Clone, Default, PartialEq, Eq)]
pub struct ConversationAdd {
    pub created_time: i64,
    pub title: String,
    pub updated_time: i64,
    pub user_id: i64,
}

/// A new row of the `conversation_item` table.
#[derive(Debug, Clone, Default, PartialEq, Eq)]
pub struct ConversationItemAdd {
    pub created_time: i64,
    pub question: Option<String>,
    pub updated_time: Option<i64>,
    pub answer: Option<String>,
    pub question_time: Option<i64>,
    pub answer_time: Option<i64>,
    pub cid: i64,
    pub req_id: Option<String>,
}

/// The text held by an optional string, by its view.
pub open spec fn opt_text(o: Option<String>) -> Option<Seq<char>> {
    match o {
        Some(s) => Some(s@),
        None => None,
    }
}

/// Whether `c` is a lower-case hexadecimal digit.
pub open spec fn is_lower_hex(c: char) -> bool {
    ('0' <= c <= '9') || ('a' <= c <= 'f')
}

/// The positions of the dashes in the hyphenated form of a UUID.
pub open spec fn is_uuid_dash_position(i: int) -> bool {
    i == 8 || i == 13 || i == 18 || i == 23
}

/// Whether `s` is the lower-case hyphenated text of a random (version 4,
/// RFC 4122 variant) UUID, such as `67e55044-10b1-426f-9247-bb680e5fe0c8`.
pub open spec fn is_hyphenated_v4_uuid(s: Seq<char>) -> bool {
    &&& s.len() == 36
    &&& forall|i: int|
        0 <= i < 36 ==> if is_uuid_dash_position(i) {
            #[trigger] s[i] == '-'
        } else {
            is_lower_hex(s[i])
        }
    &&& s[14] == '4'
    &&& (s[19] == '8' || s[19] == '9' || s[19] == 'a' || s[19] == 'b')
}

/// Whether `s` is the simple (dashless) text of a random UUID: 32 lower-case
/// hexadecimal digits, the version digit `4` and an RFC 4122 variant digit.
pub open spec fn is_simple_v4_uuid(s: Seq<char>) -> bool {
    &&& s.len() == 32
    &&& forall|i: int| 0 <= i < 32 ==> is_lower_hex(#[trigger] s[i])
    &&& s[12] == '4'
    &&& (s[16] == '8' || s[16] == '9' || s[16] == 'a' || s[16] == 'b')
}

/// A fresh random UUID in its hyphenated text form
/// (`uuid::Uuid::new_v4().to_string()`). The outside function gives a
/// different value on each call; what is stated is the form that the
/// `uuid` crate writes for every version 4 UUID: 36 characters, dashes at
/// positions 8, 13, 18 and 23, lower-case hexadecimal digits elsewhere,
/// version digit `4` and a variant digit among `8`, `9`, `a`, `b`.
#[verifier::external_body]
fn new_v4_uuid_text() -> (text: String)
    ensures
        is_hyphenated_v4_uuid(text@),
{
    uuid::Uuid::new_v4().to_string()
}

proof fn lemma_dashless_segment(s: Seq<char>, lo: int, hi: int)
    requires
        is_hyphenated_v4_uuid(s),
        0 <= lo <= hi <= 36,
        forall|i: int| lo <= i < hi ==> !is_uuid_dash_position(i),
    ensures
        without_dashes(s.subrange(lo, hi)) == s.subrange(lo, hi),
        forall|i: int| 0 <= i < hi - lo ==> is_lower_hex(#[trigger] s.subrange(lo, hi)[i]),
{
    let seg = s.subrange(lo, hi);
    assert forall|i: int| 0 <= i < seg.len() implies #[trigger] seg[i] != '-' by {
        assert(seg[i] == s[lo + i]);
        assert(!is_uuid_dash_position(lo + i));
    }
    lemma_without_dashes_none(seg);
    assert forall|i: int| 0 <= i < hi - lo implies is_lower_hex(#[trigger] seg[i]) by {
        assert(seg[i] == s[lo + i]);
        assert(!is_uuid_dash_position(lo + i));
    }
}

/// Taking the dashes out of a hyphenated random UUID gives its simple form.
pub proof fn lemma_uuid_without_dashes(s: Seq<char>)
    requires
        is_hyphenated_v4_uuid(s),
    ensures
        is_simple_v4_uuid(without_dashes(s)),
{
    let a = s.subrange(0, 8);
    let b = s.subrange(9, 13);
    let c = s.subrange(14, 18);
    let d = s.subrange(19, 23);
    let e = s.subrange(24, 36);
    let dash = seq!['-'];
    assert(s[8] == '-' && s[13] == '-' && s[18] == '-' && s[23] == '-');
    assert(s =~= a + dash + b + dash + c + dash + d + dash + e);
    lemma_dashless_segment(s, 0, 8);
    lemma_dashless_segment(s, 9, 13);
    lemma_dashless_segment(s, 14, 18);
    lemma_dashless_segment(s, 19, 23);
    lemma_dashless_segment(s, 24, 36);
    assert(dash.drop_last() =~= Seq::<char>::empty());
    assert(dash.last() == '-');
    assert(without_dashes(Seq::<char>::empty()) =~= Seq::<char>::empty());
    assert(without_dashes(dash) =~= Seq::<char>::empty());
    lemma_without_dashes_concat(a, dash);
    lemma_without_dashes_concat(a + dash, b);
    lemma_without_dashes_concat(a + dash + b, dash);
    lemma_without_dashes_concat(a + dash + b + dash, c);
    lemma_without_dashes_concat(a + dash + b + dash + c, dash);
    lemma_without_dashes_concat(a + dash + b + dash + c + dash, d);
    lemma_without_dashes_concat(a + dash + b + dash + c + dash + d, dash);
    lemma_without_dashes_concat(a + dash + b + dash + c + dash + d + dash, e);
    let r = without_dashes(s);
    assert(r =~= a + b + c + d + e);
    assert forall|i: int| 0 <= i < 32 implies is_lower_hex(#[trigger] r[i]) by {
        if i < 8 {
            assert(r[i] == a[i]);
        } else if i < 12 {
            assert(r[i] == b[i - 8]);
        } else if i < 16 {
            assert(r[i] == c[i - 12]);
        } else if i < 20 {
            assert(r[i] == d[i - 16]);
        } else {
            assert(r[i] == e[i - 20]);
        }
    }
    assert(r[12] == c[0] && c[0] == s[14]);
    assert(r[16] == d[0] && d[0] == s[19]);
}

/// A fresh request id: a random UUID in its simple (dashless) form
/// (`Uuid::new_v4().to_string().replace("-", "")`).
pub fn new_request_id() -> (id: String)
    ensures
        is_simple_v4_uuid(id@),
{
    let text = new_v4_uuid_text();
    let id = remove_dashes(text.as_str());
    proof {
        lemma_uuid_without_dashes(text@);
    }
    id
}

impl ConversationAdd {
    /// The new conversation that a prompt opens for a user, titled with the
    /// prompt; `created_time` and `updated_time` are the two clock readings
    /// (in milliseconds) taken for it.
    pub fn gen_conversation(prompt: &String, uid: &i64, created_time: i64, updated_time: i64) -> (conversation: Self)
        ensures
            conversation.created_time == created_time,
            conversation.title@ == prompt@,
            conversation.updated_time == updated_time,
            conversation.user_id == *uid,
    {
        ConversationAdd { created_time, title: prompt.clone(), updated_time, user_id: *uid }
    }
}

impl ConversationItemAdd {
    /// The item recording a question and its answer in conversation `cid`,
    /// with the request id `req_id` and the four clock readings taken for it.
    pub fn build_conversation_item(
        prompt: &String,
        answer: &String,
        cid: i64,
        req_id: String,
        created_time: i64,
        updated_time: i64,
        question_time: i64,
        answer_time: i64,
    ) -> (item: Self)
        ensures
            item.created_time == created_time,
            item.updated_time == Some(updated_time),
            opt_text(item.question) == Some(prompt@),
            opt_text(item.answer) == Some(answer@),
            item.question_time == Some(question_time),
            item.answer_time == Some(answer_time),
            item.cid == cid,
            opt_text(item.req_id) == Some(req_id@),
    {
        ConversationItemAdd {
            created_time,
            updated_time: Some(updated_time),
            question: Some(prompt.clone()),
            answer: Some(answer.clone()),
            question_time: Some(question_time),
            answer_time: Some(answer_time),
            cid,
            req_id: Some(req_id),
        }
    }

    /// The item recording a question and its answer in conversation `cid`,
    /// under a fresh request id (a random UUID without dashes); the times
    /// are the four clock readings (in milliseconds) taken for it.
    pub fn gen_conversation_item(
        prompt: &String,
        answer: &String,
        cid: i64,
        created_time: i64,
        updated_time: i64,
        question_time: i64,
        answer_time: i64,
    ) -> (item: Self)
        ensures
            item.created_time == created_time,
            item.updated_time == Some(updated_time),
            opt_text(item.question) == Some(prompt@),
            opt_text(item.answer) == Some(answer@),
            item.question_time == Some(question_time),
            item.answer_time == Some(answer_time),
            item.cid == cid,
            item.req_id matches Some(id) && is_simple_v4_uuid(id@),
    {
        let req_id = new_request_id();
        Self::build_conversation_item(
            prompt,
            answer,
            cid,
            req_id,
            created_time,
            updated_time,
            question_time,
            answer_time,
        )
    }
}

} // verus!
