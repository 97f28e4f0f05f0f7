//! The daily chat quota of users without an active VIP membership.
//!
//! A user whose VIP membership has not expired may always chat. Any other
//! user has a counter in the cache, under a key made of a configured prefix
//! and the user id; the counter lives for one day. A chat is refused once the
//! counter is above the daily limit; otherwise the counter is created (at 1)
//! or incremented, and the chat goes ahead.
use vstd::prelude::*;
use vstd::string::*;

use crate::text::{int_decimal, parse_i32, push_i64_decimal, spec_parse_i32};

verus! {

/// The largest stored count at which a user without VIP may still chat.
pub const CHAT_PER_DAY_LIMIT: i32 = 20;

/// How long a freshly created counter lives in the cache, in seconds.
pub const CHAT_COUNT_TTL_SECONDS: u64 = 86400;

/// The amount by which an existing counter grows per admitted chat.
pub const CHAT_COUNT_INCREMENT: i64 = 1;

/// What becomes of a request after the stored count has been read.
#[derive(Debug, Clone, Copy, PartialEq, Eq, Structural)]
pub enum QuotaDecision {
    /// Count the chat, then answer it.
    CountThenChat,
    /// Refuse: the daily quota is used up and the VIP membership expired.
    RejectVipExpired,
}

/// How the counter in the cache is to be changed for an admitted chat.
#[derive(Debug, Clone, Copy, PartialEq, Eq, Structural)]
pub enum CountUpdate {
    /// No counter yet: store the initial count with the daily time to live.
    SetInitial,
    /// A counter exists: increment it by `CHAT_COUNT_INCREMENT`.
    Increment,
}

/// Whether a VIP membership that expires at `vip_expire_time` is active at `now`
/// (both in milliseconds since the epoch).
pub open spec fn spec_vip_active(vip_expire_time: int, now: int) -> bool {
    vip_expire_time >= now
}

/// Whether a user without VIP, whose stored count reads as `count`, may chat.
pub open spec fn spec_quota_admits(count: Option<i32>) -> bool {
    match count {
        None => true,
        Some(c) => c <= CHAT_PER_DAY_LIMIT,
    }
}

/// The change to the counter for an admitted chat, given whether one is stored.
pub open spec fn spec_count_update(stored: bool) -> CountUpdate {
    if stored {
        CountUpdate::Increment
    } else {
        CountUpdate::SetInitial
    }
}

/// Whether the VIP membership of a user is still active.
pub fn vip_active(vip_expire_time: i64, now: i64) -> (active: bool)
    ensures
        active == spec_vip_active(vip_expire_time as int, now as int),
        active == (vip_expire_time >= now),
{
    vip_expire_time >= now
}

/// The cache key of a user's daily counter: `"{prefix}:{user_id}"`.
pub fn quota_key(prefix: &str, user_id: i64) -> (key: String)
    ensures
        key@ == prefix@ + ":"@ + int_decimal(user_id as int),
{
    let mut key = String::new();
    key.append(prefix);
    key.append(":");
    push_i64_decimal(&mut key, user_id);
    key
}

/// Reads a stored count; `None` where the stored text is not an `i32`.
pub fn parse_chat_count(stored: &str) -> (count: Option<i32>)
    ensures
        count == spec_parse_i32(stored@),
{
    parse_i32(stored)
}

/// Decides on a request of a user without VIP, from the stored count.
pub fn quota_decision(count: Option<i32>) -> (decision: QuotaDecision)
    ensures
        decision == (if spec_quota_admits(count) {
            QuotaDecision::CountThenChat
        } else {
            QuotaDecision::RejectVipExpired
        }),
        count is None ==> decision == QuotaDecision::CountThenChat,
        count matches Some(c) && c <= 20 ==> decision == QuotaDecision::CountThenChat,
        count matches Some(c) && c > 20 ==> decision == QuotaDecision::RejectVipExpired,
{
    match count {
        None => QuotaDecision::CountThenChat,
        Some(c) => if c > CHAT_PER_DAY_LIMIT {
            QuotaDecision::RejectVipExpired
        } else {
            QuotaDecision::CountThenChat
        },
    }
}

/// How to count an admitted chat, given what the cache holds for the key.
pub fn count_update(stored: &Option<String>) -> (update: CountUpdate)
    ensures
        update == spec_count_update(stored is Some),
        stored is None ==> update == CountUpdate::SetInitial,
        stored is Some ==> update == CountUpdate::Increment,
{
    match stored {
        Some(_) => CountUpdate::Increment,
        None => CountUpdate::SetInitial,
    }
}

/// The text stored as the count of a freshly created counter.
pub fn initial_chat_count() -> (text: &'static str)
    ensures
        text@ == "1"@,
        spec_parse_i32(text@) == Some(1i32),
{
    let text = "1";
    proof {
        reveal_strlit("1");
        let body = text@;
        assert(body.drop_last() =~= Seq::<char>::empty());
        assert(crate::text::digits_value(Seq::<char>::empty()) == 0);
    }
    text
}

/// The stored count after an admitted chat, given the count before it.
pub open spec fn count_after_update(count: Option<i32>, update: CountUpdate) -> Option<i32> {
    match update {
        CountUpdate::SetInitial => Some(1i32),
        CountUpdate::Increment => match count {
            Some(c) => Some((c + CHAT_COUNT_INCREMENT) as i32),
            None => None,
        },
    }
}

/// One request of a user without VIP: whether it is admitted, and the stored
/// count after it (unchanged when refused).
pub open spec fn ask_step(count: Option<i32>) -> (bool, Option<i32>) {
    if spec_quota_admits(count) {
        (true, count_after_update(count, spec_count_update(count is Some)))
    } else {
        (false, count)
    }
}

/// How many of `n` consecutive requests of a user without VIP are admitted,
/// starting from the stored count `count`, with nobody else writing the counter.
pub open spec fn admitted_of(n: nat, count: Option<i32>) -> nat
    decreases n,
{
    if n == 0 {
        0
    } else {
        let (admitted, next) = ask_step(count);
        (if admitted { 1nat } else { 0nat }) + admitted_of((n - 1) as nat, next)
    }
}

/// The stored count after `n` consecutive requests of a user without VIP,
/// starting from the stored count `count`, with nobody else writing the counter.
pub open spec fn count_after_requests(n: nat, count: Option<i32>) -> Option<i32>
    decreases n,
{
    if n == 0 {
        count
    } else {
        count_after_requests((n - 1) as nat, ask_step(count).1)
    }
}

proof fn lemma_admitted_from_count(n: nat, c: i32)
    requires
        1 <= c <= CHAT_PER_DAY_LIMIT + 1,
    ensures
        admitted_of(n, Some(c)) == if n <= CHAT_PER_DAY_LIMIT + 1 - c {
            n
        } else {
            (CHAT_PER_DAY_LIMIT + 1 - c) as nat
        },
        count_after_requests(n, Some(c)) == if n <= CHAT_PER_DAY_LIMIT + 1 - c {
            Some((c + n) as i32)
        } else {
            Some((CHAT_PER_DAY_LIMIT + 1) as i32)
        },
    decreases n,
{
    if n > 0 {
        if c <= CHAT_PER_DAY_LIMIT {
            lemma_admitted_from_count((n - 1) as nat, (c + 1) as i32);
        } else {
            lemma_refused_forever((n - 1) as nat, c);
        }
    }
}

proof fn lemma_refused_forever(n: nat, c: i32)
    requires
        c > CHAT_PER_DAY_LIMIT,
    ensures
        admitted_of(n, Some(c)) == 0,
        count_after_requests(n, Some(c)) == Some(c),
    decreases n,
{
    if n > 0 {
        lemma_refused_forever((n - 1) as nat, c);
    }
}

/// A membership is active exactly up to and including its expiry time: it
/// is active whenever now is at or before the expiry, and not once now is
/// past it.
pub proof fn lemma_vip_active_until_expiry(vip_expire_time: int, now: int)
    ensures
        now <= vip_expire_time ==> spec_vip_active(vip_expire_time, now),
        vip_expire_time < now ==> !spec_vip_active(vip_expire_time, now),
{
}

/// A user without VIP is admitted when no count is stored or the stored count
/// is at most 20, and refused when it is above 20.
pub proof fn lemma_quota_admits_up_to_limit(count: Option<i32>)
    ensures
        count is None ==> spec_quota_admits(count),
        count matches Some(c) && c <= 20 ==> spec_quota_admits(count),
        count matches Some(c) && c > 20 ==> !spec_quota_admits(count),
{
}

/// The daily quota: of `n` consecutive chat requests by a user without an
/// active VIP membership, starting with no counter stored and nobody else
/// writing it, exactly `min(n, 21)` are admitted (the first creates the
/// counter, twenty more are admitted while it is at most the limit), and
/// afterwards the stored count is `min(n, 21)` (no counter if `n` is 0).
pub proof fn lemma_daily_chat_quota(n: nat)
    ensures
        admitted_of(n, None) == if n <= CHAT_PER_DAY_LIMIT + 1 {
            n
        } else {
            (CHAT_PER_DAY_LIMIT + 1) as nat
        },
        count_after_requests(n, None) == if n == 0 {
            None
        } else if n <= CHAT_PER_DAY_LIMIT + 1 {
            Some(n as i32)
        } else {
            Some((CHAT_PER_DAY_LIMIT + 1) as i32)
        },
{
    if n > 0 {
        lemma_admitted_from_count((n - 1) as nat, 1i32);
    }
}

/// Once a counter is above the limit, every further request is refused and
/// the counter stays as it is.
pub proof fn lemma_refusal_is_stable(count: i32)
    requires
        count > CHAT_PER_DAY_LIMIT,
    ensures
        ask_step(Some(count)) == (false, Some(count)),
{
}

/// An admitted request of a user with a stored count raises it by one.
pub proof fn lemma_admitted_request_increments(count: i32)
    requires
        count <= CHAT_PER_DAY_LIMIT,
    ensures
        ask_step(Some(count)).1 == Some((count + 1) as i32),
{
}

} // verus!
