use chat_server::quota::{
    count_update, initial_chat_count, parse_chat_count, quota_decision, quota_key, vip_active,
    CountUpdate, QuotaDecision, CHAT_COUNT_INCREMENT, CHAT_COUNT_TTL_SECONDS, CHAT_PER_DAY_LIMIT,
};

#[test]
fn vip_membership_active_until_its_expiry_time() {
    assert!(vip_active(1_700_000_000_000, 1_700_000_000_000));
    assert!(vip_active(1_700_000_000_001, 1_700_000_000_000));
    assert!(!vip_active(1_699_999_999_999, 1_700_000_000_000));
}

#[test]
fn quota_key_joins_prefix_and_user_id() {
    assert_eq!(quota_key("chat:per:day", 42), "chat:per:day:42");
    assert_eq!(quota_key("k", 0), "k:0");
    assert_eq!(quota_key("k", -7), "k:-7");
    assert_eq!(quota_key("", i64::MAX), format!(":{}", i64::MAX));
    assert_eq!(quota_key("p", i64::MIN), format!("p:{}", i64::MIN));
}

#[test]
fn stored_counts_read_like_i32_parse() {
    let cases = [
        "0", "1", "21", "+5", "-7", "007", "", "-", "+", "abc", "1a", " 1", "2147483647",
        "2147483648", "-2147483648", "-2147483649", "99999999999999999999", "--1", "+-1",
    ];
    for case in cases {
        assert_eq!(parse_chat_count(case), case.parse::<i32>().ok(), "case {:?}", case);
    }
    assert_eq!(parse_chat_count("21"), Some(21));
    assert_eq!(parse_chat_count("x"), None);
}

#[test]
fn quota_admits_up_to_the_limit() {
    assert_eq!(CHAT_PER_DAY_LIMIT, 20);
    assert_eq!(quota_decision(None), QuotaDecision::CountThenChat);
    assert_eq!(quota_decision(Some(0)), QuotaDecision::CountThenChat);
    assert_eq!(quota_decision(Some(20)), QuotaDecision::CountThenChat);
    assert_eq!(quota_decision(Some(21)), QuotaDecision::RejectVipExpired);
    assert_eq!(quota_decision(Some(i32::MAX)), QuotaDecision::RejectVipExpired);
    assert_eq!(quota_decision(Some(-3)), QuotaDecision::CountThenChat);
}

#[test]
fn counter_created_then_incremented() {
    assert_eq!(count_update(&None), CountUpdate::SetInitial);
    assert_eq!(count_update(&Some("3".to_string())), CountUpdate::Increment);
    assert_eq!(initial_chat_count(), "1");
    assert_eq!(CHAT_COUNT_TTL_SECONDS, 86400);
    assert_eq!(CHAT_COUNT_INCREMENT, 1);
}

/// Plays a day of requests against a counter held in memory; returns the
/// number admitted and the stored counter afterwards.
fn play_day(requests: usize) -> (usize, Option<String>) {
    let mut stored: Option<String> = None;
    let mut admitted = 0;
    for _ in 0..requests {
        let count = stored.as_deref().map(|s| parse_chat_count(s).unwrap());
        if quota_decision(count) == QuotaDecision::CountThenChat {
            admitted += 1;
            stored = Some(match count_update(&stored) {
                CountUpdate::SetInitial => initial_chat_count().to_string(),
                CountUpdate::Increment => (count.unwrap() as i64 + CHAT_COUNT_INCREMENT).to_string(),
            });
        }
    }
    (admitted, stored)
}

fn admitted_of(requests: usize) -> usize {
    play_day(requests).0
}

#[test]
fn daily_quota_admits_twenty_one_chats() {
    assert_eq!(admitted_of(0), 0);
    assert_eq!(admitted_of(1), 1);
    assert_eq!(admitted_of(20), 20);
    assert_eq!(admitted_of(21), 21);
    assert_eq!(admitted_of(22), 21);
    assert_eq!(admitted_of(100), 21);
}

#[test]
fn daily_quota_leaves_the_counter_at_the_admitted_number() {
    assert_eq!(play_day(0).1, None);
    assert_eq!(play_day(1).1, Some("1".to_string()));
    assert_eq!(play_day(20).1, Some("20".to_string()));
    assert_eq!(play_day(21).1, Some("21".to_string()));
    assert_eq!(play_day(30).1, Some("21".to_string()));
}

#[test]
fn counts_written_in_decimal_read_back() {
    for n in [0i32, 1, 9, 10, 21, -1, -10, i32::MAX, i32::MIN] {
        assert_eq!(parse_chat_count(&n.to_string()), Some(n));
    }
}
