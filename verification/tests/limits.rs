use dichonoia::error::{DecodeError, HttpError, RateLimitError};
use dichonoia::heartbeat::{add_delay, backoff, first_delay, MAX_BACKOFF};
use dichonoia::http::{authorization, get_gateway_bot, read_response, url};
use dichonoia::json::JsonValue;
use dichonoia::ratelimit::bucket::RateLimiter;
use dichonoia::ratelimit::headers::{read_whole_seconds, Header, RateLimitHeaders, RateLimitState};
use dichonoia::ratelimit::token_bucket::{Permit, TokenBucket};
use dichonoia::text::{format_u64, parse_natural, parse_u64, str_eq};

fn headers(bucket: &str, limit: &str, remaining: &str, reset: &str) -> RateLimitHeaders {
    RateLimitHeaders {
        bucket: Header::Text(String::from(bucket)),
        limit: Header::Text(String::from(limit)),
        remaining: Header::Text(String::from(remaining)),
        reset: Header::Text(String::from(reset)),
    }
}

#[test]
fn numbers_are_read_and_written_in_base_ten() {
    assert_eq!(parse_u64("0"), Some(0));
    assert_eq!(parse_u64("+0"), Some(0));
    assert_eq!(parse_u64("000123"), Some(123));
    assert_eq!(parse_u64("18446744073709551615"), Some(u64::MAX));
    assert_eq!(parse_u64("18446744073709551616"), None);
    assert_eq!(parse_u64("99999999999999999999999"), None);
    assert_eq!(parse_u64(""), None);
    assert_eq!(parse_u64("+"), None);
    assert_eq!(parse_u64("-1"), None);
    assert_eq!(parse_u64("1_000"), None);
    assert_eq!(parse_u64("12é"), None);
    assert_eq!(format_u64(0), "0");
    assert_eq!(format_u64(9), "9");
    assert_eq!(format_u64(10), "10");
    assert_eq!(format_u64(1234567890), "1234567890");
    assert_eq!(format_u64(u64::MAX), "18446744073709551615");
    for n in [0u64, 1, 99, 100, 65535, 1 << 40, u64::MAX - 1] {
        assert_eq!(parse_u64(&format_u64(n)), Some(n));
    }
}

#[test]
fn strings_are_compared_by_their_characters() {
    assert!(str_eq("", ""));
    assert!(str_eq("READY", "READY"));
    assert!(!str_eq("READY", "READ"));
    assert!(!str_eq("READY", "REeDY"));
    assert!(str_eq("héllo", "héllo"));
    assert!(!str_eq("héllo", "hèllo"));
}

#[test]
fn a_limiter_needs_a_quota_and_a_period() {
    assert!(TokenBucket::new(0, 1000).is_none());
    assert!(TokenBucket::new(5, 0).is_none());
    let bucket = TokenBucket::new(5, 1000).unwrap();
    assert_eq!(bucket.quota(), 5);
    assert_eq!(bucket.period(), 1000);
}

#[test]
fn the_send_after_the_quota_is_denied() {
    let mut bucket = TokenBucket::new(3, 1000).unwrap();
    assert_eq!(bucket.try_acquire(100), Permit::Allowed);
    assert_eq!(bucket.try_acquire(200), Permit::Allowed);
    assert_eq!(bucket.try_acquire(300), Permit::Allowed);
    assert_eq!(bucket.try_acquire(400), Permit::Denied { retry_after: 700 });
    assert_eq!(bucket.try_acquire(1099), Permit::Denied { retry_after: 1 });
}

#[test]
fn a_send_is_let_through_once_the_oldest_is_a_period_old() {
    let mut bucket = TokenBucket::new(2, 1000).unwrap();
    assert_eq!(bucket.try_acquire(0), Permit::Allowed);
    assert_eq!(bucket.try_acquire(600), Permit::Allowed);
    assert_eq!(bucket.try_acquire(999), Permit::Denied { retry_after: 1 });
    assert_eq!(bucket.try_acquire(1000), Permit::Allowed);
    assert_eq!(bucket.try_acquire(1001), Permit::Denied { retry_after: 599 });
    assert_eq!(bucket.try_acquire(1600), Permit::Allowed);
    assert_eq!(bucket.try_acquire(1999), Permit::Denied { retry_after: 1 });
}

#[test]
fn no_stretch_of_a_period_holds_more_than_the_quota() {
    let quota = 4;
    let period = 50;
    let mut bucket = TokenBucket::new(quota, period).unwrap();
    let mut accepted: Vec<u64> = Vec::new();
    let mut now = 0u64;
    for step in 0..2000u64 {
        now += (step * 7 + 3) % 11;
        if bucket.try_acquire(now) == Permit::Allowed {
            accepted.push(now);
        }
    }
    assert!(accepted.len() > quota);
    for from in 0..=now {
        let held = accepted.iter().filter(|t| from <= **t && **t < from + period).count();
        assert!(held <= quota, "{held} sends in the period from {from}");
    }
}

#[test]
fn a_clock_that_goes_back_counts_as_standing_still() {
    let mut bucket = TokenBucket::new(1, 100).unwrap();
    assert_eq!(bucket.try_acquire(500), Permit::Allowed);
    assert_eq!(bucket.try_acquire(10), Permit::Denied { retry_after: 100 });
    assert_eq!(bucket.try_acquire(599), Permit::Denied { retry_after: 1 });
    assert_eq!(bucket.try_acquire(600), Permit::Allowed);
}

#[test]
fn an_hourly_quota_of_120_denies_the_121st() {
    let mut bucket = TokenBucket::new(120, 3_600_000).unwrap();
    for i in 0..120u64 {
        assert_eq!(bucket.try_acquire(i * 1000), Permit::Allowed);
    }
    assert_eq!(bucket.try_acquire(120_000), Permit::Denied { retry_after: 3_480_000 });
    assert_eq!(bucket.try_acquire(3_599_999), Permit::Denied { retry_after: 1 });
    assert_eq!(bucket.try_acquire(3_600_000), Permit::Allowed);
}

#[test]
fn whole_seconds_drop_the_fraction() {
    assert_eq!(read_whole_seconds("1470173023"), Some(1470173023));
    assert_eq!(read_whole_seconds("1470173023.123"), Some(1470173023));
    assert_eq!(read_whole_seconds("1470173023."), Some(1470173023));
    assert_eq!(read_whole_seconds("0.999"), Some(0));
    assert_eq!(read_whole_seconds(".5"), Some(0));
    assert_eq!(read_whole_seconds(".999"), Some(0));
    assert_eq!(read_whole_seconds("+12.5"), Some(12));
    assert_eq!(read_whole_seconds("."), None);
    assert_eq!(read_whole_seconds(".x"), None);
    assert_eq!(read_whole_seconds("+.5"), None);
    assert_eq!(read_whole_seconds("inf"), None);
    assert_eq!(read_whole_seconds("NaN"), None);
    assert_eq!(read_whole_seconds("18446744073709551615.9"), Some(u64::MAX));
    assert_eq!(read_whole_seconds("18446744073709551616"), None);
    assert_eq!(read_whole_seconds(""), None);
    assert_eq!(read_whole_seconds("1.2.3"), None);
    assert_eq!(read_whole_seconds("1e9"), None);
    assert_eq!(read_whole_seconds("-1.0"), None);
    assert_eq!(read_whole_seconds("12.3x"), None);
    assert_eq!(read_whole_seconds("١.0"), None);
}

#[test]
fn the_quota_is_read_from_three_headers() {
    let state = RateLimitState::extract_state(&headers("abc", "5", "3", "1470173023.5")).unwrap();
    assert_eq!(state, RateLimitState { limit: 5, remaining: 3, reset: 1470173023 });
}

#[test]
fn a_missing_header_is_not_enough_headers() {
    let mut h = headers("abc", "5", "3", "10");
    h.remaining = Header::Absent;
    assert_eq!(RateLimitState::extract_state(&h), Err(RateLimitError::NotEnoughHeaders));
    let mut h = headers("abc", "5", "3", "10");
    h.reset = Header::Absent;
    assert_eq!(RateLimitState::extract_state(&h), Err(RateLimitError::NotEnoughHeaders));
}

#[test]
fn a_header_that_holds_no_number_is_invalid() {
    for bad in ["", "five", "-1", "-", "-+0", "+-0", "4294967296", "2147483648", "1.0", "٥"] {
        let h = headers("abc", bad, "3", "10");
        assert_eq!(RateLimitState::extract_state(&h), Err(RateLimitError::InvalidHeaders), "{bad}");
    }
    let mut h = headers("abc", "5", "3", "10");
    h.limit = Header::Unreadable;
    assert_eq!(RateLimitState::extract_state(&h), Err(RateLimitError::InvalidHeaders));
    let h = headers("abc", "5", "3", "soon");
    assert_eq!(RateLimitState::extract_state(&h), Err(RateLimitError::InvalidHeaders));
}

#[test]
fn the_first_response_seeds_the_bucket() {
    let mut limiter = RateLimiter::new();
    assert_eq!(limiter.get("abc"), None);
    assert_eq!(limiter.check(&headers("abc", "5", "2", "100"), 10), Ok(()));
    assert_eq!(limiter.get("abc"), Some(RateLimitState { limit: 5, remaining: 2, reset: 100 }));
}

#[test]
fn a_seeded_bucket_allows_what_remains_and_no_more() {
    let mut limiter = RateLimiter::new();
    assert_eq!(limiter.check(&headers("abc", "5", "3", "100"), 10), Ok(()));
    let later = headers("abc", "9", "9", "900");
    assert_eq!(limiter.check(&later, 11), Ok(()));
    assert_eq!(limiter.check(&later, 50), Ok(()));
    assert_eq!(limiter.check(&later, 99), Ok(()));
    assert_eq!(limiter.get("abc"), Some(RateLimitState { limit: 5, remaining: 0, reset: 100 }));
    assert_eq!(limiter.check(&later, 99), Err(RateLimitError::Hit(100)));
    assert_eq!(limiter.check(&later, 99), Err(RateLimitError::Hit(100)));
    assert_eq!(limiter.get("abc"), Some(RateLimitState { limit: 5, remaining: 0, reset: 100 }));
}

#[test]
fn a_bucket_past_its_reset_is_seeded_anew() {
    let mut limiter = RateLimiter::new();
    assert_eq!(limiter.check(&headers("abc", "5", "0", "100"), 10), Ok(()));
    assert_eq!(limiter.check(&headers("abc", "5", "4", "200"), 99), Err(RateLimitError::Hit(100)));
    assert_eq!(limiter.check(&headers("abc", "5", "4", "200"), 100), Ok(()));
    assert_eq!(limiter.get("abc"), Some(RateLimitState { limit: 5, remaining: 4, reset: 200 }));
}

#[test]
fn buckets_do_not_touch_one_another() {
    let mut limiter = RateLimiter::new();
    assert_eq!(limiter.check(&headers("a", "5", "0", "100"), 10), Ok(()));
    assert_eq!(limiter.check(&headers("b", "7", "1", "100"), 10), Ok(()));
    assert_eq!(limiter.check(&headers("a", "5", "0", "100"), 11), Err(RateLimitError::Hit(100)));
    assert_eq!(limiter.check(&headers("b", "7", "1", "100"), 11), Ok(()));
    assert_eq!(limiter.get("a"), Some(RateLimitState { limit: 5, remaining: 0, reset: 100 }));
    assert_eq!(limiter.get("b"), Some(RateLimitState { limit: 7, remaining: 0, reset: 100 }));
    assert_eq!(limiter.get("c"), None);
}

#[test]
fn a_response_without_a_bucket_is_refused() {
    let mut limiter = RateLimiter::new();
    let mut h = headers("a", "5", "1", "100");
    h.bucket = Header::Absent;
    assert_eq!(limiter.check(&h, 10), Err(RateLimitError::NotEnoughHeaders));
    h.bucket = Header::Unreadable;
    assert_eq!(limiter.check(&h, 10), Err(RateLimitError::InvalidHeaders));
    assert_eq!(limiter.check(&headers("a", "x", "1", "100"), 10), Err(RateLimitError::InvalidHeaders));
    assert_eq!(limiter.get("a"), None);
}

#[test]
fn the_first_probe_goes_out_early() {
    for seed in [0u64, 1, 499, 500, 12345, u64::MAX] {
        let delay = first_delay(5000, seed);
        assert!(delay < 5000);
        assert!(delay >= 4500);
    }
    assert_eq!(first_delay(5000, 0), 4999);
    assert_eq!(first_delay(5000, 499), 4500);
    assert_eq!(first_delay(5000, 500), 4999);
    assert_eq!(first_delay(41250, 7), 41242);
    assert_eq!(first_delay(1, 99), 0);
    assert_eq!(first_delay(0, 99), 0);
    assert_eq!(first_delay(9, 99), 8);
}

#[test]
fn delays_stop_at_the_end_of_time() {
    assert_eq!(add_delay(10, 5), 15);
    assert_eq!(add_delay(u64::MAX - 1, 5), u64::MAX);
    assert_eq!(add_delay(u64::MAX, 0), u64::MAX);
}

#[test]
fn the_wait_doubles_up_to_a_minute() {
    assert_eq!(backoff(0), 1_000);
    assert_eq!(backoff(1), 2_000);
    assert_eq!(backoff(2), 4_000);
    assert_eq!(backoff(3), 8_000);
    assert_eq!(backoff(4), 16_000);
    assert_eq!(backoff(5), 32_000);
    assert_eq!(backoff(6), MAX_BACKOFF);
    assert_eq!(backoff(u32::MAX), 60_000);
}

#[test]
fn requests_go_to_version_ten() {
    assert_eq!(url("/gateway/bot"), "https://discord.com/api/v10/gateway/bot");
    assert_eq!(url(""), "https://discord.com/api/v10");
}

#[test]
fn the_authorization_names_a_bot() {
    assert_eq!(authorization("abc.def-ghi").as_deref(), Some("Bot abc.def-ghi"));
    assert_eq!(authorization("").as_deref(), Some("Bot "));
    assert_eq!(authorization("a\tb").as_deref(), Some("Bot a\tb"));
    assert_eq!(authorization("a\nb"), None);
    assert_eq!(authorization("a\u{7f}b"), None);
    assert_eq!(authorization("tøken"), None);
}

#[test]
fn a_failed_status_is_reported_before_anything_else() {
    let mut limiter = RateLimiter::new();
    let h = headers("a", "5", "1", "100");
    assert!(matches!(read_response(&mut limiter, 404, &h, "{}", 10), Err(HttpError::Status(404))));
    assert!(matches!(read_response(&mut limiter, 599, &h, "{}", 10), Err(HttpError::Status(599))));
    assert_eq!(limiter.get("a"), None);
    assert!(matches!(read_response(&mut limiter, 399, &h, "{}", 10), Ok(JsonValue::Object(_))));
    assert!(matches!(read_response(&mut limiter, 600, &h, "[1]", 10), Ok(JsonValue::Array(_))));
}

#[test]
fn a_response_is_counted_and_its_body_read() {
    let mut limiter = RateLimiter::new();
    let h = headers("a", "5", "1", "100");
    let body = r#"{"url":"wss://gateway.discord.gg","shards":2,
        "session_start_limit":{"total":1000,"remaining":1000,"reset_after":0,"max_concurrency":1}}"#;
    let bot = get_gateway_bot(&mut limiter, 200, &h, body, 10).unwrap();
    assert_eq!(bot.url, "wss://gateway.discord.gg");
    assert_eq!(bot.shards, 2);
    assert!(matches!(
        get_gateway_bot(&mut limiter, 200, &h, "{}", 11),
        Err(HttpError::JsonError(DecodeError::MissingField("url")))
    ));
    assert!(matches!(
        get_gateway_bot(&mut limiter, 200, &h, body, 12),
        Err(HttpError::RatelimitError(RateLimitError::Hit(100)))
    ));
    assert!(matches!(
        read_response(&mut limiter, 200, &headers("b", "5", "1", "100"), "not json", 12),
        Err(HttpError::JsonError(DecodeError::Syntax))
    ));
}

#[test]
fn expired_buckets_are_dropped_and_the_others_kept() {
    let mut limiter = RateLimiter::new();
    assert_eq!(limiter.check(&headers("a", "5", "1", "100"), 10), Ok(()));
    assert_eq!(limiter.check(&headers("b", "5", "2", "200"), 10), Ok(()));
    assert_eq!(limiter.check(&headers("c", "5", "3", "150"), 10), Ok(()));
    limiter.evict_expired(99);
    assert!(limiter.get("a").is_some());
    limiter.evict_expired(150);
    assert_eq!(limiter.get("a"), None);
    assert_eq!(limiter.get("b"), Some(RateLimitState { limit: 5, remaining: 2, reset: 200 }));
    assert_eq!(limiter.get("c"), None);
    limiter.evict_expired(u64::MAX);
    assert_eq!(limiter.get("b"), None);
}

#[test]
fn a_count_fits_thirty_two_bits_with_a_sign() {
    let most = RateLimitState::extract_state(&headers("a", "2147483647", "+2147483647", "1"));
    assert_eq!(most, Ok(RateLimitState { limit: 2147483647, remaining: 2147483647, reset: 1 }));
    assert_eq!(
        RateLimitState::extract_state(&headers("a", "2147483648", "1", "1")),
        Err(RateLimitError::InvalidHeaders)
    );
    assert_eq!(
        RateLimitState::extract_state(&headers("a", "1", "2147483648", "1")),
        Err(RateLimitError::InvalidHeaders)
    );
    assert_eq!(
        RateLimitState::extract_state(&headers("a", "-0", "-000", "1")),
        Ok(RateLimitState { limit: 0, remaining: 0, reset: 1 })
    );
    assert_eq!(Header::Text(String::from("007")).count(), Ok(7));
}

#[test]
fn a_number_with_a_sign_is_read_where_it_is_not_negative() {
    assert_eq!(parse_natural("0"), Some(0));
    assert_eq!(parse_natural("+17"), Some(17));
    assert_eq!(parse_natural("-0"), Some(0));
    assert_eq!(parse_natural("-00"), Some(0));
    assert_eq!(parse_natural("18446744073709551615"), Some(u64::MAX));
    for bad in ["", "-", "+", "-1", "-01", "-0x", "--0", "-+0", "18446744073709551616", "－0"] {
        assert_eq!(parse_natural(bad), None, "{bad}");
    }
}
