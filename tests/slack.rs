use slack_emoji::cli::{EmojiStreamOpts, LogLevel, Opts, SubCommandKind};
use slack_emoji::emoji::{EmojiStreamParameters, Timestamp, Emoji};
use slack_emoji::error::SyncError;
use slack_emoji::slack::{
    parse_retry_after, EmojiPageResponse, RateLimitedCall, RetryAction, SlackClient, MAX_ATTEMPTS,
};

#[test]
fn client_urls_and_cookie() {
    let c = SlackClient::new("xoxs-1", "a b/c+é", "myorg");
    assert_eq!(c.token, "xoxs-1");
    assert_eq!(c.base_url, "https://myorg.slack.com/api");
    assert_eq!(c.generate_url("emoji.add"), "https://myorg.slack.com/api/emoji.add");
    assert_eq!(c.session_cookie, "a%20b%2Fc%2B%C3%A9");
    assert_eq!(c.session_cookie_header(), "d=a%20b%2Fc%2B%C3%A9");
}

#[test]
fn unreserved_cookie_is_unchanged() {
    let c = SlackClient::new("t", "Az09-._~", "w");
    assert_eq!(c.session_cookie, "Az09-._~");
}

#[test]
fn retry_after_values() {
    assert_eq!(parse_retry_after(b"30"), Some(30));
    assert_eq!(parse_retry_after(b"0"), Some(0));
    assert_eq!(parse_retry_after(b"18446744073709551615"), Some(u64::MAX));
    assert_eq!(parse_retry_after(b"18446744073709551616"), None);
    assert_eq!(parse_retry_after(b""), None);
    assert_eq!(parse_retry_after(b"1.5"), None);
    assert_eq!(parse_retry_after(b" 3"), None);
}

#[test]
fn rate_limited_every_time_gives_up_after_three_attempts() {
    let mut call = RateLimitedCall::new("upload x".to_string());
    let mut attempts = 1;
    loop {
        match call.on_rate_limited(b"2") {
            RetryAction::Wait(s) => {
                assert_eq!(s, 2);
                attempts += 1;
            }
            RetryAction::Fail(SyncError::RateLimitExhausted(l)) => {
                assert_eq!(l, "upload x");
                break;
            }
            RetryAction::Fail(_) => panic!("unexpected failure"),
        }
    }
    assert_eq!(attempts, 3);
    assert_eq!(MAX_ATTEMPTS, 3);
}

#[test]
fn malformed_retry_after_fails_the_call() {
    let mut call = RateLimitedCall::new("x".to_string());
    assert!(matches!(call.on_rate_limited(b"soon"), RetryAction::Fail(SyncError::Decode(_))));
}

#[test]
fn final_response_outcomes() {
    let call = RateLimitedCall::new("upload of emoji zuck".to_string());
    assert!(call.on_response(None).is_ok());
    match call.on_response(Some("error_name_taken".to_string())) {
        Err(SyncError::Protocol(m)) => assert_eq!(m, "upload of emoji zuck: error_name_taken"),
        _ => panic!("expected a protocol error"),
    }
}

#[test]
fn page_response_interpretation() {
    let e = Emoji {
        name: "n".to_string(),
        url: "u/v".to_string(),
        added_by: "a".to_string(),
        alias_for: String::new(),
        created: Timestamp { secs: 1, nanos: 0 },
    };
    let ok = EmojiPageResponse::Emojis { emojis: vec![e], pages: 458 }.into_page();
    match ok {
        Ok((v, p)) => {
            assert_eq!(p, 458);
            assert_eq!(v[0].name, "n");
        }
        Err(_) => panic!("expected records"),
    }
    match (EmojiPageResponse::Error { error: "invalid_auth".to_string() }).into_page() {
        Err(SyncError::Protocol(m)) => assert_eq!(m, "invalid_auth"),
        _ => panic!("expected a protocol error"),
    }
}

fn opts(verbosity: u8) -> Opts {
    Opts {
        workspace: "myorg".to_string(),
        target_directory: "dir".to_string(),
        token: "t".to_string(),
        session_cookie: "c d".to_string(),
        verbosity,
        subcommand: SubCommandKind::Upload,
    }
}

#[test]
fn verbosity_levels() {
    assert!(opts(0).log_level_override().is_none());
    assert!(opts(1).log_level_override() == Some(LogLevel::Info));
    assert!(opts(2).log_level_override() == Some(LogLevel::Debug));
    assert!(opts(7).log_level_override() == Some(LogLevel::Trace));
}

#[test]
fn client_from_options() {
    let c = opts(0).create_slack_client();
    assert_eq!(c.base_url, "https://myorg.slack.com/api");
    assert_eq!(c.session_cookie, "c%20d");
}

#[test]
fn stream_parameters_from_options() {
    let o = EmojiStreamOpts { starting_page_number: 4, num_emojis_per_page: 20, limit_num_pages: Some(3) };
    let p = EmojiStreamParameters::from(&o);
    assert_eq!(p.starting_page_number, 4);
    assert_eq!(p.num_emojis_per_page, 20);
    assert_eq!(p.limit_num_pages, Some(3));
}
