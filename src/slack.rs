//! The remote service as the engine sees it: where requests go, how the
//! session cookie is sent, how responses are read, and how a rate-limited
//! call is retried.
use vstd::prelude::*;
use vstd::utf8::encode_utf8;
use crate::emoji::Emoji;
use crate::error::SyncError;

verus! {

/// Bytes that percent-encoding leaves as they are.
pub open spec fn is_unreserved(b: u8) -> bool {
    (48 <= b <= 57) || (65 <= b <= 90) || (97 <= b <= 122) || b == 45 || b == 46 || b == 95 || b == 126
}

/// The upper-case hexadecimal digit of `d`, for `d < 16`.
pub open spec fn hex_digit(d: u8) -> char {
    if d < 10 {
        (48 + d) as u8 as char
    } else {
        (55 + d) as u8 as char
    }
}

/// Percent-encoding of a byte string: unreserved bytes stay, every other byte
/// becomes `%` and two upper-case hexadecimal digits.
pub open spec fn percent_encoded(bytes: Seq<u8>) -> Seq<char>
    decreases bytes.len(),
{
    if bytes.len() == 0 {
        Seq::empty()
    } else {
        let b = bytes.last();
        percent_encoded(bytes.drop_last()) + if is_unreserved(b) {
            seq![b as char]
        } else {
            seq!['%', hex_digit(b / 16), hex_digit(b % 16)]
        }
    }
}

/// Relies on urlencoding::encode: it percent-encodes every byte of the UTF-8
/// text except ASCII alphanumerics and `-`, `.`, `_`, `~`.
#[verifier::external_body]
fn url_encode(s: &str) -> (r: String)
    ensures
        r@ == percent_encoded(encode_utf8(s@)),
{
    urlencoding::encode(s).into_owned()
}

/// The address of the workspace's API and the credentials sent with each
/// request.
pub struct SlackClient {
    pub token: String,
    /// The session cookie, percent-encoded.
    pub session_cookie: String,
    pub base_url: String,
}

impl SlackClient {
    pub fn new(token: &str, session_cookie: &str, workspace: &str) -> (r: Self)
        ensures
            r.token@ == token@,
            r.session_cookie@ == percent_encoded(encode_utf8(session_cookie@)),
            r.base_url@ == "https://"@ + workspace@ + ".slack.com/api"@,
    {
        SlackClient {
            token: token.to_owned(),
            session_cookie: url_encode(session_cookie),
            base_url: String::from_str("https://").concat(workspace).concat(".slack.com/api"),
        }
    }

    /// The URL of an API endpoint.
    pub fn generate_url(&self, endpoint: &str) -> (r: String)
        ensures
            r@ == self.base_url@ + "/"@ + endpoint@,
    {
        self.base_url.clone().concat("/").concat(endpoint)
    }

    /// The value of the `Cookie` header that carries the session cookie.
    pub fn session_cookie_header(&self) -> (r: String)
        ensures
            r@ == "d="@ + self.session_cookie@,
    {
        String::from_str("d=").concat(self.session_cookie.as_str())
    }
}

/// A decoded answer to a request for one page of the emoji list.
pub enum EmojiPageResponse {
    Emojis { emojis: Vec<Emoji>, pages: u16 },
    Error { error: String },
}

impl EmojiPageResponse {
    /// The page's records and the page count it reports, or the remote's error.
    pub fn into_page(self) -> (r: Result<(Vec<Emoji>, u16), SyncError>)
        ensures
            match self {
                EmojiPageResponse::Emojis { emojis, pages } => r matches Ok((e, p)) && e == emojis && p == pages,
                EmojiPageResponse::Error { error } => r == Err::<(Vec<Emoji>, u16), SyncError>(SyncError::Protocol(error)),
            },
    {
        match self {
            EmojiPageResponse::Emojis { emojis, pages } => Ok((emojis, pages)),
            EmojiPageResponse::Error { error } => Err(SyncError::Protocol(error)),
        }
    }
}

pub open spec fn is_digit(b: u8) -> bool {
    48 <= b <= 57
}

/// The number that a string of decimal digits spells.
pub open spec fn decimal_value(s: Seq<u8>) -> int
    decreases s.len(),
{
    if s.len() == 0 {
        0
    } else {
        decimal_value(s.drop_last()) * 10 + (s.last() - 48)
    }
}

proof fn lemma_decimal_grows(s: Seq<u8>, i: int)
    requires
        0 <= i <= s.len(),
        forall|k: int| 0 <= k < s.len() ==> is_digit(#[trigger] s[k]),
    ensures
        decimal_value(s.take(i)) <= decimal_value(s),
        0 <= decimal_value(s),
    decreases s.len(),
{
    if s.len() > 0 {
        if i < s.len() {
            lemma_decimal_grows(s.drop_last(), i);
            assert(s.drop_last().take(i) =~= s.take(i));
        } else {
            lemma_decimal_grows(s.drop_last(), 0);
            assert(s.take(i) =~= s);
        }
    }
}

/// Reads a `retry-after` header value: whole seconds written as decimal
/// digits. Anything else, or a number beyond `u64`, is refused.
pub fn parse_retry_after(value: &[u8]) -> (r: Option<u64>)
    ensures
        r is Some <==> (value@.len() > 0 && (forall|k: int| 0 <= k < value@.len() ==> is_digit(#[trigger] value@[k]))
            && decimal_value(value@) <= u64::MAX),
        r matches Some(n) ==> n == decimal_value(value@),
{
    if value.len() == 0 {
        return None;
    }
    let mut i: usize = 0;
    while i < value.len()
        invariant
            i <= value@.len(),
            forall|k: int| 0 <= k < i ==> is_digit(#[trigger] value@[k]),
        decreases value@.len() - i,
    {
        if value[i] < 48 || value[i] > 57 {
            return None;
        }
        i = i + 1;
    }
    let mut acc: u64 = 0;
    let mut j: usize = 0;
    while j < value.len()
        invariant
            j <= value@.len(),
            forall|k: int| 0 <= k < value@.len() ==> is_digit(#[trigger] value@[k]),
            acc == decimal_value(value@.take(j as int)),
        decreases value@.len() - j,
    {
        assert(value@.take(j + 1).drop_last() =~= value@.take(j as int));
        let d = (value[j] - 48) as u64;
        let next = match acc.checked_mul(10) {
            Some(m) => m.checked_add(d),
            None => None,
        };
        match next {
            Some(n) => {
                acc = n;
            },
            None => {
                proof {
                    lemma_decimal_grows(value@, j + 1);
                    lemma_decimal_grows(value@.take(j as int), 0);
                }
                return None;
            },
        }
        j = j + 1;
    }
    assert(value@.take(j as int) =~= value@);
    Some(acc)
}

/// How many times a rate-limited call is sent at most.
pub const MAX_ATTEMPTS: u8 = 3;

/// Seconds to pause after every call, whatever its outcome, so that the next
/// call does not run straight into the limit again.
pub const COOL_DOWN_SECS: u64 = 1;

/// What to do after a response that asked to retry later.
pub enum RetryAction {
    /// Sleep this many seconds, then send the call again.
    Wait(u64),
    /// Give up with this error.
    Fail(SyncError),
}

/// Whether a call that has been sent `attempts` times gives up when the
/// response asks to retry later.
pub open spec fn gives_up(attempts: int) -> bool {
    attempts >= MAX_ATTEMPTS
}

/// One rate-limited call (an upload or an alias creation) across its
/// attempts. The caller sends the call once on creation and again after
/// each `Wait`.
pub struct RateLimitedCall {
    label: String,
    attempts: u8,
}

impl RateLimitedCall {
    /// How many times the call has been sent.
    pub closed spec fn attempts(&self) -> int {
        self.attempts as int
    }

    pub closed spec fn label(&self) -> Seq<char> {
        self.label@
    }

    /// Starts a call, named by `label` in errors, whose first attempt goes out now.
    pub fn new(label: String) -> (r: Self)
        ensures
            r.attempts() == 1,
            r.label() == label@,
    {
        RateLimitedCall { label, attempts: 1 }
    }

    /// Takes a response that asked to retry after `retry_after` seconds.
    pub fn on_rate_limited(&mut self, retry_after: &[u8]) -> (r: RetryAction)
        requires
            1 <= old(self).attempts() <= MAX_ATTEMPTS,
        ensures
            final(self).label() == old(self).label(),
            1 <= final(self).attempts() <= MAX_ATTEMPTS,
            gives_up(old(self).attempts()) ==> (r matches RetryAction::Fail(SyncError::RateLimitExhausted(l))
                && l@ == old(self).label() && final(self).attempts() == old(self).attempts()),
            rate_limited_step(old(self).attempts(), retry_after@) matches Some(a) ==> (r is Wait
                && final(self).attempts() == a),
            !gives_up(old(self).attempts()) ==> match parse_retry_after_spec(retry_after@) {
                Some(n) => r == RetryAction::Wait(n) && final(self).attempts() == old(self).attempts() + 1,
                None => (r matches RetryAction::Fail(SyncError::Decode(_))
                    && final(self).attempts() == old(self).attempts()),
            },
    {
        if self.attempts >= MAX_ATTEMPTS {
            return RetryAction::Fail(SyncError::RateLimitExhausted(self.label.clone()));
        }
        match parse_retry_after(retry_after) {
            Some(n) => {
                self.attempts = self.attempts + 1;
                RetryAction::Wait(n)
            },
            None => RetryAction::Fail(SyncError::Decode(String::from_str("retry-after"))),
        }
    }

    /// Takes the final response: the remote's error message, if any. An
    /// error names the call by its label, then gives the remote's message.
    pub fn on_response(&self, error: Option<String>) -> (r: Result<(), SyncError>)
        ensures
            match error {
                None => r is Ok,
                Some(m) => (r matches Err(SyncError::Protocol(d)) && d@ == self.label() + ": "@ + m@),
            },
    {
        match error {
            None => Ok(()),
            Some(m) => Err(SyncError::Protocol(self.label.clone().concat(": ").concat(m.as_str()))),
        }
    }
}

/// What `parse_retry_after` returns on `value`.
pub open spec fn parse_retry_after_spec(value: Seq<u8>) -> Option<u64> {
    if value.len() > 0 && (forall|k: int| 0 <= k < value.len() ==> is_digit(#[trigger] value[k]))
        && decimal_value(value) <= u64::MAX {
        Some(decimal_value(value) as u64)
    } else {
        None
    }
}

/// The attempt count after a response to attempt number `attempts` that
/// asked to retry after `retry_after`, or `None` when the call ends there.
pub open spec fn rate_limited_step(attempts: int, retry_after: Seq<u8>) -> Option<int> {
    if gives_up(attempts) {
        None
    } else {
        match parse_retry_after_spec(retry_after) {
            Some(_) => Some(attempts + 1),
            None => None,
        }
    }
}

/// The retry bound: a call (which `RateLimitedCall::new` starts at attempt 1)
/// whose every response asks to retry later is sent exactly three times; the
/// responses to the first two attempts lead to a retry, and the response to
/// the third gives up with `RateLimitExhausted`.
pub proof fn lemma_rate_limit_bound(first: Seq<u8>, second: Seq<u8>, third: Seq<u8>)
    requires
        parse_retry_after_spec(first) is Some,
        parse_retry_after_spec(second) is Some,
    ensures
        rate_limited_step(1, first) == Some(2int),
        rate_limited_step(2, second) == Some(3int),
        rate_limited_step(3, third) is None,
        gives_up(3),
{
}

} // verus!
