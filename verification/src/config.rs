//! The configuration surface of the monitor.
//!
//! Every setting is environment-sourced by the caller and handed in as
//! an optional plain string; a missing or unusable value falls back to
//! its default. The offline threshold is parsed here by a verified
//! decimal parser and always ends up positive, as the state invariant
//! demands.

use vstd::prelude::*;

verus! {

/// Offline ticks after which the monitor terminates, when not configured.
pub const DEFAULT_OFFLINE_THRESHOLD: u32 = 3;

/// A decimal digit.
pub open spec fn is_digit(c: char) -> bool {
    48 <= c as u32 <= 57
}

/// The value of a decimal digit.
pub open spec fn digit_value(c: char) -> int {
    c as u32 - 48
}

/// A non-empty sequence of decimal digits.
pub open spec fn is_digit_seq(s: Seq<char>) -> bool {
    s.len() > 0 && forall|i: int| 0 <= i < s.len() ==> is_digit(s[i])
}

/// The number a digit sequence denotes, most significant digit first.
pub open spec fn decimal_value(s: Seq<char>) -> int
    decreases s.len(),
{
    if s.len() == 0 {
        0
    } else {
        decimal_value(s.drop_last()) * 10 + digit_value(s.last())
    }
}

/// The digits of a numeral: an optional leading plus sign is dropped.
pub open spec fn numeral_digits(s: Seq<char>) -> Seq<char> {
    if s.len() > 0 && s[0] == '+' {
        s.subrange(1, s.len() as int)
    } else {
        s
    }
}

/// What parsing a string as a `u32` yields: the denoted number when the
/// string is a numeral whose value fits, nothing otherwise.
pub open spec fn parsed_u32(s: Seq<char>) -> Option<int> {
    let d = numeral_digits(s);
    if is_digit_seq(d) && decimal_value(d) <= u32::MAX {
        Some(decimal_value(d))
    } else {
        None
    }
}

/// Parses a decimal `u32` numeral: digits with an optional leading plus
/// sign. Returns nothing on an empty string, a stray character, or a
/// value past `u32::MAX`.
pub fn parse_u32(s: &str) -> (r: Option<u32>)
    ensures
        parsed_u32(s@) matches Some(v) ==> 0 <= v <= u32::MAX && r == Some(v as u32),
        parsed_u32(s@) is None ==> r is None,
{
    let len = s.unicode_len();
    let start: usize = if len > 0 && s.get_char(0) == '+' {
        1
    } else {
        0
    };
    let ghost d = numeral_digits(s@);
    proof {
        assert(d =~= s@.subrange(start as int, len as int));
    }
    if start >= len {
        assert(d.len() == 0);
        return None;
    }
    let mut acc: u64 = 0;
    let mut overflowed = false;
    let mut i: usize = start;
    while i < len
        invariant
            len == s@.len(),
            start <= i <= len,
            start < len,
            d == numeral_digits(s@),
            d =~= s@.subrange(start as int, len as int),
            forall|j: int| start <= j < i ==> is_digit(s@[j]),
            !overflowed ==> {
                &&& acc as int == decimal_value(s@.subrange(start as int, i as int))
                &&& acc <= u32::MAX as u64
            },
            overflowed ==> decimal_value(s@.subrange(start as int, i as int)) > u32::MAX,
        decreases len - i,
    {
        let c = s.get_char(i);
        let cu = c as u32;
        if cu < 48 || cu > 57 {
            proof {
                assert(d[i - start] == s@[i as int]);
                assert(!is_digit_seq(d));
            }
            return None;
        }
        proof {
            let pre = s@.subrange(start as int, i as int);
            let post = s@.subrange(start as int, i + 1);
            assert(post.drop_last() =~= pre);
            assert(post.last() == s@[i as int]);
        }
        let dv = (cu - 48) as u64;
        if !overflowed {
            let next = acc * 10 + dv;
            if next > u32::MAX as u64 {
                overflowed = true;
            } else {
                acc = next;
            }
        }
        i = i + 1;
    }
    proof {
        assert(d.len() > 0);
        assert forall|j: int| 0 <= j < d.len() implies is_digit(d[j]) by {
            assert(d[j] == s@[j + start]);
        }
        assert(is_digit_seq(d));
        assert(decimal_value(d) == decimal_value(s@.subrange(start as int, len as int)));
    }
    if overflowed {
        None
    } else {
        Some(acc as u32)
    }
}

/// The offline threshold chosen for a raw configured value: the parsed
/// value when it is a positive `u32` numeral, the default otherwise —
/// absent, malformed, too large and zero all fall back alike, keeping
/// the threshold positive.
pub open spec fn chosen_threshold(raw: Option<Seq<char>>) -> int {
    match raw {
        Some(s) => match parsed_u32(s) {
            Some(v) => if v >= 1 {
                v
            } else {
                DEFAULT_OFFLINE_THRESHOLD as int
            },
            None => DEFAULT_OFFLINE_THRESHOLD as int,
        },
        None => DEFAULT_OFFLINE_THRESHOLD as int,
    }
}

/// Resolves the configured offline threshold from the raw environment
/// value, as [`chosen_threshold`] says; the result is always positive.
pub fn resolve_threshold(raw: Option<&str>) -> (t: u32)
    ensures
        raw matches Some(s) ==> t as int == chosen_threshold(Some(s@)),
        raw is None ==> t as int == chosen_threshold(None),
        t >= 1,
{
    match raw {
        Some(s) => {
            match parse_u32(s) {
                Some(v) => if v >= 1 {
                    v
                } else {
                    DEFAULT_OFFLINE_THRESHOLD
                },
                None => DEFAULT_OFFLINE_THRESHOLD,
            }
        },
        None => DEFAULT_OFFLINE_THRESHOLD,
    }
}

/// Everything the monitor is configured with. The caller reads the
/// environment and hands each raw value in; defaults are applied here.
#[derive(Debug, Clone, PartialEq, Eq)]
pub struct BotConfig {
    /// The monitored channel's login name.
    pub channel_name: String,
    /// Credential identifier for the stream-query port.
    pub client_id: String,
    /// Credential secret for the stream-query port.
    pub client_secret: String,
    /// Address of the persistent key-value store.
    pub kvstore_url: String,
    /// Access token for the key-value store.
    pub kvstore_token: String,
    /// Address of the outbound notification sink.
    pub webhook_url: String,
    /// Consecutive offline ticks that end the run; always positive.
    pub offline_threshold: u32,
}

impl BotConfig {
    /// Builds the configuration from raw environment values, applying
    /// the documented default wherever a value is absent.
    pub fn new(
        channel_name: Option<String>,
        client_id: Option<String>,
        client_secret: Option<String>,
        kvstore_url: Option<String>,
        kvstore_token: Option<String>,
        webhook_url: Option<String>,
        offline_threshold: Option<String>,
    ) -> (c: BotConfig)
        ensures
            channel_name matches Some(s) ==> c.channel_name@ == s@,
            channel_name is None ==> c.channel_name@ == "gamesdonequick"@,
            client_id matches Some(s) ==> c.client_id@ == s@,
            client_id is None ==> c.client_id@ == ""@,
            client_secret matches Some(s) ==> c.client_secret@ == s@,
            client_secret is None ==> c.client_secret@ == ""@,
            kvstore_url matches Some(s) ==> c.kvstore_url@ == s@,
            kvstore_url is None ==> c.kvstore_url@ == "http://kvstore.binarydream.fi:50051"@,
            kvstore_token matches Some(s) ==> c.kvstore_token@ == s@,
            kvstore_token is None ==> c.kvstore_token@ == ""@,
            webhook_url matches Some(s) ==> c.webhook_url@ == s@,
            webhook_url is None ==> c.webhook_url@ == ""@,
            offline_threshold matches Some(s) ==> c.offline_threshold as int == chosen_threshold(
                Some(s@),
            ),
            offline_threshold is None ==> c.offline_threshold as int == chosen_threshold(None),
            c.offline_threshold >= 1,
    {
        let threshold = match &offline_threshold {
            Some(s) => resolve_threshold(Some(s.as_str())),
            None => resolve_threshold(None),
        };
        BotConfig {
            channel_name: unwrap_or_default_str(channel_name, "gamesdonequick"),
            client_id: unwrap_or_default_str(client_id, ""),
            client_secret: unwrap_or_default_str(client_secret, ""),
            kvstore_url: unwrap_or_default_str(kvstore_url, "http://kvstore.binarydream.fi:50051"),
            kvstore_token: unwrap_or_default_str(kvstore_token, ""),
            webhook_url: unwrap_or_default_str(webhook_url, ""),
            offline_threshold: threshold,
        }
    }
}

/// The given value, or the default where none was configured.
fn unwrap_or_default_str(value: Option<String>, default: &str) -> (r: String)
    ensures
        value matches Some(s) ==> r@ == s@,
        value is None ==> r@ == default@,
{
    match value {
        Some(s) => s,
        None => String::from_str(default),
    }
}

} // verus!
