//! Process-wide settings, read once and never changed.

use vstd::prelude::*;
use vstd::string::{StrSliceExecFns, StringExecFns};

verus! {

/// Time-to-live of a mapping where none is configured: 180 days.
pub const DEFAULT_TTL_SECONDS: u64 = 15552000;

/// Length of a short code where none is configured.
pub const DEFAULT_CODE_LENGTH: usize = 8;

/// The settings of the service.
#[derive(Clone, Debug, PartialEq, Eq)]
pub struct Config {
    /// Public address of the service, put in front of every short code.
    pub domain_prefix: String,
    /// How long a mapping lives, in seconds.
    pub default_ttl_seconds: u64,
    /// How many symbols a short code has.
    pub code_length: usize,
}

/// The public address used where none is configured.
pub fn default_domain() -> (d: String)
    ensures
        d@ == "http://localhost:8080"@,
{
    String::from_str("http://localhost:8080")
}

/// Whether `c` is an ASCII decimal digit.
pub open spec fn is_digit(c: char) -> bool {
    '0' <= c && c <= '9'
}

/// The number that a string of decimal digits writes.
pub open spec fn decimal_value(digits: Seq<char>) -> nat
    decreases digits.len(),
{
    if digits.len() == 0 {
        0
    } else {
        decimal_value(digits.drop_last()) * 10 + (digits.last() as nat - '0' as nat) as nat
    }
}

/// `text` without the `+` that may stand in front.
pub open spec fn unsigned_part(text: Seq<char>) -> Seq<char> {
    if text.len() > 0 && text[0] == '+' {
        text.skip(1)
    } else {
        text
    }
}

/// The number of seconds that `text` writes: one or more decimal digits,
/// with an optional `+` in front and nothing else around them, that give a
/// number of 64 bits. `None` for any other text.
pub open spec fn seconds_of(text: Seq<char>) -> Option<u64> {
    let digits = unsigned_part(text);
    if digits.len() > 0 && (forall|i: int| 0 <= i < digits.len() ==> is_digit(#[trigger] digits[i]))
        && decimal_value(digits) <= u64::MAX {
        Some(decimal_value(digits) as u64)
    } else {
        None
    }
}

/// A number is at least what any beginning of its digits writes.
proof fn lemma_prefix_value(digits: Seq<char>, k: int)
    requires
        0 <= k <= digits.len(),
    ensures
        decimal_value(digits.take(k)) <= decimal_value(digits),
    decreases digits.len(),
{
    if k == digits.len() {
        assert(digits.take(k) =~= digits);
    } else {
        lemma_prefix_value(digits.drop_last(), k);
        assert(digits.drop_last().take(k) =~= digits.take(k));
    }
}

/// Reads a number of seconds from its decimal notation.
pub fn parse_seconds(text: &str) -> (r: Option<u64>)
    ensures
        r == seconds_of(text@),
{
    let n = text.unicode_len();
    let start: usize = if n > 0 && text.get_char(0) == '+' {
        1
    } else {
        0
    };
    let ghost digits = unsigned_part(text@);
    assert(digits =~= text@.skip(start as int));
    if start == n {
        return None;
    }
    let mut acc: u64 = 0;
    let mut i: usize = start;
    while i < n
        invariant
            start <= i <= n,
            start <= 1,
            n == text@.len(),
            digits == unsigned_part(text@),
            digits == text@.skip(start as int),
            forall|j: int| 0 <= j < i - start ==> is_digit(#[trigger] digits[j]),
            acc == decimal_value(digits.take(i - start)),
        decreases n - i,
    {
        let c = text.get_char(i);
        assert(c == digits[i - start]);
        if c < '0' || c > '9' {
            assert(!is_digit(digits[i - start]));
            return None;
        }
        let v: u64 = (c as u64) - 48;
        proof {
            let upto = digits.take(i - start + 1);
            lemma_prefix_value(digits, i - start + 1);
            assert(upto.drop_last() =~= digits.take(i - start));
            assert(upto.last() == c);
            assert(decimal_value(upto) == acc * 10 + v);
        }
        if acc > (u64::MAX - v) / 10 {
            return None;
        }
        acc = acc * 10 + v;
        i += 1;
    }
    assert(digits.take(n - start) =~= digits);
    Some(acc)
}

impl Config {
    /// A configuration is well formed when both numbers are positive.
    pub open spec fn wf(&self) -> bool {
        self.default_ttl_seconds > 0 && self.code_length > 0
    }

    /// Builds a configuration, if the time-to-live and the code length are
    /// both positive.
    pub fn new(domain_prefix: String, default_ttl_seconds: u64, code_length: usize) -> (r: Option<
        Config,
    >)
        ensures
            r is Some <==> default_ttl_seconds > 0 && code_length > 0,
            r matches Some(c) ==> c.wf() && c.domain_prefix == domain_prefix
                && c.default_ttl_seconds == default_ttl_seconds && c.code_length == code_length,
    {
        if default_ttl_seconds > 0 && code_length > 0 {
            Some(Config { domain_prefix, default_ttl_seconds, code_length })
        } else {
            None
        }
    }

    /// Builds the configuration from what the environment gave: a missing
    /// address falls back to [`default_domain`]; a time-to-live that is
    /// missing, is no number of seconds or is zero falls back to
    /// [`DEFAULT_TTL_SECONDS`]. Codes have [`DEFAULT_CODE_LENGTH`] symbols.
    pub fn from_settings(domain: Option<String>, ttl_text: Option<String>) -> (c: Config)
        ensures
            c.wf(),
            c.domain_prefix@ == (match domain {
                Some(d) => d@,
                None => "http://localhost:8080"@,
            }),
            c.default_ttl_seconds == (match ttl_text {
                Some(text) => match seconds_of(text@) {
                    Some(t) if t > 0 => t,
                    _ => DEFAULT_TTL_SECONDS,
                },
                None => DEFAULT_TTL_SECONDS,
            }),
            c.code_length == DEFAULT_CODE_LENGTH,
    {
        let domain_prefix = match domain {
            Some(d) => d,
            None => default_domain(),
        };
        let default_ttl_seconds = match ttl_text {
            Some(text) => match parse_seconds(text.as_str()) {
                Some(t) if t > 0 => t,
                _ => DEFAULT_TTL_SECONDS,
            },
            None => DEFAULT_TTL_SECONDS,
        };
        Config { domain_prefix, default_ttl_seconds, code_length: DEFAULT_CODE_LENGTH }
    }

    /// The externally visible short URL of `code`: the address, a slash and
    /// the code.
    pub fn short_url(&self, code: &str) -> (r: String)
        ensures
            r@ == self.domain_prefix@ + "/"@ + code@,
    {
        let mut r = self.domain_prefix.clone();
        r.append("/");
        r.append(code);
        r
    }
}

} // verus!
