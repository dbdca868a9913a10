//! Syntactic validation of long URLs.

use vstd::prelude::*;

verus! {

/// What is kept of a parsed absolute URL.
#[derive(Clone, Debug, PartialEq, Eq)]
pub struct ParsedUrl {
    /// The scheme, lower-cased, without the colon.
    pub scheme: String,
    /// The host as it is written in the normalised URL, if the URL has one.
    pub host: Option<String>,
    /// The normalised URL.
    pub href: String,
}

/// The mathematical value of a [`ParsedUrl`].
pub struct UrlParts {
    pub scheme: Seq<char>,
    pub host: Option<Seq<char>>,
    pub href: Seq<char>,
}

impl View for ParsedUrl {
    type V = UrlParts;

    open spec fn view(&self) -> UrlParts {
        UrlParts {
            scheme: self.scheme@,
            host: match self.host {
                Some(h) => Some(h@),
                None => None,
            },
            href: self.href@,
        }
    }
}

/// Why a candidate was rejected.
#[derive(Clone, Copy, Debug, PartialEq, Eq)]
pub enum InvalidUrl {
    /// The text does not parse as an absolute URL.
    Malformed,
    /// The URL has an empty scheme.
    MissingScheme,
    /// The URL has no host, or an empty one.
    MissingHost,
}

/// What `url::Url::parse` makes of `text`: `None` where it reports an error,
/// else the scheme, host and serialisation of the URL it returns.
pub uninterp spec fn url_parts(text: Seq<char>) -> Option<UrlParts>;

/// The rule of validation, on the outcome of parsing: the text must have
/// parsed, and the URL must have a scheme and a non-empty host.
pub open spec fn verdict(parts: Option<UrlParts>) -> Result<UrlParts, InvalidUrl> {
    match parts {
        None => Err(InvalidUrl::Malformed),
        Some(p) => if p.scheme.len() == 0 {
            Err(InvalidUrl::MissingScheme)
        } else if !(p.host matches Some(h) && h.len() > 0) {
            Err(InvalidUrl::MissingHost)
        } else {
            Ok(p)
        },
    }
}

/// Whether `text` is accepted as a long URL.
pub open spec fn is_valid_url(text: Seq<char>) -> bool {
    verdict(url_parts(text)) is Ok
}

/// The view of an optional parsed URL.
pub open spec fn parts_of(parsed: Option<ParsedUrl>) -> Option<UrlParts> {
    match parsed {
        Some(p) => Some(p@),
        None => None,
    }
}

/// `url::Url::parse`, with the scheme (`Url::scheme`), the host
/// (`Url::host_str`) and the serialisation (`String::from`) of the URL it
/// returns. Trusted: the result is what [`url_parts`] names for this text,
/// and `None` exactly where the parser reports an error.
#[verifier::external_body]
fn parse_url(text: &str) -> (r: Option<ParsedUrl>)
    ensures
        parts_of(r) == url_parts(text@),
{
    match url::Url::parse(text) {
        Ok(u) => Some(ParsedUrl {
            scheme: u.scheme().to_string(),
            host: u.host_str().map(String::from),
            href: String::from(u),
        }),
        Err(_) => None,
    }
}

/// Applies the rule of validation to the outcome of parsing.
pub fn classify(parsed: Option<ParsedUrl>) -> (r: Result<ParsedUrl, InvalidUrl>)
    ensures
        match r {
            Ok(p) => parsed == Some(p) && verdict(parts_of(parsed)) == Ok::<UrlParts, InvalidUrl>(p@),
            Err(e) => verdict(parts_of(parsed)) == Err::<UrlParts, InvalidUrl>(e),
        },
{
    match parsed {
        None => Err(InvalidUrl::Malformed),
        Some(p) => {
            if p.scheme.as_str().is_empty() {
                return Err(InvalidUrl::MissingScheme);
            }
            let has_host = match &p.host {
                Some(h) => !h.as_str().is_empty(),
                None => false,
            };
            if has_host {
                Ok(p)
            } else {
                Err(InvalidUrl::MissingHost)
            }
        },
    }
}

/// Validates a candidate long URL: it is accepted if and only if it parses
/// as an absolute URL with a scheme and a non-empty host. Purely syntactic.
pub fn validate(candidate: &str) -> (r: Result<ParsedUrl, InvalidUrl>)
    ensures
        r is Ok <==> is_valid_url(candidate@),
        match r {
            Ok(p) => verdict(url_parts(candidate@)) == Ok::<UrlParts, InvalidUrl>(p@),
            Err(e) => verdict(url_parts(candidate@)) == Err::<UrlParts, InvalidUrl>(e),
        },
{
    classify(parse_url(candidate))
}

} // verus!
