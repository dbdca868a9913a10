use shortlink::validate::{classify, validate, InvalidUrl, ParsedUrl};

fn parsed(scheme: &str, host: Option<&str>, href: &str) -> ParsedUrl {
    ParsedUrl { scheme: scheme.to_string(), host: host.map(String::from), href: href.to_string() }
}

#[test]
fn accepts_absolute_https_url() {
    let p = validate("https://example.com/page").unwrap();
    assert_eq!(p, parsed("https", Some("example.com"), "https://example.com/page"));
}

#[test]
fn normalises_what_it_parses() {
    let p = validate("HTTPS://Example.COM").unwrap();
    assert_eq!(p.scheme, "https");
    assert_eq!(p.host.as_deref(), Some("example.com"));
    assert_eq!(p.href, "https://example.com/");
}

#[test]
fn keeps_credentials_port_and_query_out_of_host() {
    let p = validate("ftp://rms@example.com:2121/pub?x=1#top").unwrap();
    assert_eq!(p.scheme, "ftp");
    assert_eq!(p.host.as_deref(), Some("example.com"));
    assert_eq!(p.href, "ftp://rms@example.com:2121/pub?x=1#top");
}

#[test]
fn rejects_empty_string() {
    assert_eq!(validate(""), Err(InvalidUrl::Malformed));
}

#[test]
fn rejects_text_without_scheme() {
    assert_eq!(validate("not-a-url"), Err(InvalidUrl::Malformed));
    assert_eq!(validate("example.com/page"), Err(InvalidUrl::Malformed));
}

#[test]
fn rejects_scheme_relative_and_path_only() {
    assert_eq!(validate("//example.com/page"), Err(InvalidUrl::Malformed));
    assert_eq!(validate("/just/a/path"), Err(InvalidUrl::Malformed));
}

#[test]
fn rejects_http_url_with_empty_host() {
    assert_eq!(validate("http://"), Err(InvalidUrl::Malformed));
}

#[test]
fn rejects_url_without_host() {
    assert_eq!(validate("mailto:someone@example.com"), Err(InvalidUrl::MissingHost));
    assert_eq!(validate("data:text/plain,Stuff"), Err(InvalidUrl::MissingHost));
    assert_eq!(validate("unix:/run/foo.socket"), Err(InvalidUrl::MissingHost));
}

#[test]
fn rejects_file_url_with_empty_host() {
    assert_eq!(validate("file:///etc/hosts"), Err(InvalidUrl::MissingHost));
}

#[test]
fn classify_unparsed_is_malformed() {
    assert_eq!(classify(None), Err(InvalidUrl::Malformed));
}

#[test]
fn classify_empty_scheme_is_missing_scheme() {
    let p = parsed("", Some("example.com"), "//example.com/");
    assert_eq!(classify(Some(p)), Err(InvalidUrl::MissingScheme));
}

#[test]
fn classify_no_host_is_missing_host() {
    assert_eq!(classify(Some(parsed("mailto", None, "mailto:a@b"))), Err(InvalidUrl::MissingHost));
    assert_eq!(classify(Some(parsed("file", Some(""), "file:///x"))), Err(InvalidUrl::MissingHost));
}

#[test]
fn classify_hands_back_a_url_with_scheme_and_host() {
    let p = parsed("https", Some("example.com"), "https://example.com/");
    assert_eq!(classify(Some(p.clone())), Ok(p));
}
