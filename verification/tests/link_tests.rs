use github_stats::link::{
    parse_link_header, parse_next_url, record_link, split_link_entry, LinkEntry, LinkError,
};
use github_stats::response::HeaderValue;
use github_stats::text_map::TextMap;

const PAGE_TWO: &str = "https://api.github.com/search/repositories?q=user%3Aoctocat&per_page=100&page=2";
const PAGE_FIVE: &str = "https://api.github.com/search/repositories?q=user%3Aoctocat&per_page=100&page=5";

fn text(s: &str) -> HeaderValue {
    HeaderValue::Text(s.to_string())
}

#[test]
fn next_and_last_are_both_read() {
    let header = format!("<{}>; rel=\"next\", <{}>; rel=\"last\"", PAGE_TWO, PAGE_FIVE);
    let links = parse_link_header(&header).unwrap();
    assert_eq!(links.len(), 2);
    assert_eq!(links.get("next").map(|s| s.as_str()), Some(PAGE_TWO));
    assert_eq!(links.get("last").map(|s| s.as_str()), Some(PAGE_FIVE));
    assert!(links.contains_key("next"));
    assert!(!links.contains_key("prev"));
    assert_eq!(links.get("prev"), None);
}

#[test]
fn next_url_is_the_relation_next() {
    let header = format!("<{}>; rel=\"last\", <{}>; rel=\"next\"", PAGE_FIVE, PAGE_TWO);
    assert_eq!(parse_next_url(&text(&header)), Ok(Some(PAGE_TWO.to_string())));
}

#[test]
fn header_without_next_names_no_page() {
    let header = format!("<{}>; rel=\"prev\", <{}>; rel=\"first\"", PAGE_TWO, PAGE_FIVE);
    assert_eq!(parse_next_url(&text(&header)), Ok(None));
}

#[test]
fn missing_header_names_no_page() {
    assert_eq!(parse_next_url(&HeaderValue::Missing), Ok(None));
}

#[test]
fn opaque_header_is_an_error() {
    assert_eq!(parse_next_url(&HeaderValue::Opaque), Err(LinkError::Unreadable));
}

#[test]
fn parsed_urls_are_normalised() {
    let links = parse_link_header("<HTTP://Example.COM>; rel=\"next\"").unwrap();
    assert_eq!(links.get("next").map(|s| s.as_str()), Some("http://example.com/"));
    let links = parse_link_header("<https://example.com/a/../b c>; rel=\"next\"").unwrap();
    assert_eq!(links.get("next").map(|s| s.as_str()), Some("https://example.com/b%20c"));
}

#[test]
fn entry_with_one_part_fails() {
    assert!(matches!(parse_link_header("<https://example.com/>"), Err(LinkError::PartCount)));
    assert!(matches!(parse_link_header(""), Err(LinkError::PartCount)));
    let header = format!("<{}>; rel=\"next\",", PAGE_TWO);
    assert!(matches!(parse_link_header(&header), Err(LinkError::PartCount)));
}

#[test]
fn entry_with_three_parts_fails() {
    assert!(matches!(
        parse_link_header("<https://example.com/>; rel=\"next\"; title=\"x\""),
        Err(LinkError::PartCount)
    ));
}

#[test]
fn malformed_url_fails() {
    assert!(matches!(parse_link_header("<not a url>; rel=\"next\""), Err(LinkError::InvalidUrl)));
    assert!(matches!(parse_link_header("</relative/path>; rel=\"next\""), Err(LinkError::InvalidUrl)));
    assert!(matches!(parse_link_header("; rel=\"next\""), Err(LinkError::InvalidUrl)));
}

#[test]
fn first_failing_entry_decides_the_error() {
    assert!(matches!(
        parse_link_header("<nope>; rel=\"next\", <https://example.com/>"),
        Err(LinkError::InvalidUrl)
    ));
    assert!(matches!(
        parse_link_header("<https://example.com/>, <nope>; rel=\"next\""),
        Err(LinkError::PartCount)
    ));
}

#[test]
fn entry_without_equals_adds_nothing() {
    let links = parse_link_header("<https://example.com/>; next").unwrap();
    assert_eq!(links.len(), 0);
    let links =
        parse_link_header("<https://example.com/a>; next, <https://example.com/b>; rel=last").unwrap();
    assert_eq!(links.len(), 1);
    assert_eq!(links.get("last").map(|s| s.as_str()), Some("https://example.com/b"));
}

#[test]
fn later_entry_replaces_an_earlier_one() {
    let links = parse_link_header(
        "<https://example.com/a>; rel=\"next\", <https://example.com/b>; rel=\"next\"",
    )
    .unwrap();
    assert_eq!(links.len(), 1);
    assert_eq!(links.get("next").map(|s| s.as_str()), Some("https://example.com/b"));
}

#[test]
fn split_link_entry_gives_both_tokens() {
    assert_eq!(
        split_link_entry(" <https://example.com/x?page=2> ; rel=\"next\""),
        Ok(LinkEntry { url: "https://example.com/x?page=2".to_string(), rel: Some("next".to_string()) })
    );
    assert_eq!(
        split_link_entry("< https://example.com >;rel= \"last\" "),
        Ok(LinkEntry { url: "https://example.com".to_string(), rel: Some("\"last\"".to_string()) })
    );
    assert_eq!(
        split_link_entry("<u>; rel=\"a=b\""),
        Ok(LinkEntry { url: "u".to_string(), rel: Some("a=b".to_string()) })
    );
    assert_eq!(
        split_link_entry("<u>; rel"),
        Ok(LinkEntry { url: "u".to_string(), rel: None })
    );
    assert_eq!(
        split_link_entry(";="),
        Ok(LinkEntry { url: "".to_string(), rel: Some("".to_string()) })
    );
}

#[test]
fn split_link_entry_counts_the_parts() {
    assert_eq!(split_link_entry("<u>"), Err(LinkError::PartCount));
    assert_eq!(split_link_entry(""), Err(LinkError::PartCount));
    assert_eq!(split_link_entry("a;b;c"), Err(LinkError::PartCount));
    assert_eq!(split_link_entry(";;"), Err(LinkError::PartCount));
}

#[test]
fn record_link_keeps_named_relations_only() {
    let mut links = TextMap::new();
    let parsed = url::Url::parse("https://example.com/a").map(String::from);
    assert_eq!(record_link(&mut links, None, parsed), Ok(()));
    assert_eq!(links.len(), 0);
    let parsed = url::Url::parse("https://example.com/b").map(String::from);
    assert_eq!(record_link(&mut links, Some("next".to_string()), parsed), Ok(()));
    assert_eq!(links.len(), 1);
    assert_eq!(links.get("next").map(|s| s.as_str()), Some("https://example.com/b"));
    let parsed = url::Url::parse("https://example.com/c").map(String::from);
    assert_eq!(record_link(&mut links, Some("next".to_string()), parsed), Ok(()));
    assert_eq!(links.len(), 1);
    assert_eq!(links.get("next").map(|s| s.as_str()), Some("https://example.com/c"));
}

#[test]
fn record_link_rejects_a_failed_parse() {
    let mut links = TextMap::new();
    let parsed = url::Url::parse("https://example.com/a").map(String::from);
    assert_eq!(record_link(&mut links, Some("next".to_string()), parsed), Ok(()));
    let parsed = url::Url::parse("no url").map(String::from);
    assert!(parsed.is_err());
    assert_eq!(
        record_link(&mut links, Some("next".to_string()), parsed),
        Err(LinkError::InvalidUrl)
    );
    assert_eq!(links.len(), 1);
    assert_eq!(links.get("next").map(|s| s.as_str()), Some("https://example.com/a"));
}
