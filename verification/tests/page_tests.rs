//! Tests for the page text, the HTML escaping and the clock wrapper.

use topic_monitor::clock::get_timestamp;
use topic_monitor::escape::html_escape_string;
use topic_monitor::page::generate_html;

#[test]
fn escape_replaces_markup_characters() {
    assert_eq!(html_escape_string("a > b && a < c"), "a &gt; b &amp;&amp; a &lt; c");
}

#[test]
fn escape_leaves_plain_text_alone() {
    assert_eq!(html_escape_string("plain text 123"), "plain text 123");
}

#[test]
fn escape_of_empty_is_empty() {
    assert_eq!(html_escape_string(""), "");
}

#[test]
fn page_with_decoder_has_decoded_column() {
    let page = generate_html(true);
    assert!(page.starts_with("<!DOCTYPE html>"));
    assert!(page.contains("<th>Decoded Content</th>"));
    assert!(page.contains("const hasDecoder = true;"));
    assert!(page.contains("th:nth-child(5) { width: 45%; }"));
    assert!(page.contains("with custom decoder"));
    assert!(page.ends_with("</html>"));
}

#[test]
fn page_without_decoder_has_no_decoded_column() {
    let page = generate_html(false);
    assert!(page.starts_with("<!DOCTYPE html>"));
    assert!(!page.contains("<th>Decoded Content</th>"));
    assert!(page.contains("const hasDecoder = false;"));
    assert!(!page.contains("th:nth-child(5)"));
    assert!(!page.contains("with custom decoder"));
    assert!(page.ends_with("</html>"));
}

#[test]
fn timestamp_is_after_the_epoch() {
    assert!(get_timestamp() > 0);
}

#[test]
fn timestamps_do_not_go_backwards() {
    let first = get_timestamp();
    let second = get_timestamp();
    assert!(second >= first);
}
