use bae::text::{escape, escape_byte, str_eq, u8_to_string};

#[test]
fn test_escape() {
    let mut actual = r#"abc<>'"&123"#.to_string();
    escape(&mut actual);
    assert_eq!(actual, "abc&lt;&gt;&#39;&quot;&amp;123");
}

#[test]
fn escape_keeps_plain_text() {
    let mut actual = "plain text, no specials".to_string();
    escape(&mut actual);
    assert_eq!(actual, "plain text, no specials");
}

#[test]
fn escape_empty_string() {
    let mut actual = String::new();
    escape(&mut actual);
    assert_eq!(actual, "");
}

#[test]
fn escape_keeps_multibyte_characters() {
    let mut actual = "caf\u{e9} <& \u{1f600}".to_string();
    escape(&mut actual);
    assert_eq!(actual, "caf\u{e9} &lt;&amp; \u{1f600}");
}

#[test]
fn escape_byte_maps_exactly_five_bytes() {
    assert_eq!(escape_byte(b'>'), Some("&gt;"));
    assert_eq!(escape_byte(b'<'), Some("&lt;"));
    assert_eq!(escape_byte(b'&'), Some("&amp;"));
    assert_eq!(escape_byte(b'\''), Some("&#39;"));
    assert_eq!(escape_byte(b'"'), Some("&quot;"));
    assert_eq!(escape_byte(b'a'), None);
    assert_eq!(escape_byte(0), None);
    assert_eq!(escape_byte(255), None);
}

#[test]
fn str_eq_compares_contents() {
    assert!(str_eq("abc", "abc"));
    assert!(!str_eq("abc", "abd"));
    assert!(!str_eq("abc", "ab"));
    assert!(str_eq("", ""));
    assert!(str_eq("\u{1f600}", "\u{1f600}"));
}

#[test]
fn u8_to_string_all_widths() {
    assert_eq!(u8_to_string(0), "0");
    assert_eq!(u8_to_string(7), "7");
    assert_eq!(u8_to_string(10), "10");
    assert_eq!(u8_to_string(99), "99");
    assert_eq!(u8_to_string(100), "100");
    assert_eq!(u8_to_string(255), "255");
}
