use bae::class_names::StandardClassNameGenerator;
use bae::events::MdEvent;
use bae::highlighter::{code_block_body_html, CodeBlockHighlighter, HighlighterError};
use bae::images::aggregate_images;
use bae::metadata::extract_metadata;
use bae::tokens::{validate_tokens, tokens_to_html_bytes, TokenEvent};

fn generator() -> StandardClassNameGenerator {
    StandardClassNameGenerator::standard_generator()
}

#[test]
fn image_alt_text_is_escaped_exactly() {
    let events = vec![
        MdEvent::ImageStart("http://h/i.png".to_string()),
        MdEvent::Text("alt text <b>&'\"".to_string()),
        MdEvent::ImageEnd,
    ];
    let out = aggregate_images(events, &Some("blog-image".to_string()));
    assert_eq!(out.len(), 1);
    match &out[0] {
        MdEvent::Html(html) => assert_eq!(
            html,
            "<img class=\"blog-image\" src=\"http://h/i.png\" alt=\"alt text &lt;b&gt;&amp;&#39;&quot;\">"
        ),
        _ => panic!("expected one HTML event"),
    }
}

#[test]
fn image_without_class_omits_the_class_clause() {
    let events = vec![
        MdEvent::ImageStart("u".to_string()),
        MdEvent::Text("a".to_string()),
        MdEvent::ImageEnd,
    ];
    let out = aggregate_images(events, &None);
    match &out[0] {
        MdEvent::Html(html) => assert_eq!(html, "<img src=\"u\" alt=\"a\">"),
        _ => panic!("expected one HTML event"),
    }
}

#[test]
fn events_outside_an_image_pass_through() {
    let events = vec![
        MdEvent::Text("before".to_string()),
        MdEvent::ImageStart("u".to_string()),
        MdEvent::ImageEnd,
        MdEvent::Text("after".to_string()),
    ];
    let out = aggregate_images(events, &None);
    assert_eq!(out.len(), 3);
    assert!(matches!(&out[0], MdEvent::Text(t) if t == "before"));
    assert!(matches!(&out[1], MdEvent::Html(_)));
    assert!(matches!(&out[2], MdEvent::Text(t) if t == "after"));
}

#[test]
fn metadata_extractor_takes_the_first_block_only() {
    let events = vec![
        MdEvent::Text("lead".to_string()),
        MdEvent::MetadataBlockStart,
        MdEvent::Text("{\"url\":\"a\"}".to_string()),
        MdEvent::MetadataBlockEnd,
        MdEvent::MetadataBlockStart,
        MdEvent::Text("second".to_string()),
        MdEvent::MetadataBlockEnd,
    ];
    assert_eq!(extract_metadata(&events), Some("{\"url\":\"a\"}".to_string()));
}

#[test]
fn metadata_extractor_finds_nothing_without_a_block() {
    let events = vec![MdEvent::Text("body".to_string())];
    assert_eq!(extract_metadata(&events), None);
}

#[test]
fn unclosed_metadata_block_yields_nothing() {
    let events = vec![
        MdEvent::MetadataBlockStart,
        MdEvent::Text("text".to_string()),
    ];
    assert_eq!(extract_metadata(&events), None);
}

#[test]
fn tokenizer_failure_falls_back_to_the_escaped_source() {
    let body = code_block_body_html("a <b> & 'q'", None, &generator());
    assert_eq!(body, "a &lt;b&gt; &amp; &#39;q&#39;");
    assert!(!body.contains("<span"));
}

#[test]
fn ill_formed_token_runs_fall_back_to_the_escaped_source() {
    // an end with no open span
    let bad = vec![TokenEvent::CategoryEnd];
    assert!(!validate_tokens(&bad, 0));
    let body = code_block_body_html("x<y", Some(bad), &generator());
    assert_eq!(body, "x&lt;y");

    // a start that is never closed
    let unclosed = vec![TokenEvent::CategoryStart { category: 11 }];
    let body = code_block_body_html("x<y", Some(unclosed), &generator());
    assert_eq!(body, "x&lt;y");

    // a slice past the end of the source
    let out_of_range = vec![TokenEvent::Source { start: 0, end: 99 }];
    let body = code_block_body_html("x<y", Some(out_of_range), &generator());
    assert_eq!(body, "x&lt;y");

    // slices that leave a gap, so the run does not cover the source
    let gap = vec![
        TokenEvent::Source { start: 0, end: 1 },
        TokenEvent::Source { start: 2, end: 3 },
    ];
    assert!(!validate_tokens(&gap, 3));
    let body = code_block_body_html("x<y", Some(gap), &generator());
    assert_eq!(body, "x&lt;y");
}

#[test]
fn a_checked_run_renders_one_span_per_start() {
    let tokens = vec![
        TokenEvent::Source { start: 0, end: 3 },
        TokenEvent::CategoryStart { category: 11 },
        TokenEvent::Source { start: 3, end: 5 },
        TokenEvent::CategoryEnd,
    ];
    let src = "ab cd";
    assert!(validate_tokens(&tokens, src.len()));
    let bytes = tokens_to_html_bytes(&tokens, src.as_bytes(), &generator());
    assert_eq!(
        String::from_utf8(bytes).unwrap(),
        "ab <span class=\"highlight-keyword\">cd</span>"
    );
}

#[test]
fn unknown_language_is_a_hard_error_on_the_block_header() {
    let highlighter = CodeBlockHighlighter::standard_config().unwrap();
    let mut out = String::new();
    let r = highlighter.write_code_block_open_html(&mut out, Some("nosuchlang"));
    match r {
        Err(HighlighterError::UnknownLanguage(name)) => assert_eq!(name, "nosuchlang"),
        _ => panic!("expected the unknown-language error"),
    }
    assert_eq!(out, "");
}

#[test]
fn plain_text_block_wraps_the_source_verbatim() {
    let highlighter = CodeBlockHighlighter::standard_config().unwrap();
    let mut out = String::new();
    highlighter.write_code_block(&mut out, None, "let x = 1;").unwrap();
    assert_eq!(
        out,
        "<div class=\"code-block-div\"><p class=\"language-display\">Plain Text</p>\
         <pre class=\"code-block\"><code class=\"code-block-code\">let x = 1;</code></pre></div>"
    );
}

#[test]
fn the_standard_table_registers_eight_aliases() {
    let highlighter = CodeBlockHighlighter::standard_config().unwrap();
    let pairs = [
        ("rust", "Rust"),
        ("rs", "Rust"),
        ("javascript", "JavaScript"),
        ("js", "JavaScript"),
        ("c++", "C++"),
        ("cpp", "C++"),
        ("python", "Python"),
        ("py", "Python"),
    ];
    for (alias, display) in pairs {
        let lang = highlighter.lookup(alias).unwrap();
        assert_eq!(lang.canonical_name, display);
    }
    assert!(highlighter.lookup("haskell").is_none());
}

#[test]
fn rust_code_gets_keyword_spans() {
    let highlighter = CodeBlockHighlighter::standard_config().unwrap();
    let mut out = String::new();
    highlighter.write_code_block(&mut out, Some("rs"), "fn x(){}").unwrap();
    assert!(out.starts_with(
        "<div class=\"code-block-div\"><p class=\"language-display\">Rust</p>\
         <pre class=\"code-block\"><code class=\"code-block-code\">"
    ));
    assert!(out.ends_with("</code></pre></div>"));
    assert!(out.contains("<span class=\"highlight-keyword\">fn</span>"));
    // balanced spans inside the block
    assert_eq!(out.matches("<span").count(), out.matches("</span>").count());
}
