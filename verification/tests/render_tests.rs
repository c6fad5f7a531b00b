use bae::highlighter::{CodeBlockHighlighter, HighlighterError};
use bae::render::render_md_to_html;

fn highlighter() -> CodeBlockHighlighter<bae::class_names::StandardClassNameGenerator> {
    CodeBlockHighlighter::standard_config().unwrap()
}

#[test]
fn heading_and_rust_fence_render_a_highlighted_block() {
    let h = highlighter();
    let r = render_md_to_html("# T\n```rs\nfn x(){}\n```", &h).unwrap();
    assert!(r.html.contains("<h1>T</h1>"));
    assert!(r.html.contains(
        "<div class=\"code-block-div\"><p class=\"language-display\">Rust</p>\
         <pre class=\"code-block\"><code class=\"code-block-code\">"
    ));
    assert!(r.html.contains("<span class=\"highlight-keyword\">fn</span>"));
    assert_eq!(r.metadata, None);
}

#[test]
fn image_renders_with_class_src_and_escaped_alt() {
    let h = highlighter();
    let r = render_md_to_html("![a <i>](http://h/i.png)", &h).unwrap();
    assert!(
        r.html.contains("<img class=\"blog-image\" src=\"http://h/i.png\" alt=\"a &lt;i&gt;\">"),
        "html was: {}",
        r.html
    );
}

#[test]
fn metadata_block_is_extracted_and_leaves_no_trace() {
    let h = highlighter();
    let r = render_md_to_html("+++\n{\"url\":\"a\"}\n+++\nbody text", &h).unwrap();
    assert_eq!(r.metadata.as_deref(), Some("{\"url\":\"a\"}"));
    assert!(r.html.contains("body text"));
    assert!(!r.html.contains("+++"));
    assert!(!r.html.contains("url"));
}

#[test]
fn unknown_fence_language_fails_the_whole_render() {
    let h = highlighter();
    match render_md_to_html("```nosuchlang\ncode\n```", &h) {
        Err(HighlighterError::UnknownLanguage(name)) => assert_eq!(name, "nosuchlang"),
        _ => panic!("expected the unknown-language error"),
    }
}

#[test]
fn untagged_fence_renders_as_plain_text() {
    let h = highlighter();
    let r = render_md_to_html("```\nraw code\n```", &h).unwrap();
    assert!(r.html.contains("<p class=\"language-display\">Plain Text</p>"));
    assert!(r.html.contains("raw code"));
}

#[test]
fn rendering_twice_is_byte_identical() {
    let h = highlighter();
    let input = "+++\n{\"k\":1}\n+++\n# A\n\n![i](u)\n\n```python\ndef f():\n    return 1\n```\ntail";
    let first = render_md_to_html(input, &h).unwrap();
    let second = render_md_to_html(input, &h).unwrap();
    assert_eq!(first.html, second.html);
    assert_eq!(first.metadata, second.metadata);

    let other_table = highlighter();
    let third = render_md_to_html(input, &other_table).unwrap();
    assert_eq!(first.html, third.html);
    assert_eq!(first.metadata, third.metadata);
}

#[test]
fn spans_stay_inside_the_code_region() {
    let h = highlighter();
    let r = render_md_to_html("before\n\n```rust\nlet s = \"x\";\n```\n\nafter", &h).unwrap();
    let html = r.html;
    assert_eq!(html.matches("<span").count(), html.matches("</span>").count());
    let code_start = html.find("<code class=\"code-block-code\">").unwrap();
    let code_end = html.find("</code>").unwrap();
    let first_span = html.find("<span").unwrap();
    let last_close = html.rfind("</span>").unwrap();
    assert!(code_start < first_span);
    assert!(last_close < code_end);
}

#[test]
fn empty_document_renders_to_nothing() {
    let h = highlighter();
    let r = render_md_to_html("", &h).unwrap();
    assert_eq!(r.html, "");
    assert_eq!(r.metadata, None);
}

#[test]
fn javascript_and_cpp_blocks_render_under_their_display_names() {
    let h = highlighter();
    let r = render_md_to_html("```js\nvar x = 1;\n```\n\n```cpp\nint main() {}\n```", &h).unwrap();
    assert!(r.html.contains("<p class=\"language-display\">JavaScript</p>"));
    assert!(r.html.contains("<p class=\"language-display\">C++</p>"));
}
