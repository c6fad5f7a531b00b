use bae::class_names::StandardClassNameGenerator;
use bae::highlight_html::{
    write_html_highlight_end, write_html_highlight_start, write_html_highlight_unescaped,
};

fn generator() -> StandardClassNameGenerator {
    StandardClassNameGenerator::standard_generator()
}

#[test]
fn start_tag_carries_the_generator_class() {
    let mut out = String::new();
    // keyword is table entry 11
    write_html_highlight_start(&mut out, 11, "span", &vec![], &generator());
    assert_eq!(out, "<span class=\"highlight-keyword\">");
}

#[test]
fn additional_class_joins_the_generator_class() {
    let mut out = String::new();
    let attrs = vec![("class".to_string(), Some("extra".to_string()))];
    write_html_highlight_start(&mut out, 11, "span", &attrs, &generator());
    assert_eq!(out, "<span class=\"highlight-keyword extra\">");
}

#[test]
fn other_attributes_follow_the_class_in_order() {
    let mut out = String::new();
    let attrs = vec![
        ("id".to_string(), Some("k1".to_string())),
        ("hidden".to_string(), None),
    ];
    write_html_highlight_start(&mut out, 11, "span", &attrs, &generator());
    assert_eq!(out, "<span class=\"highlight-keyword\" id=\"k1\" hidden>");
}

#[test]
fn end_tag_closes_the_element() {
    let mut out = String::new();
    write_html_highlight_end(&mut out, "span");
    assert_eq!(out, "</span>");
}

#[test]
fn unescaped_region_wraps_the_code_verbatim() {
    let mut out = String::new();
    write_html_highlight_unescaped(&mut out, 21, "span", &vec![], "a < b", &generator());
    // string is table entry 21
    assert_eq!(out, "<span class=\"highlight-string\">a < b</span>");
}
