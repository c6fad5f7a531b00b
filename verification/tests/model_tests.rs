use bae::highlighter::CodeBlockHighlighter;
use bae::model::{Author, BlogPost, MdOrHtml, PartialBlogPost, Tag, generate_reading_time};

fn partial_post(contents: MdOrHtml) -> PartialBlogPost {
    PartialBlogPost {
        url: "url".to_string(),
        title: "Title".to_string(),
        description: "Desc".to_string(),
        author: Author("Quiet".to_string()),
        contents,
        tags: vec![Tag("post".to_string())],
        accessible: true,
        publication_date: Some(0),
    }
}

fn post(accessible: bool, publication_date: Option<i64>) -> BlogPost {
    BlogPost {
        url: "url".to_string(),
        title: "Title".to_string(),
        description: "Desc".to_string(),
        author: Author("Quiet".to_string()),
        markdown: None,
        html: "x".to_string(),
        tags: vec![],
        reading_time_minutes: 1,
        accessible,
        publication_date,
    }
}

#[test]
fn contents_returns_either_form() {
    let md = MdOrHtml::Markdown("m".to_string());
    let html = MdOrHtml::Html("h".to_string());
    assert_eq!(md.contents(), "m");
    assert_eq!(html.contents(), "h");
    assert_eq!(md.markdown(), Some("m"));
    assert_eq!(md.html(), None);
    assert_eq!(html.markdown(), None);
    assert_eq!(html.html(), Some("h"));
}

#[test]
fn reading_time_rounds_down_at_200_words_per_minute() {
    let text_300 = "word ".repeat(300);
    assert_eq!(generate_reading_time(&text_300), 1);
    let text_400 = "word ".repeat(400);
    assert_eq!(generate_reading_time(&text_400), 2);
    assert_eq!(generate_reading_time(""), 0);
    assert_eq!(generate_reading_time("just a few words"), 0);
}

#[test]
fn is_public_at_needs_accessible_and_a_past_date() {
    assert!(post(true, Some(100)).is_public_at(100));
    assert!(post(true, Some(100)).is_public_at(101));
    assert!(!post(true, Some(100)).is_public_at(99));
    assert!(!post(true, None).is_public_at(100));
    assert!(!post(false, Some(100)).is_public_at(100));
    assert!(!post(false, None).is_public_at(100));
}

#[test]
fn generate_blog_post_keeps_ready_html() {
    let h = CodeBlockHighlighter::standard_config().unwrap();
    let post = partial_post(MdOrHtml::Html("<b>x</b>".to_string())).generate_blog_post(&h).unwrap();
    assert_eq!(post.html, "<b>x</b>");
    assert_eq!(post.markdown, None);
    assert_eq!(post.url, "url");
    assert_eq!(post.author, Author("Quiet".to_string()));
    assert_eq!(post.tags, vec![Tag("post".to_string())]);
    assert!(post.accessible);
    assert_eq!(post.publication_date, Some(0));
    assert_eq!(post.reading_time_minutes, 0);
}

#[test]
fn generate_blog_post_renders_markdown() {
    let h = CodeBlockHighlighter::standard_config().unwrap();
    let post = partial_post(MdOrHtml::Markdown("test *bold*".to_string()))
        .generate_blog_post(&h)
        .unwrap();
    assert_eq!(post.markdown.as_deref(), Some("test *bold*"));
    assert!(post.html.contains("<em>bold</em>"));
}

#[test]
fn typed_paths_carry_their_keys() {
    let p = post(true, None);
    assert_eq!(p.full_path().post_url, "url");
    let tag = Tag("systems".to_string());
    assert_eq!(tag.full_path().tag, tag);
}

#[test]
fn is_public_consults_the_clock() {
    // published at the epoch, long past by any clock reading
    assert!(post(true, Some(0)).is_public());
    assert!(!post(false, Some(0)).is_public());
    assert!(!post(true, None).is_public());
    // i64::MAX seconds lies far in the future
    assert!(!post(true, Some(i64::MAX)).is_public());
}

#[test]
fn author_and_tag_wrap_strings() {
    let a: Author = Author::from("name".to_string());
    assert_eq!(a, Author("name".to_string()));
    let t: Tag = Tag::from("tag".to_string());
    assert_eq!(t, Tag("tag".to_string()));
}
