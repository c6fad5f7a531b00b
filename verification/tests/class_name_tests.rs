use bae::categories::{highlight_name, highlight_name_index, highlight_names, HIGHLIGHT_NAME_COUNT};
use bae::class_names::{CssClassNameGenerator, StandardClassNameGenerator};

#[test]
fn standard_generator_configuration() {
    let g = StandardClassNameGenerator::standard_generator();
    assert_eq!(g.highlight_class_prefix, "highlight");
    assert_eq!(g.image_class, "blog-image");
}

#[test]
fn prefix_dash_replaces_dots() {
    let g = StandardClassNameGenerator::standard_generator();
    assert_eq!(
        g.class_for_highlight("constant.builtin", 4),
        Some("highlight-constant-builtin".to_string())
    );
    assert_eq!(g.class_for_highlight("keyword", 11), Some("highlight-keyword".to_string()));
}

#[test]
fn empty_prefix_gives_the_bare_dashed_name() {
    let g = StandardClassNameGenerator {
        highlight_class_prefix: String::new(),
        image_class: "img".to_string(),
    };
    assert_eq!(g.class_for_highlight("variable.parameter", 28), Some("variable-parameter".to_string()));
}

#[test]
fn image_class_comes_from_the_configuration() {
    let g = StandardClassNameGenerator::standard_generator();
    assert_eq!(g.class_for_image(), Some("blog-image".to_string()));
}

#[test]
fn generator_is_deterministic_over_the_whole_table() {
    let g1 = StandardClassNameGenerator::standard_generator();
    let g2 = StandardClassNameGenerator::standard_generator();
    let mut i = 0;
    while i < HIGHLIGHT_NAME_COUNT {
        let name = highlight_name(i);
        let first = g1.class_for_highlight(name, i);
        let second = g1.class_for_highlight(name, i);
        let other_instance = g2.class_for_highlight(name, i);
        assert!(first.is_some());
        assert_eq!(first, second);
        assert_eq!(first, other_instance);
        i += 1;
    }
}

#[test]
fn the_table_has_29_entries_with_stable_indices() {
    let names = highlight_names();
    assert_eq!(names.len(), 29);
    assert_eq!(names[0], "attribute");
    assert_eq!(names[11], "keyword");
    assert_eq!(names[28], "variable.parameter");
    let mut i = 0;
    while i < HIGHLIGHT_NAME_COUNT {
        assert_eq!(highlight_name_index(&names[i]), Some(i));
        i += 1;
    }
    assert_eq!(highlight_name_index("no-such-category"), None);
}
