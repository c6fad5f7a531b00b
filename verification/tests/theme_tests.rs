use bae::class_names::StandardClassNameGenerator;
use bae::theme::{Color, Style, Theme, ThemeError, ThemeRule};

fn bold_style() -> Style {
    Style { color: None, bg_color: None, bold: true, underline: false, italic: false }
}

fn full_style() -> Style {
    Style {
        color: Some(Color { r: 1, g: 2, b: 3, a: None }),
        bg_color: Some(Color { r: 9, g: 8, b: 7, a: Some(128) }),
        bold: true,
        underline: true,
        italic: true,
    }
}

#[test]
fn color_renders_rgb() {
    let c = Color { r: 12, g: 34, b: 56, a: None };
    assert_eq!(c.to_css_color(), "rgb(12, 34, 56)");
}

#[test]
fn color_renders_rgba() {
    let c = Color { r: 0, g: 200, b: 255, a: Some(7) };
    assert_eq!(c.to_css_color(), "rgba(0, 200, 255, 7)");
}

#[test]
fn declarations_come_in_fixed_order() {
    let decls = full_style().to_css_declarations();
    assert_eq!(
        decls,
        vec![
            "color: rgb(1, 2, 3);".to_string(),
            "background-color: rgba(9, 8, 7, 128);".to_string(),
            "text-decoration: underline;".to_string(),
            "font-weight: bold;".to_string(),
            "font-style: italic;".to_string(),
        ]
    );
}

#[test]
fn all_unset_style_yields_zero_declarations() {
    let s = Style::default();
    assert_eq!(s.to_css_declarations(), Vec::<String>::new());
}

#[test]
fn theme_rule_round_trip_preserves_the_style_map() {
    let rules = vec![
        ThemeRule {
            highlight_names: vec!["keyword".to_string(), "function".to_string()],
            style: bold_style(),
        },
        ThemeRule { highlight_names: vec!["string".to_string()], style: full_style() },
    ];
    let theme = Theme::from_rules(&rules).unwrap();
    let reloaded = Theme::from_rules(&theme.to_rules()).unwrap();
    assert_eq!(theme, reloaded);
}

#[test]
fn unknown_highlight_name_is_a_hard_error() {
    let rules = vec![ThemeRule {
        highlight_names: vec!["keyword".to_string(), "nonsense".to_string()],
        style: bold_style(),
    }];
    match Theme::from_rules(&rules) {
        Err(ThemeError::UnknownHighlightName(name)) => assert_eq!(name, "nonsense"),
        _ => panic!("expected the unknown-name error"),
    }
}

#[test]
fn later_rules_overwrite_earlier_ones() {
    let rules = vec![
        ThemeRule { highlight_names: vec!["keyword".to_string()], style: bold_style() },
        ThemeRule { highlight_names: vec!["keyword".to_string()], style: full_style() },
    ];
    let theme = Theme::from_rules(&rules).unwrap();
    // keyword is table entry 11
    assert_eq!(theme.styles[11], Some(full_style()));
}

#[test]
fn css_for_one_styled_category() {
    let rules = vec![ThemeRule { highlight_names: vec!["keyword".to_string()], style: bold_style() }];
    let theme = Theme::from_rules(&rules).unwrap();
    let mut css = String::new();
    theme.write_css_with_class_names(&mut css, &StandardClassNameGenerator::standard_generator());
    assert_eq!(css, ".highlight-keyword {\n  font-weight: bold;\n}\n");
}

#[test]
fn empty_style_still_emits_an_empty_rule_body() {
    let rules = vec![ThemeRule {
        highlight_names: vec!["comment".to_string()],
        style: Style::default(),
    }];
    let theme = Theme::from_rules(&rules).unwrap();
    let mut css = String::new();
    theme.write_css_with_class_names(&mut css, &StandardClassNameGenerator::standard_generator());
    assert_eq!(css, ".highlight-comment {\n}\n");
}

#[test]
fn empty_theme_emits_no_css() {
    let theme = Theme::empty();
    let mut css = String::new();
    theme.write_css_with_class_names(&mut css, &StandardClassNameGenerator::standard_generator());
    assert_eq!(css, "");
}

#[test]
fn rules_for_categories_come_in_table_order() {
    let rules = vec![
        ThemeRule { highlight_names: vec!["string".to_string()], style: bold_style() },
        ThemeRule { highlight_names: vec!["comment".to_string()], style: bold_style() },
    ];
    let theme = Theme::from_rules(&rules).unwrap();
    let mut css = String::new();
    theme.write_css_with_class_names(&mut css, &StandardClassNameGenerator::standard_generator());
    // comment (entry 2) precedes string (entry 21) whatever the rule order
    assert_eq!(
        css,
        ".highlight-comment {\n  font-weight: bold;\n}\n.highlight-string {\n  font-weight: bold;\n}\n"
    );
}
