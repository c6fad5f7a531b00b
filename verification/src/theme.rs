//! Themes: a sparse map from highlight categories to styles.
//!
//! A theme's external form is a list of rules, each giving a list of
//! category names and one style. Loading resolves every name against
//! the fixed category table — an unknown name is a hard error — and
//! later rules overwrite earlier ones for the same category. The theme
//! drives CSS generation: one rule per styled category whose generator
//! class is present, with declarations in a fixed order.

use crate::categories::{
    highlight_name, lemma_name_index_of_name, spec_highlight_name, spec_name_index,
    HIGHLIGHT_NAME_COUNT,
};
use crate::class_names::CssClassNameGenerator;
use crate::text::{spec_dec, u8_to_string};
use vstd::prelude::*;

verus! {

/// An RGB color with an optional alpha byte.
#[derive(Copy, Clone, PartialEq, Eq, Structural, Debug)]
pub struct Color {
    pub r: u8,
    pub g: u8,
    pub b: u8,
    pub a: Option<u8>,
}

/// One category's style: optional colors and three flags.
#[derive(Copy, Clone, PartialEq, Eq, Structural, Debug)]
pub struct Style {
    pub color: Option<Color>,
    pub bg_color: Option<Color>,
    pub bold: bool,
    pub underline: bool,
    pub italic: bool,
}

impl Default for Style {
    /// The all-unset style, which yields zero declarations.
    fn default() -> (r: Style)
        ensures
            r.color is None && r.bg_color is None && !r.bold && !r.underline && !r.italic,
    {
        Style { color: None, bg_color: None, bold: false, underline: false, italic: false }
    }
}

/// A style map over the category table: entry `i` styles category `i`.
#[derive(Clone, PartialEq, Eq, Debug)]
pub struct Theme {
    pub styles: Vec<Option<Style>>,
}

/// One rule of a theme's external form.
#[derive(Clone, PartialEq, Eq, Debug)]
pub struct ThemeRule {
    pub highlight_names: Vec<String>,
    pub style: Style,
}

/// Why a theme document was rejected.
#[derive(Clone, PartialEq, Eq, Debug)]
pub enum ThemeError {
    /// A rule named a category outside the fixed table.
    UnknownHighlightName(String),
}

/// The CSS color literal for `c`.
pub open spec fn spec_css_color(c: Color) -> Seq<char> {
    match c.a {
        Some(a) => "rgba("@ + spec_dec(c.r as int) + ", "@ + spec_dec(c.g as int) + ", "@
            + spec_dec(c.b as int) + ", "@ + spec_dec(a as int) + ")"@,
        None => "rgb("@ + spec_dec(c.r as int) + ", "@ + spec_dec(c.g as int) + ", "@ + spec_dec(
            c.b as int,
        ) + ")"@,
    }
}

/// The ordered CSS declarations of a style, one per set field.
pub open spec fn spec_css_declarations(s: Style) -> Seq<Seq<char>> {
    (match s.color {
        Some(c) => seq!["color: "@ + spec_css_color(c) + ";"@],
        None => Seq::empty(),
    }) + (match s.bg_color {
        Some(c) => seq!["background-color: "@ + spec_css_color(c) + ";"@],
        None => Seq::empty(),
    }) + (if s.underline {
        seq!["text-decoration: underline;"@]
    } else {
        Seq::empty()
    }) + (if s.bold {
        seq!["font-weight: bold;"@]
    } else {
        Seq::empty()
    }) + (if s.italic {
        seq!["font-style: italic;"@]
    } else {
        Seq::empty()
    })
}

impl Color {
    /// Renders to `rgb(r, g, b)`, or `rgba(r, g, b, a)` with an alpha.
    pub fn to_css_color(&self) -> (r: String)
        ensures
            r@ == spec_css_color(*self),
    {
        let mut out: String;
        match self.a {
            Some(a) => {
                out = String::from_str("rgba(");
                out.append(u8_to_string(self.r).as_str());
                out.append(", ");
                out.append(u8_to_string(self.g).as_str());
                out.append(", ");
                out.append(u8_to_string(self.b).as_str());
                out.append(", ");
                out.append(u8_to_string(a).as_str());
                out.append(")");
            },
            None => {
                out = String::from_str("rgb(");
                out.append(u8_to_string(self.r).as_str());
                out.append(", ");
                out.append(u8_to_string(self.g).as_str());
                out.append(", ");
                out.append(u8_to_string(self.b).as_str());
                out.append(")");
            },
        }
        out
    }
}

impl Style {
    /// The declarations of this style, in the fixed order: color,
    /// background, underline, bold, italic.
    pub fn to_css_declarations(&self) -> (r: Vec<String>)
        ensures
            r.deep_view() == spec_css_declarations(*self),
    {
        let mut out: Vec<String> = Vec::new();
        match self.color {
            Some(color) => {
                let mut d = String::from_str("color: ");
                d.append(color.to_css_color().as_str());
                d.append(";");
                out.push(d);
            },
            None => {},
        }
        match self.bg_color {
            Some(bg_color) => {
                let mut d = String::from_str("background-color: ");
                d.append(bg_color.to_css_color().as_str());
                d.append(";");
                out.push(d);
            },
            None => {},
        }
        if self.underline {
            out.push(String::from_str("text-decoration: underline;"));
        }
        if self.bold {
            out.push(String::from_str("font-weight: bold;"));
        }
        if self.italic {
            out.push(String::from_str("font-style: italic;"));
        }
        proof {
            assert(out.deep_view() =~= spec_css_declarations(*self));
        }
        out
    }
}

/// The text of one CSS rule.
pub open spec fn spec_css_rule(class: Seq<char>, style: Style) -> Seq<char> {
    "."@ + class + " {\n"@ + spec_decl_lines(spec_css_declarations(style)) + "}\n"@
}

/// The indented declaration lines of a rule body.
pub open spec fn spec_decl_lines(decls: Seq<Seq<char>>) -> Seq<char>
    decreases decls.len(),
{
    if decls.len() == 0 {
        Seq::empty()
    } else {
        "  "@ + decls[0] + "\n"@ + spec_decl_lines(decls.drop_first())
    }
}

/// The rule emitted for category `i`, or nothing when the category is
/// unstyled or the generator gives it no class.
pub open spec fn spec_rule_at<G: CssClassNameGenerator>(
    styles: Seq<Option<Style>>,
    g: &G,
    i: int,
) -> Seq<char> {
    match styles[i] {
        Some(style) => match g.spec_class_for_highlight(spec_highlight_name(i), i) {
            Some(class) => spec_css_rule(class, style),
            None => Seq::empty(),
        },
        None => Seq::empty(),
    }
}

/// The stylesheet text for the first `k` categories.
pub open spec fn spec_theme_css_upto<G: CssClassNameGenerator>(
    styles: Seq<Option<Style>>,
    g: &G,
    k: int,
) -> Seq<char>
    decreases k,
{
    if k <= 0 {
        Seq::empty()
    } else {
        spec_theme_css_upto(styles, g, k - 1) + spec_rule_at(styles, g, k - 1)
    }
}

/// The whole stylesheet a theme generates under a generator.
pub open spec fn spec_theme_css<G: CssClassNameGenerator>(
    styles: Seq<Option<Style>>,
    g: &G,
) -> Seq<char> {
    spec_theme_css_upto(styles, g, HIGHLIGHT_NAME_COUNT as int)
}

/// The all-unstyled map.
pub open spec fn spec_empty_styles() -> Seq<Option<Style>> {
    Seq::new(HIGHLIGHT_NAME_COUNT as nat, |i: int| None)
}

/// A rule as a mathematical value: its name list and its style.
pub open spec fn spec_rule_view(r: ThemeRule) -> (Seq<Seq<char>>, Style) {
    (r.highlight_names.deep_view(), r.style)
}

/// Applies one rule's names to a style map; the first unknown name is
/// the error.
pub open spec fn spec_apply_names(
    styles: Seq<Option<Style>>,
    names: Seq<Seq<char>>,
    style: Style,
) -> Result<Seq<Option<Style>>, Seq<char>>
    decreases names.len(),
{
    if names.len() == 0 {
        Ok(styles)
    } else {
        match spec_name_index(names[0]) {
            Some(i) => spec_apply_names(styles.update(i, Some(style)), names.drop_first(), style),
            None => Err(names[0]),
        }
    }
}

/// Applies a rule list to a style map, left to right; later rules win.
pub open spec fn spec_from_rules(
    styles: Seq<Option<Style>>,
    rules: Seq<(Seq<Seq<char>>, Style)>,
) -> Result<Seq<Option<Style>>, Seq<char>>
    decreases rules.len(),
{
    if rules.len() == 0 {
        Ok(styles)
    } else {
        match spec_apply_names(styles, rules[0].0, rules[0].1) {
            Ok(next) => spec_from_rules(next, rules.drop_first()),
            Err(e) => Err(e),
        }
    }
}

/// The serialized rule list of the first `k` categories: one
/// single-name rule per styled category, in table order.
pub open spec fn spec_to_rule_views(styles: Seq<Option<Style>>, k: int) -> Seq<
    (Seq<Seq<char>>, Style),
>
    decreases k,
{
    if k <= 0 {
        Seq::empty()
    } else {
        spec_to_rule_views(styles, k - 1) + (match styles[k - 1] {
            Some(style) => seq![(seq![spec_highlight_name(k - 1)], style)],
            None => Seq::empty(),
        })
    }
}

impl Theme {
    /// A theme styles exactly the categories of the fixed table.
    pub open spec fn wf(&self) -> bool {
        self.styles@.len() == HIGHLIGHT_NAME_COUNT
    }

    /// The theme with no category styled.
    pub fn empty() -> (r: Theme)
        ensures
            r.wf(),
            r.styles@ =~= spec_empty_styles(),
    {
        let mut styles: Vec<Option<Style>> = Vec::new();
        let mut i: usize = 0;
        while i < HIGHLIGHT_NAME_COUNT
            invariant
                i <= HIGHLIGHT_NAME_COUNT,
                styles@.len() == i,
                forall|j: int| 0 <= j < i ==> styles@[j] is None,
            decreases HIGHLIGHT_NAME_COUNT - i,
        {
            styles.push(None);
            i = i + 1;
        }
        Theme { styles }
    }

    /// Loads a theme from its external rule-list form. Returns the
    /// error naming the first unknown category; later rules overwrite
    /// earlier ones.
    pub fn from_rules(rules: &Vec<ThemeRule>) -> (r: Result<Theme, ThemeError>)
        ensures
            match r {
                Ok(t) => t.wf() && spec_from_rules(
                    spec_empty_styles(),
                    rules@.map_values(|tr: ThemeRule| spec_rule_view(tr)),
                ) == Ok::<_, Seq<char>>(t.styles@),
                Err(ThemeError::UnknownHighlightName(n)) => spec_from_rules(
                    spec_empty_styles(),
                    rules@.map_values(|tr: ThemeRule| spec_rule_view(tr)),
                ) == Err::<Seq<Option<Style>>, _>(n@),
            },
    {
        let ghost rule_views = rules@.map_values(|tr: ThemeRule| spec_rule_view(tr));
        let mut theme = Theme::empty();
        proof {
            assert(rule_views.skip(0) =~= rule_views);
        }
        let mut ri: usize = 0;
        while ri < rules.len()
            invariant
                ri <= rules@.len(),
                rule_views == rules@.map_values(|tr: ThemeRule| spec_rule_view(tr)),
                theme.wf(),
                spec_from_rules(spec_empty_styles(), rule_views) == spec_from_rules(
                    theme.styles@,
                    rule_views.skip(ri as int),
                ),
            decreases rules@.len() - ri,
        {
            let rule = &rules[ri];
            let style = rule.style;
            let ghost names = rule.highlight_names.deep_view();
            let ghost entry_styles = theme.styles@;
            proof {
                assert(rule_views[ri as int] == spec_rule_view(rules@[ri as int]));
                assert(rule_views.skip(ri as int)[0] == rule_views[ri as int]);
                assert(names.skip(0) =~= names);
                assert(names.len() == rule.highlight_names@.len());
            }
            let mut ni: usize = 0;
            while ni < rule.highlight_names.len()
                invariant
                    ni <= names.len(),
                    names == rule.highlight_names.deep_view(),
                    names.len() == rule.highlight_names@.len(),
                    style == rules@[ri as int].style,
                    names == rules@[ri as int].highlight_names.deep_view(),
                    ri < rules@.len(),
                    rule == &rules@[ri as int],
                    rule_views == rules@.map_values(|tr: ThemeRule| spec_rule_view(tr)),
                    theme.wf(),
                    spec_from_rules(spec_empty_styles(), rule_views) == spec_from_rules(
                        entry_styles,
                        rule_views.skip(ri as int),
                    ),
                    spec_apply_names(entry_styles, names, style) == spec_apply_names(
                        theme.styles@,
                        names.skip(ni as int),
                        style,
                    ),
                decreases names.len() - ni,
            {
                let name = &rule.highlight_names[ni];
                proof {
                    assert(names.skip(ni as int)[0] == names[ni as int]);
                    assert(names[ni as int] == name@);
                    assert(names.skip(ni as int).drop_first() =~= names.skip(ni + 1));
                }
                match crate::categories::highlight_name_index(name.as_str()) {
                    Some(i) => {
                        theme.styles.set(i, Some(style));
                    },
                    None => {
                        proof {
                            assert(spec_apply_names(entry_styles, names, style)
                                == Err::<Seq<Option<Style>>, _>(name@));
                            assert(rule_views.skip(ri as int)[0] == rule_views[ri as int]);
                            assert(rule_views[ri as int] == spec_rule_view(rules@[ri as int]));
                            assert(rule_views[ri as int].0 == names);
                            assert(rule_views[ri as int].1 == style);
                            assert(spec_from_rules(entry_styles, rule_views.skip(ri as int))
                                == Err::<Seq<Option<Style>>, Seq<char>>(name@));
                        }
                        return Err(ThemeError::UnknownHighlightName(name.clone()));
                    },
                }
                ni = ni + 1;
            }
            proof {
                assert(names.skip(names.len() as int) =~= Seq::<Seq<char>>::empty());
                assert(spec_apply_names(theme.styles@, Seq::<Seq<char>>::empty(), style)
                    == Ok::<_, Seq<char>>(theme.styles@));
                assert(spec_apply_names(entry_styles, names, style) == Ok::<_, Seq<char>>(
                    theme.styles@,
                ));
                assert(rule_views.skip(ri as int)[0] == rule_views[ri as int]);
                assert(rule_views[ri as int] == spec_rule_view(rules@[ri as int]));
                assert(rule_views[ri as int].0 == names);
                assert(rule_views[ri as int].1 == style);
                assert(rule_views.skip(ri as int).drop_first() =~= rule_views.skip(ri + 1));
                assert(spec_from_rules(entry_styles, rule_views.skip(ri as int)) == spec_from_rules(
                    theme.styles@,
                    rule_views.skip(ri + 1),
                ));
            }
            ri = ri + 1;
        }
        proof {
            assert(rule_views.skip(rules@.len() as int) =~= Seq::<(Seq<Seq<char>>, Style)>::empty());
            assert(spec_from_rules(theme.styles@, Seq::<(Seq<Seq<char>>, Style)>::empty())
                == Ok::<_, Seq<char>>(theme.styles@));
        }
        Ok(theme)
    }

    /// Serializes the theme to its external rule-list form: one rule
    /// per styled category, each carrying that category's single name.
    pub fn to_rules(&self) -> (r: Vec<ThemeRule>)
        requires
            self.wf(),
        ensures
            r@.map_values(|tr: ThemeRule| spec_rule_view(tr)) == spec_to_rule_views(
                self.styles@,
                HIGHLIGHT_NAME_COUNT as int,
            ),
    {
        let mut out: Vec<ThemeRule> = Vec::new();
        let mut i: usize = 0;
        while i < HIGHLIGHT_NAME_COUNT
            invariant
                i <= HIGHLIGHT_NAME_COUNT,
                self.wf(),
                out@.map_values(|tr: ThemeRule| spec_rule_view(tr)) =~= spec_to_rule_views(
                    self.styles@,
                    i as int,
                ),
            decreases HIGHLIGHT_NAME_COUNT - i,
        {
            match self.styles[i] {
                Some(style) => {
                    let mut names: Vec<String> = Vec::new();
                    names.push(String::from_str(highlight_name(i)));
                    proof {
                        assert(names.deep_view() =~= seq![spec_highlight_name(i as int)]);
                    }
                    out.push(ThemeRule { highlight_names: names, style });
                },
                None => {},
            }
            proof {
                assert(out@.map_values(|tr: ThemeRule| spec_rule_view(tr)) =~= spec_to_rule_views(
                    self.styles@,
                    i + 1,
                ));
            }
            i = i + 1;
        }
        out
    }

    /// Writes the stylesheet for this theme: for each styled category,
    /// in table order, one rule under the generator's class, skipping
    /// categories the generator gives no class.
    #[verifier::rlimit(50)]
    pub fn write_css_with_class_names<G: CssClassNameGenerator>(
        &self,
        out: &mut String,
        class_name_generator: &G,
    )
        requires
            self.wf(),
        ensures
            final(out)@ == old(out)@ + spec_theme_css(self.styles@, class_name_generator),
    {
        let mut i: usize = 0;
        while i < HIGHLIGHT_NAME_COUNT
            invariant
                i <= HIGHLIGHT_NAME_COUNT,
                self.wf(),
                out@ == old(out)@ + spec_theme_css_upto(self.styles@, class_name_generator, i as int),
            decreases HIGHLIGHT_NAME_COUNT - i,
        {
            match self.styles[i] {
                Some(style) => {
                    match class_name_generator.class_for_highlight(highlight_name(i), i) {
                        Some(class) => {
                            out.append(".");
                            out.append(class.as_str());
                            out.append(" {\n");
                            let decls = style.to_css_declarations();
                            let ghost decl_views = spec_css_declarations(style);
                            let ghost before = out@;
                            proof {
                                assert(decl_views.take(0) =~= Seq::<Seq<char>>::empty());
                                assert(spec_decl_lines(Seq::<Seq<char>>::empty())
                                    =~= Seq::<char>::empty());
                                assert(before =~= before + spec_decl_lines(decl_views.take(0)));
                            }
                            let mut di: usize = 0;
                            while di < decls.len()
                                invariant
                                    di <= decls@.len(),
                                    decls.deep_view() == decl_views,
                                    out@ == before + spec_decl_lines(decl_views.take(di as int)),
                                decreases decls@.len() - di,
                            {
                                out.append("  ");
                                out.append(decls[di].as_str());
                                out.append("\n");
                                proof {
                                    lemma_decl_lines_push(decl_views.take(di as int), decl_views[di as int]);
                                    assert(decl_views.take(di as int).push(decl_views[di as int])
                                        =~= decl_views.take(di + 1));
                                }
                                di = di + 1;
                            }
                            out.append("}\n");
                            proof {
                                assert(decl_views.take(decl_views.len() as int) =~= decl_views);
                                assert(spec_rule_at(self.styles@, class_name_generator, i as int)
                                    == spec_css_rule(class@, style));
                                assert(out@ =~= old(out)@ + spec_theme_css_upto(
                                    self.styles@,
                                    class_name_generator,
                                    i + 1,
                                ));
                            }
                        },
                        None => {
                            proof {
                                assert(spec_rule_at(self.styles@, class_name_generator, i as int)
                                    =~= Seq::<char>::empty());
                                assert(out@ =~= old(out)@ + spec_theme_css_upto(
                                    self.styles@,
                                    class_name_generator,
                                    i + 1,
                                ));
                            }
                        },
                    }
                },
                None => {
                    proof {
                        assert(spec_rule_at(self.styles@, class_name_generator, i as int)
                            =~= Seq::<char>::empty());
                        assert(out@ =~= old(out)@ + spec_theme_css_upto(
                            self.styles@,
                            class_name_generator,
                            i + 1,
                        ));
                    }
                },
            }
            i = i + 1;
        }
    }
}

/// Rendering one more declaration line appends its indented text.
proof fn lemma_decl_lines_push(decls: Seq<Seq<char>>, d: Seq<char>)
    ensures
        spec_decl_lines(decls.push(d)) == spec_decl_lines(decls) + ("  "@ + d + "\n"@),
    decreases decls.len(),
{
    if decls.len() == 0 {
        assert(decls.push(d)[0] == d);
        assert(decls.push(d).drop_first() =~= Seq::<Seq<char>>::empty());
        assert(spec_decl_lines(Seq::<Seq<char>>::empty()) =~= Seq::<char>::empty());
        assert(decls =~= Seq::<Seq<char>>::empty());
        assert(spec_decl_lines(decls.push(d)) =~= spec_decl_lines(decls) + ("  "@ + d + "\n"@));
    } else {
        assert(decls.push(d)[0] == decls[0]);
        assert(decls.push(d).drop_first() =~= decls.drop_first().push(d));
        lemma_decl_lines_push(decls.drop_first(), d);
        assert(spec_decl_lines(decls.push(d)) =~= spec_decl_lines(decls) + ("  "@ + d + "\n"@));
    }
}

/// Applying a concatenation of rule lists applies the first list, then
/// the second to its result.
proof fn lemma_from_rules_concat(
    styles: Seq<Option<Style>>,
    rs1: Seq<(Seq<Seq<char>>, Style)>,
    rs2: Seq<(Seq<Seq<char>>, Style)>,
)
    ensures
        spec_from_rules(styles, rs1 + rs2) == (match spec_from_rules(styles, rs1) {
            Ok(s) => spec_from_rules(s, rs2),
            Err(e) => Err(e),
        }),
    decreases rs1.len(),
{
    if rs1.len() == 0 {
        assert(rs1 + rs2 =~= rs2);
    } else {
        assert((rs1 + rs2)[0] == rs1[0]);
        assert((rs1 + rs2).drop_first() =~= rs1.drop_first() + rs2);
        match spec_apply_names(styles, rs1[0].0, rs1[0].1) {
            Ok(next) => {
                lemma_from_rules_concat(next, rs1.drop_first(), rs2);
            },
            Err(_) => {},
        }
    }
}

/// `acc` overwritten, below `k`, with the styled entries of `styles`.
spec fn spec_overlay(acc: Seq<Option<Style>>, styles: Seq<Option<Style>>, k: int) -> Seq<
    Option<Style>,
> {
    Seq::new(acc.len(), |i: int| if i < k && styles[i] is Some {
        styles[i]
    } else {
        acc[i]
    })
}

proof fn lemma_round_trip_upto(styles: Seq<Option<Style>>, acc: Seq<Option<Style>>, k: int)
    requires
        styles.len() == HIGHLIGHT_NAME_COUNT,
        acc.len() == HIGHLIGHT_NAME_COUNT,
        0 <= k <= HIGHLIGHT_NAME_COUNT,
    ensures
        spec_from_rules(acc, spec_to_rule_views(styles, k)) == Ok::<_, Seq<char>>(
            spec_overlay(acc, styles, k),
        ),
    decreases k,
{
    if k == 0 {
        assert(spec_to_rule_views(styles, 0) =~= Seq::<(Seq<Seq<char>>, Style)>::empty());
        assert(spec_overlay(acc, styles, 0) =~= acc);
    } else {
        lemma_round_trip_upto(styles, acc, k - 1);
        let prev = spec_overlay(acc, styles, k - 1);
        let tail = match styles[k - 1] {
            Some(style) => seq![(seq![spec_highlight_name(k - 1)], style)],
            None => Seq::<(Seq<Seq<char>>, Style)>::empty(),
        };
        lemma_from_rules_concat(acc, spec_to_rule_views(styles, k - 1), tail);
        match styles[k - 1] {
            Some(style) => {
                lemma_name_index_of_name(k - 1);
                assert(tail[0].0 =~= seq![spec_highlight_name(k - 1)]);
                assert(tail[0].0[0] == spec_highlight_name(k - 1));
                assert(tail[0].0.drop_first() =~= Seq::<Seq<char>>::empty());
                assert(spec_apply_names(
                    prev.update(k - 1, Some(style)),
                    Seq::<Seq<char>>::empty(),
                    style,
                ) == Ok::<_, Seq<char>>(prev.update(k - 1, Some(style))));
                assert(spec_apply_names(prev, tail[0].0, style) == Ok::<_, Seq<char>>(
                    prev.update(k - 1, Some(style)),
                ));
                assert(tail.drop_first() =~= Seq::<(Seq<Seq<char>>, Style)>::empty());
                assert(spec_from_rules(
                    prev.update(k - 1, Some(style)),
                    Seq::<(Seq<Seq<char>>, Style)>::empty(),
                ) == Ok::<_, Seq<char>>(prev.update(k - 1, Some(style))));
                assert(spec_from_rules(prev, tail) == Ok::<_, Seq<char>>(
                    prev.update(k - 1, Some(style)),
                ));
                assert(prev.update(k - 1, Some(style)) =~= spec_overlay(acc, styles, k));
            },
            None => {
                assert(spec_from_rules(prev, tail) == Ok::<_, Seq<char>>(prev));
                assert(prev =~= spec_overlay(acc, styles, k));
            },
        }
    }
}

/// Serializing a theme and loading the result yields the same
/// category-to-style map.
pub proof fn lemma_theme_round_trip(t: Theme)
    requires
        t.wf(),
    ensures
        spec_from_rules(
            spec_empty_styles(),
            spec_to_rule_views(t.styles@, HIGHLIGHT_NAME_COUNT as int),
        ) == Ok::<_, Seq<char>>(t.styles@),
{
    lemma_round_trip_upto(t.styles@, spec_empty_styles(), HIGHLIGHT_NAME_COUNT as int);
    assert(spec_overlay(spec_empty_styles(), t.styles@, HIGHLIGHT_NAME_COUNT as int) =~= t.styles@);
}

} // verus!
