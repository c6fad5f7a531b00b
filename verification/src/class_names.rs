//! CSS class naming.
//!
//! A class-name generator maps a highlight category (or "image") to a
//! CSS class, or to none. The same generator instance drives both CSS
//! generation and live HTML emission, so the names cannot drift between
//! stylesheet and markup. Every generator is a pure strategy: what it
//! returns is a function of the generator's own configuration and the
//! category alone.

use crate::text::push_char;
use vstd::prelude::*;

verus! {

/// A pluggable naming strategy for highlight categories and images.
pub trait CssClassNameGenerator: Sized {
    /// The class this strategy assigns to a highlight category.
    spec fn spec_class_for_highlight(&self, highlight_name: Seq<char>, highlight_idx: int) -> Option<
        Seq<char>,
    >;

    /// The class this strategy assigns to images.
    spec fn spec_class_for_image(&self) -> Option<Seq<char>>;

    /// The class for the category `highlight_name` at table index
    /// `highlight_idx`, or none to leave the category unstyled.
    fn class_for_highlight(&self, highlight_name: &str, highlight_idx: usize) -> (r: Option<
        String,
    >)
        ensures
            match r {
                Some(s) => self.spec_class_for_highlight(highlight_name@, highlight_idx as int)
                    == Some(s@),
                None => self.spec_class_for_highlight(highlight_name@, highlight_idx as int)
                    is None,
            },
    ;

    /// The class for rendered images, or none for a bare `img` tag.
    fn class_for_image(&self) -> (r: Option<String>)
        ensures
            match r {
                Some(s) => self.spec_class_for_image() == Some(s@),
                None => self.spec_class_for_image() is None,
            },
    ;
}

/// `name` with every `.` replaced by `-`.
pub open spec fn spec_dashed(name: Seq<char>) -> Seq<char> {
    name.map_values(|c: char| if c == '.' { '-' } else { c })
}

/// The prefix-dash class: the configured prefix, a dash, and the
/// category name with `.` replaced by `-`; the bare dashed name when
/// the prefix is empty.
pub open spec fn spec_standard_class(prefix: Seq<char>, name: Seq<char>) -> Seq<char> {
    if prefix.len() == 0 {
        spec_dashed(name)
    } else {
        prefix + seq!['-'] + spec_dashed(name)
    }
}

/// The prefix-dash naming strategy: `highlight-constant-builtin` for
/// the category `constant.builtin` under the prefix `highlight`.
#[derive(Clone, Debug)]
pub struct StandardClassNameGenerator {
    pub highlight_class_prefix: String,
    pub image_class: String,
}

impl StandardClassNameGenerator {
    /// The configuration the blog serves with: prefix `highlight`,
    /// image class `blog-image`.
    pub fn standard_generator() -> (r: StandardClassNameGenerator)
        ensures
            r.highlight_class_prefix@ == "highlight"@,
            r.image_class@ == "blog-image"@,
    {
        StandardClassNameGenerator {
            highlight_class_prefix: String::from_str("highlight"),
            image_class: String::from_str("blog-image"),
        }
    }
}

fn dashed(name: &str) -> (r: String)
    ensures
        r@ == spec_dashed(name@),
{
    let mut out = String::new();
    let n = name.unicode_len();
    let mut i: usize = 0;
    while i < n
        invariant
            n == name@.len(),
            i <= n,
            out@ == spec_dashed(name@.take(i as int)),
        decreases n - i,
    {
        let c = name.get_char(i);
        if c == '.' {
            push_char(&mut out, '-');
        } else {
            push_char(&mut out, c);
        }
        proof {
            assert(spec_dashed(name@.take(i + 1)) =~= spec_dashed(name@.take(i as int)).push(
                if name@[i as int] == '.' {
                    '-'
                } else {
                    name@[i as int]
                },
            ));
        }
        i = i + 1;
    }
    proof {
        assert(name@.take(n as int) =~= name@);
    }
    out
}

impl CssClassNameGenerator for StandardClassNameGenerator {
    open spec fn spec_class_for_highlight(
        &self,
        highlight_name: Seq<char>,
        highlight_idx: int,
    ) -> Option<Seq<char>> {
        Some(spec_standard_class(self.highlight_class_prefix@, highlight_name))
    }

    open spec fn spec_class_for_image(&self) -> Option<Seq<char>> {
        Some(self.image_class@)
    }

    fn class_for_highlight(&self, highlight_name: &str, highlight_idx: usize) -> (r: Option<
        String,
    >) {
        let mut output = self.highlight_class_prefix.clone();
        if !output.as_str().is_empty() {
            push_char(&mut output, '-');
        }
        let tail = dashed(highlight_name);
        output.append(tail.as_str());
        Some(output)
    }

    fn class_for_image(&self) -> (r: Option<String>) {
        Some(self.image_class.clone())
    }
}

/// The prefix-dash generator is pure and deterministic: the class it
/// assigns to a category is a function of its configured prefix and the
/// category's name alone, so any two generators with one prefix agree
/// on every (name, index) pair.
pub proof fn lemma_standard_generator_deterministic(
    g1: StandardClassNameGenerator,
    g2: StandardClassNameGenerator,
    name: Seq<char>,
    idx1: int,
    idx2: int,
)
    requires
        g1.highlight_class_prefix@ == g2.highlight_class_prefix@,
    ensures
        g1.spec_class_for_highlight(name, idx1) == g2.spec_class_for_highlight(name, idx2),
        g1.spec_class_for_highlight(name, idx1) == Some(
            spec_standard_class(g1.highlight_class_prefix@, name),
        ),
{
}

} // verus!
