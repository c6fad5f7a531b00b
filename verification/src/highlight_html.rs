//! Inline highlight markup.
//!
//! Writes the opening and closing tags for one highlighted region: the
//! element, a class attribute joining the generator's class for the
//! category with any additional `class` attribute, then the remaining
//! additional attributes, in order.

use crate::categories::{highlight_name, spec_highlight_name, HIGHLIGHT_NAME_COUNT};
use crate::class_names::CssClassNameGenerator;
use crate::images::opt_str_view;
use crate::text::str_eq;
use vstd::prelude::*;

verus! {

/// The values of an attribute list.
pub open spec fn spec_attrs_view(attrs: Seq<(String, Option<String>)>) -> Seq<
    (Seq<char>, Option<Seq<char>>),
> {
    attrs.map_values(|p: (String, Option<String>)| (p.0@, opt_str_view(p.1)))
}

/// The value of the first additional `class` attribute at or after
/// entry `k`, if any.
pub open spec fn spec_class_attr_from(
    attrs: Seq<(Seq<char>, Option<Seq<char>>)>,
    k: int,
) -> Option<Seq<char>>
    decreases attrs.len() - k,
    when 0 <= k <= attrs.len()
{
    if k >= attrs.len() {
        None
    } else if attrs[k].0 == "class"@ {
        attrs[k].1
    } else {
        spec_class_attr_from(attrs, k + 1)
    }
}

/// The additional class the attribute list contributes.
pub open spec fn spec_class_attr(attrs: Seq<(Seq<char>, Option<Seq<char>>)>) -> Option<Seq<char>> {
    spec_class_attr_from(attrs, 0)
}

/// The class attribute written for the generator's class and the
/// additional class, the two joined by a space when both are present.
pub open spec fn spec_class_clause(
    gen_class: Option<Seq<char>>,
    add_class: Option<Seq<char>>,
) -> Seq<char> {
    match (gen_class, add_class) {
        (Some(gc), Some(ac)) => " class=\""@ + gc + " "@ + ac + "\""@,
        (Some(gc), None) => " class=\""@ + gc + "\""@,
        (None, Some(ac)) => " class=\""@ + ac + "\""@,
        (None, None) => Seq::empty(),
    }
}

/// The text of the additional attributes from entry `k` on, skipping
/// every `class` entry.
pub open spec fn spec_attr_clause_from(attrs: Seq<(Seq<char>, Option<Seq<char>>)>, k: int) -> Seq<
    char,
>
    decreases attrs.len() - k,
    when 0 <= k <= attrs.len()
{
    if k >= attrs.len() {
        Seq::empty()
    } else {
        (if attrs[k].0 == "class"@ {
            Seq::<char>::empty()
        } else {
            " "@ + attrs[k].0 + (match attrs[k].1 {
                Some(v) => "=\""@ + v + "\""@,
                None => Seq::<char>::empty(),
            })
        }) + spec_attr_clause_from(attrs, k + 1)
    }
}

/// The whole opening tag for one highlighted region.
pub open spec fn spec_highlight_start(
    elem: Seq<char>,
    gen_class: Option<Seq<char>>,
    attrs: Seq<(Seq<char>, Option<Seq<char>>)>,
) -> Seq<char> {
    "<"@ + elem + spec_class_clause(gen_class, spec_class_attr(attrs)) + spec_attr_clause_from(
        attrs,
        0,
    ) + ">"@
}

/// The closing tag for one highlighted region.
pub open spec fn spec_highlight_end(elem: Seq<char>) -> Seq<char> {
    "</"@ + elem + ">"@
}

/// Finds the first additional `class` attribute's value.
fn class_attr_of(additional_attributes: &Vec<(String, Option<String>)>) -> (r: Option<&String>)
    ensures
        match r {
            Some(s) => spec_class_attr(spec_attrs_view(additional_attributes@)) == Some(s@),
            None => spec_class_attr(spec_attrs_view(additional_attributes@)) is None,
        },
{
    let ghost attrs = spec_attrs_view(additional_attributes@);
    let n = additional_attributes.len();
    let mut k: usize = 0;
    while k < n
        invariant
            n == additional_attributes@.len(),
            k <= n,
            attrs == spec_attrs_view(additional_attributes@),
            spec_class_attr(attrs) == spec_class_attr_from(attrs, k as int),
        decreases n - k,
    {
        proof {
            assert(attrs[k as int] == (
                additional_attributes@[k as int].0@,
                opt_str_view(additional_attributes@[k as int].1),
            ));
        }
        if str_eq(additional_attributes[k].0.as_str(), "class") {
            return match &additional_attributes[k].1 {
                Some(v) => Some(v),
                None => None,
            };
        }
        k = k + 1;
    }
    None
}

/// Writes the opening tag for one highlighted region: the element, the
/// class attribute — the generator's class for the category, joined
/// with any additional `class` attribute — and the remaining
/// additional attributes in list order.
pub fn write_html_highlight_start<G: CssClassNameGenerator>(
    out: &mut String,
    highlight_idx: usize,
    elem: &str,
    additional_attributes: &Vec<(String, Option<String>)>,
    class_name_generator: &G,
)
    requires
        highlight_idx < HIGHLIGHT_NAME_COUNT,
    ensures
        final(out)@ == old(out)@ + spec_highlight_start(
            elem@,
            class_name_generator.spec_class_for_highlight(
                spec_highlight_name(highlight_idx as int),
                highlight_idx as int,
            ),
            spec_attrs_view(additional_attributes@),
        ),
{
    let ghost attrs = spec_attrs_view(additional_attributes@);
    out.append("<");
    out.append(elem);

    let n = additional_attributes.len();
    let additional_class: Option<&String> = class_attr_of(additional_attributes);

    let gen_class = class_name_generator.class_for_highlight(
        highlight_name(highlight_idx),
        highlight_idx,
    );
    match (&gen_class, &additional_class) {
        (Some(gc), Some(ac)) => {
            out.append(" class=\"");
            out.append(gc.as_str());
            out.append(" ");
            out.append(ac.as_str());
            out.append("\"");
        },
        (Some(gc), None) => {
            out.append(" class=\"");
            out.append(gc.as_str());
            out.append("\"");
        },
        (None, Some(ac)) => {
            out.append(" class=\"");
            out.append(ac.as_str());
            out.append("\"");
        },
        (None, None) => {},
    }

    let ghost mid = out@;
    let mut i: usize = 0;
    while i < n
        invariant
            n == additional_attributes@.len(),
            i <= n,
            attrs == spec_attrs_view(additional_attributes@),
            mid + spec_attr_clause_from(attrs, 0) == out@ + spec_attr_clause_from(attrs, i as int),
        decreases n - i,
    {
        proof {
            assert(attrs[i as int] == (
                additional_attributes@[i as int].0@,
                opt_str_view(additional_attributes@[i as int].1),
            ));
        }
        if !str_eq(additional_attributes[i].0.as_str(), "class") {
            out.append(" ");
            out.append(additional_attributes[i].0.as_str());
            match &additional_attributes[i].1 {
                Some(v) => {
                    out.append("=\"");
                    out.append(v.as_str());
                    out.append("\"");
                },
                None => {},
            }
        }
        proof {
            assert(mid + spec_attr_clause_from(attrs, 0) =~= out@ + spec_attr_clause_from(
                attrs,
                i + 1,
            ));
        }
        i = i + 1;
    }
    proof {
        assert(spec_attr_clause_from(attrs, n as int) =~= Seq::<char>::empty());
    }
    out.append(">");
    proof {
        assert(out@ =~= old(out)@ + spec_highlight_start(
            elem@,
            class_name_generator.spec_class_for_highlight(
                spec_highlight_name(highlight_idx as int),
                highlight_idx as int,
            ),
            attrs,
        ));
    }
}

/// Writes the closing tag for one highlighted region.
pub fn write_html_highlight_end(out: &mut String, elem: &str)
    ensures
        final(out)@ == old(out)@ + spec_highlight_end(elem@),
{
    out.append("</");
    out.append(elem);
    out.append(">");
}

/// Writes one whole highlighted region: opening tag, the code verbatim
/// and unescaped, closing tag.
pub fn write_html_highlight_unescaped<G: CssClassNameGenerator>(
    out: &mut String,
    highlight_idx: usize,
    elem: &str,
    additional_attributes: &Vec<(String, Option<String>)>,
    code: &str,
    class_name_generator: &G,
)
    requires
        highlight_idx < HIGHLIGHT_NAME_COUNT,
    ensures
        final(out)@ == old(out)@ + spec_highlight_start(
            elem@,
            class_name_generator.spec_class_for_highlight(
                spec_highlight_name(highlight_idx as int),
                highlight_idx as int,
            ),
            spec_attrs_view(additional_attributes@),
        ) + code@ + spec_highlight_end(elem@),
{
    write_html_highlight_start(
        out,
        highlight_idx,
        elem,
        additional_attributes,
        class_name_generator,
    );
    out.append(code);
    write_html_highlight_end(out, elem);
}

} // verus!
