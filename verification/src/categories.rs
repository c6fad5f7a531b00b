//! The fixed table of highlight categories.
//!
//! Every semantic token class the highlighter can report is one of these
//! 29 names, identified both by a stable index and by the name itself.
//! Themes are validated against exactly this list, and the same
//! index-to-name mapping drives both CSS generation and live HTML
//! emission.

use crate::text::str_eq;
use vstd::prelude::*;

verus! {

/// Number of entries in the highlight category table.
pub const HIGHLIGHT_NAME_COUNT: usize = 29;

/// The name of category `i`, as a mathematical value.
pub open spec fn spec_highlight_name(i: int) -> Seq<char> {
    if i == 0 { "attribute"@ }
    else if i == 1 { "carriage-return"@ }
    else if i == 2 { "comment"@ }
    else if i == 3 { "constant"@ }
    else if i == 4 { "constant.builtin"@ }
    else if i == 5 { "constructor"@ }
    else if i == 6 { "constructor.builtin"@ }
    else if i == 7 { "embedded"@ }
    else if i == 8 { "escape"@ }
    else if i == 9 { "function"@ }
    else if i == 10 { "function.builtin"@ }
    else if i == 11 { "keyword"@ }
    else if i == 12 { "number"@ }
    else if i == 13 { "module"@ }
    else if i == 14 { "operator"@ }
    else if i == 15 { "property"@ }
    else if i == 16 { "property.builtin"@ }
    else if i == 17 { "punctuation"@ }
    else if i == 18 { "punctuation.bracket"@ }
    else if i == 19 { "punctuation.delimiter"@ }
    else if i == 20 { "punctuation.special"@ }
    else if i == 21 { "string"@ }
    else if i == 22 { "string.special"@ }
    else if i == 23 { "tag"@ }
    else if i == 24 { "type"@ }
    else if i == 25 { "type.builtin"@ }
    else if i == 26 { "variable"@ }
    else if i == 27 { "variable.builtin"@ }
    else { "variable.parameter"@ }
}

/// The name of category `i`.
pub fn highlight_name(i: usize) -> (r: &'static str)
    requires
        i < HIGHLIGHT_NAME_COUNT,
    ensures
        r@ == spec_highlight_name(i as int),
{
    match i {
        0 => "attribute",
        1 => "carriage-return",
        2 => "comment",
        3 => "constant",
        4 => "constant.builtin",
        5 => "constructor",
        6 => "constructor.builtin",
        7 => "embedded",
        8 => "escape",
        9 => "function",
        10 => "function.builtin",
        11 => "keyword",
        12 => "number",
        13 => "module",
        14 => "operator",
        15 => "property",
        16 => "property.builtin",
        17 => "punctuation",
        18 => "punctuation.bracket",
        19 => "punctuation.delimiter",
        20 => "punctuation.special",
        21 => "string",
        22 => "string.special",
        23 => "tag",
        24 => "type",
        25 => "type.builtin",
        26 => "variable",
        27 => "variable.builtin",
        _ => "variable.parameter",
    }
}

/// All 29 category names in table order, as owned strings.
pub fn highlight_names() -> (r: Vec<String>)
    ensures
        r@.len() == HIGHLIGHT_NAME_COUNT,
        forall|i: int| 0 <= i < r@.len() ==> r@[i]@ == spec_highlight_name(i),
{
    let mut out: Vec<String> = Vec::new();
    let mut i: usize = 0;
    while i < HIGHLIGHT_NAME_COUNT
        invariant
            i <= HIGHLIGHT_NAME_COUNT,
            out@.len() == i,
            forall|j: int| 0 <= j < i ==> out@[j]@ == spec_highlight_name(j),
        decreases HIGHLIGHT_NAME_COUNT - i,
    {
        out.push(String::from_str(highlight_name(i)));
        i = i + 1;
    }
    out
}

/// The first index at or after `k` whose name is `name`, if any.
pub open spec fn spec_name_index_from(name: Seq<char>, k: int) -> Option<int>
    decreases HIGHLIGHT_NAME_COUNT - k,
    when 0 <= k <= HIGHLIGHT_NAME_COUNT
{
    if k >= HIGHLIGHT_NAME_COUNT {
        None
    } else if spec_highlight_name(k) == name {
        Some(k)
    } else {
        spec_name_index_from(name, k + 1)
    }
}

/// The index of the category called `name`, if the table holds it.
pub open spec fn spec_name_index(name: Seq<char>) -> Option<int> {
    spec_name_index_from(name, 0)
}

/// Looks a category name up in the table.
pub fn highlight_name_index(name: &str) -> (r: Option<usize>)
    ensures
        match r {
            Some(i) => spec_name_index(name@) == Some(i as int) && i < HIGHLIGHT_NAME_COUNT,
            None => spec_name_index(name@) is None,
        },
{
    let mut i: usize = 0;
    while i < HIGHLIGHT_NAME_COUNT
        invariant
            i <= HIGHLIGHT_NAME_COUNT,
            spec_name_index(name@) == spec_name_index_from(name@, i as int),
        decreases HIGHLIGHT_NAME_COUNT - i,
    {
        if str_eq(name, highlight_name(i)) {
            return Some(i);
        }
        i = i + 1;
    }
    None
}

/// No two table entries carry the same name.
pub proof fn lemma_highlight_names_distinct()
    ensures
        forall|i: int, j: int|
            0 <= i < HIGHLIGHT_NAME_COUNT && 0 <= j < HIGHLIGHT_NAME_COUNT && i != j
                ==> spec_highlight_name(i) != spec_highlight_name(j),
{
    reveal_strlit("attribute");
    reveal_strlit("carriage-return");
    reveal_strlit("comment");
    reveal_strlit("constant");
    reveal_strlit("constant.builtin");
    reveal_strlit("constructor");
    reveal_strlit("constructor.builtin");
    reveal_strlit("embedded");
    reveal_strlit("escape");
    reveal_strlit("function");
    reveal_strlit("function.builtin");
    reveal_strlit("keyword");
    reveal_strlit("number");
    reveal_strlit("module");
    reveal_strlit("operator");
    reveal_strlit("property");
    reveal_strlit("property.builtin");
    reveal_strlit("punctuation");
    reveal_strlit("punctuation.bracket");
    reveal_strlit("punctuation.delimiter");
    reveal_strlit("punctuation.special");
    reveal_strlit("string");
    reveal_strlit("string.special");
    reveal_strlit("tag");
    reveal_strlit("type");
    reveal_strlit("type.builtin");
    reveal_strlit("variable");
    reveal_strlit("variable.builtin");
    reveal_strlit("variable.parameter");
    assert forall|i: int, j: int|
        0 <= i < HIGHLIGHT_NAME_COUNT && 0 <= j < HIGHLIGHT_NAME_COUNT && i != j
        implies spec_highlight_name(i) != spec_highlight_name(j) by {
        let a = spec_highlight_name(i);
        let b = spec_highlight_name(j);
        if a.len() == b.len() {
            if a[0] == b[0] {
                assert(a[12] != b[12]);
            }
        }
    }
}

/// Looking up the name of entry `k` finds `k` itself.
pub proof fn lemma_name_index_of_name(k: int)
    requires
        0 <= k < HIGHLIGHT_NAME_COUNT,
    ensures
        spec_name_index(spec_highlight_name(k)) == Some(k),
{
    lemma_highlight_names_distinct();
    assert forall|m: int| 0 <= m <= k implies spec_name_index_from(spec_highlight_name(k), m)
        == Some(k) by {
        lemma_name_index_from_finds(spec_highlight_name(k), k, m);
    }
}

proof fn lemma_name_index_from_finds(name: Seq<char>, k: int, m: int)
    requires
        0 <= m <= k < HIGHLIGHT_NAME_COUNT,
        spec_highlight_name(k) == name,
        forall|i: int|
            0 <= i < HIGHLIGHT_NAME_COUNT && i != k ==> spec_highlight_name(i) != name,
    ensures
        spec_name_index_from(name, m) == Some(k),
    decreases k - m,
{
    if m == k {
    } else {
        lemma_name_index_from_finds(name, k, m + 1);
    }
}

} // verus!
