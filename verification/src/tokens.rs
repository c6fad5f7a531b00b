//! Token event streams and their rendering to inline HTML.
//!
//! A tokenizer run yields an ordered event list: source slices (byte
//! ranges), category starts and category ends. The engine first checks
//! the whole list — slices consecutive and covering the source exactly,
//! category indices inside the table, starts and ends balanced — and
//! only then mirrors it 1:1 into markup, so no partial or ill-nested
//! output is ever emitted, and stripping the added span tags leaves
//! exactly the source. A list that fails the check is treated like a
//! tokenizer failure.

use crate::categories::{highlight_name, spec_highlight_name, HIGHLIGHT_NAME_COUNT};
use crate::class_names::CssClassNameGenerator;
use vstd::prelude::*;
use vstd::string::StringSliceAdditionalSpecFns;

verus! {

/// One step of a tokenizer run.
#[derive(Copy, Clone, PartialEq, Eq, Structural, Debug)]
pub enum TokenEvent {
    /// The source bytes `start..end` belong to the current spans.
    Source { start: usize, end: usize },
    /// A span of the category with this table index opens.
    CategoryStart { category: usize },
    /// The innermost open span closes.
    CategoryEnd,
}

/// How one event changes the count of open spans.
pub open spec fn spec_token_delta(ev: TokenEvent) -> int {
    match ev {
        TokenEvent::Source { .. } => 0,
        TokenEvent::CategoryStart { .. } => 1,
        TokenEvent::CategoryEnd => -1,
    }
}

/// The count of open spans after the first `k` events.
pub open spec fn spec_depth_upto(events: Seq<TokenEvent>, k: int) -> int
    decreases k,
{
    if k <= 0 {
        0
    } else {
        spec_depth_upto(events, k - 1) + spec_token_delta(events[k - 1])
    }
}

/// How far into the source the first `k` events have reached: the end
/// of the last slice among them.
pub open spec fn spec_pos_upto(events: Seq<TokenEvent>, k: int) -> int
    decreases k,
{
    if k <= 0 {
        0
    } else {
        match events[k - 1] {
            TokenEvent::Source { start, end } => end as int,
            _ => spec_pos_upto(events, k - 1),
        }
    }
}

/// A well-formed run over a source of `n` bytes: the slices are
/// consecutive — each starts where the one before it ended — and
/// together cover all `n` bytes, every category is in the table, no end
/// closes a span that is not open, and every opened span is closed.
pub open spec fn spec_tokens_wf(events: Seq<TokenEvent>, n: int) -> bool {
    &&& forall|i: int|
        0 <= i < events.len() ==> match #[trigger] events[i] {
            TokenEvent::Source { start, end } => start as int == spec_pos_upto(events, i) && start
                <= end <= n,
            TokenEvent::CategoryStart { category } => category < HIGHLIGHT_NAME_COUNT,
            TokenEvent::CategoryEnd => spec_depth_upto(events, i) >= 1,
        }
    &&& spec_depth_upto(events, events.len() as int) == 0
    &&& spec_pos_upto(events, events.len() as int) == n
}

/// Checks a run for well-formedness over a source of `n` bytes.
pub fn validate_tokens(events: &Vec<TokenEvent>, n: usize) -> (r: bool)
    ensures
        r == spec_tokens_wf(events@, n as int),
{
    let len = events.len();
    let mut depth: usize = 0;
    let mut pos: usize = 0;
    let mut i: usize = 0;
    while i < len
        invariant
            len == events@.len(),
            i <= len,
            depth <= i,
            pos <= n,
            depth as int == spec_depth_upto(events@, i as int),
            pos as int == spec_pos_upto(events@, i as int),
            forall|j: int|
                0 <= j < i ==> match #[trigger] events@[j] {
                    TokenEvent::Source { start, end } => start as int == spec_pos_upto(events@, j)
                        && start <= end <= n,
                    TokenEvent::CategoryStart { category } => category < HIGHLIGHT_NAME_COUNT,
                    TokenEvent::CategoryEnd => spec_depth_upto(events@, j) >= 1,
                },
        decreases len - i,
    {
        match events[i] {
            TokenEvent::Source { start, end } => {
                if !(start == pos && start <= end && end <= n) {
                    return false;
                }
                pos = end;
            },
            TokenEvent::CategoryStart { category } => {
                if !(category < HIGHLIGHT_NAME_COUNT) {
                    return false;
                }
                depth = depth + 1;
            },
            TokenEvent::CategoryEnd => {
                if depth == 0 {
                    return false;
                }
                depth = depth - 1;
            },
        }
        i = i + 1;
    }
    depth == 0 && pos == n
}

/// Encoding a concatenation encodes each part.
pub proof fn lemma_encode_utf8_concat(a: Seq<char>, b: Seq<char>)
    ensures
        vstd::utf8::encode_utf8(a + b) == vstd::utf8::encode_utf8(a) + vstd::utf8::encode_utf8(b),
    decreases a.len(),
{
    if a.len() == 0 {
        assert(a + b =~= b);
        assert(vstd::utf8::encode_utf8(a) =~= Seq::<u8>::empty());
        assert(vstd::utf8::encode_utf8(a) + vstd::utf8::encode_utf8(b) =~= vstd::utf8::encode_utf8(
            b,
        ));
    } else {
        assert((a + b)[0] == a[0]);
        assert((a + b).drop_first() =~= a.drop_first() + b);
        lemma_encode_utf8_concat(a.drop_first(), b);
        assert(vstd::utf8::encode_utf8(a + b) =~= vstd::utf8::encode_utf8(a)
            + vstd::utf8::encode_utf8(b));
    }
}

/// The class a generator gives to the category with table index `c`.
pub open spec fn spec_class_at<G: CssClassNameGenerator>(g: &G, c: int) -> Option<Seq<char>> {
    g.spec_class_for_highlight(spec_highlight_name(c), c)
}

/// The markup that opens one span: with a class when the generator
/// gives one, bare otherwise.
pub open spec fn spec_span_open(class: Option<Seq<char>>) -> Seq<u8> {
    match class {
        Some(c) => vstd::utf8::encode_utf8("<span class=\""@ + c + "\">"@),
        None => vstd::utf8::encode_utf8("<span>"@),
    }
}

/// The bytes one event contributes to the block body.
pub open spec fn spec_token_piece<G: CssClassNameGenerator>(
    ev: TokenEvent,
    src: Seq<u8>,
    g: &G,
) -> Seq<u8> {
    match ev {
        TokenEvent::Source { start, end } => src.subrange(start as int, end as int),
        TokenEvent::CategoryStart { category } => spec_span_open(spec_class_at(g, category as int)),
        TokenEvent::CategoryEnd => vstd::utf8::encode_utf8("</span>"@),
    }
}

/// The block body the first `k` events render to.
pub open spec fn spec_tokens_html_upto<G: CssClassNameGenerator>(
    events: Seq<TokenEvent>,
    src: Seq<u8>,
    g: &G,
    k: int,
) -> Seq<u8>
    decreases k,
{
    if k <= 0 {
        Seq::empty()
    } else {
        spec_tokens_html_upto(events, src, g, k - 1) + spec_token_piece(events[k - 1], src, g)
    }
}

/// The block body a whole well-formed run renders to.
pub open spec fn spec_tokens_html<G: CssClassNameGenerator>(
    events: Seq<TokenEvent>,
    src: Seq<u8>,
    g: &G,
) -> Seq<u8> {
    spec_tokens_html_upto(events, src, g, events.len() as int)
}

/// Appends the bytes of a slice.
fn push_bytes(out: &mut Vec<u8>, s: &[u8])
    ensures
        final(out)@ == old(out)@ + s@,
{
    let mut i: usize = 0;
    while i < s.len()
        invariant
            i <= s@.len(),
            out@ == old(out)@ + s@.take(i as int),
        decreases s@.len() - i,
    {
        out.push(s[i]);
        proof {
            assert(old(out)@ + s@.take(i as int) + seq![s@[i as int]] =~= old(out)@ + s@.take(
                i + 1,
            ));
        }
        i = i + 1;
    }
    proof {
        assert(s@.take(s@.len() as int) =~= s@);
    }
}

/// Appends the bytes of a string.
fn push_str_bytes(out: &mut Vec<u8>, s: &str)
    ensures
        final(out)@ == old(out)@ + s.spec_bytes(),
{
    push_bytes(out, s.as_bytes());
}

/// Renders a checked run to the block body, mirroring the events 1:1:
/// source slices verbatim, one span open per category start under the
/// generator's class, one span close per category end.
pub fn tokens_to_html_bytes<G: CssClassNameGenerator>(
    events: &Vec<TokenEvent>,
    src: &[u8],
    g: &G,
) -> (r: Vec<u8>)
    requires
        spec_tokens_wf(events@, src@.len() as int),
    ensures
        r@ == spec_tokens_html(events@, src@, g),
{
    let mut out: Vec<u8> = Vec::new();
    let len = events.len();
    let mut i: usize = 0;
    while i < len
        invariant
            len == events@.len(),
            i <= len,
            spec_tokens_wf(events@, src@.len() as int),
            out@ == spec_tokens_html_upto(events@, src@, g, i as int),
        decreases len - i,
    {
        let ghost before = out@;
        match events[i] {
            TokenEvent::Source { start, end } => {
                let mut j = start;
                while j < end
                    invariant
                        start <= j <= end <= src@.len(),
                        out@ == before + src@.subrange(start as int, j as int),
                    decreases end - j,
                {
                    out.push(src[j]);
                    proof {
                        assert(before + src@.subrange(start as int, j as int) + seq![
                            src@[j as int],
                        ] =~= before + src@.subrange(start as int, j + 1));
                    }
                    j = j + 1;
                }
            },
            TokenEvent::CategoryStart { category } => {
                match g.class_for_highlight(highlight_name(category), category) {
                    Some(class) => {
                        push_str_bytes(&mut out, "<span class=\"");
                        push_str_bytes(&mut out, class.as_str());
                        push_str_bytes(&mut out, "\">");
                        proof {
                            lemma_encode_utf8_concat("<span class=\""@ + class@, "\">"@);
                            lemma_encode_utf8_concat("<span class=\""@, class@);
                            assert(out@ =~= before + spec_span_open(
                                spec_class_at(g, category as int),
                            ));
                        }
                    },
                    None => {
                        push_str_bytes(&mut out, "<span>");
                        proof {
                            assert(out@ =~= before + spec_span_open(
                                spec_class_at(g, category as int),
                            ));
                        }
                    },
                }
            },
            TokenEvent::CategoryEnd => {
                push_str_bytes(&mut out, "</span>");
                proof {
                    assert(out@ =~= before + vstd::utf8::encode_utf8("</span>"@));
                }
            },
        }
        proof {
            assert(out@ =~= spec_tokens_html_upto(events@, src@, g, i + 1));
        }
        i = i + 1;
    }
    out
}

/// How many spans the first `k` events open.
pub open spec fn spec_count_starts(events: Seq<TokenEvent>, k: int) -> int
    decreases k,
{
    if k <= 0 {
        0
    } else {
        spec_count_starts(events, k - 1) + (if events[k - 1] is CategoryStart {
            1int
        } else {
            0int
        })
    }
}

/// How many spans the first `k` events close.
pub open spec fn spec_count_ends(events: Seq<TokenEvent>, k: int) -> int
    decreases k,
{
    if k <= 0 {
        0
    } else {
        spec_count_ends(events, k - 1) + (if events[k - 1] is CategoryEnd {
            1int
        } else {
            0int
        })
    }
}

proof fn lemma_depth_is_count_difference(events: Seq<TokenEvent>, k: int)
    requires
        0 <= k <= events.len(),
    ensures
        spec_depth_upto(events, k) == spec_count_starts(events, k) - spec_count_ends(events, k),
    decreases k,
{
    if k > 0 {
        lemma_depth_is_count_difference(events, k - 1);
    }
}

/// Balanced nesting of a well-formed run: every category end matches
/// an earlier unclosed start — in no prefix do more spans close than
/// opened — and by the end of the run every opened span is closed
/// again, so every start tag the rendering emits has its matching end
/// tag inside the block body.
pub proof fn lemma_tokens_balanced(events: Seq<TokenEvent>, n: int)
    requires
        spec_tokens_wf(events, n),
    ensures
        spec_count_starts(events, events.len() as int) == spec_count_ends(
            events,
            events.len() as int,
        ),
        forall|k: int|
            0 <= k <= events.len() ==> spec_count_ends(events, k) <= spec_count_starts(events, k),
{
    lemma_depth_is_count_difference(events, events.len() as int);
    assert forall|k: int| 0 <= k <= events.len() implies spec_count_ends(events, k)
        <= spec_count_starts(events, k) by {
        lemma_depth_nonneg(events, n, k);
        lemma_depth_is_count_difference(events, k);
    }
}

/// The source bytes the first `k` events carry: the concatenation of
/// their slices, with the span markup stripped.
pub open spec fn spec_source_text_upto(events: Seq<TokenEvent>, src: Seq<u8>, k: int) -> Seq<u8>
    decreases k,
{
    if k <= 0 {
        Seq::empty()
    } else {
        spec_source_text_upto(events, src, k - 1) + (match events[k - 1] {
            TokenEvent::Source { start, end } => src.subrange(start as int, end as int),
            _ => Seq::<u8>::empty(),
        })
    }
}

proof fn lemma_source_text_is_prefix(events: Seq<TokenEvent>, src: Seq<u8>, k: int)
    requires
        spec_tokens_wf(events, src.len() as int),
        0 <= k <= events.len(),
    ensures
        0 <= spec_pos_upto(events, k) <= src.len(),
        spec_source_text_upto(events, src, k) == src.subrange(0, spec_pos_upto(events, k)),
    decreases k,
{
    if k == 0 {
        assert(spec_source_text_upto(events, src, 0) =~= src.subrange(0, 0));
    } else {
        lemma_source_text_is_prefix(events, src, k - 1);
        match events[k - 1] {
            TokenEvent::Source { start, end } => {
                assert(start as int == spec_pos_upto(events, k - 1) && start <= end
                    <= src.len());
                assert(src.subrange(0, start as int) + src.subrange(start as int, end as int)
                    =~= src.subrange(0, end as int));
            },
            _ => {
                assert(spec_source_text_upto(events, src, k) =~= spec_source_text_upto(
                    events,
                    src,
                    k - 1,
                ));
            },
        }
    }
}

/// Stripping the added markup from a well-formed run leaves exactly the
/// source: the slices the rendering copies verbatim are consecutive and
/// together are the whole source text.
pub proof fn lemma_tokens_cover_source(events: Seq<TokenEvent>, src: Seq<u8>)
    requires
        spec_tokens_wf(events, src.len() as int),
    ensures
        spec_source_text_upto(events, src, events.len() as int) == src,
{
    lemma_source_text_is_prefix(events, src, events.len() as int);
    assert(src.subrange(0, src.len() as int) =~= src);
}

proof fn lemma_depth_nonneg(events: Seq<TokenEvent>, n: int, k: int)
    requires
        spec_tokens_wf(events, n),
        0 <= k <= events.len(),
    ensures
        spec_depth_upto(events, k) >= 0,
    decreases k,
{
    if k > 0 {
        lemma_depth_nonneg(events, n, k - 1);
        match events[k - 1] {
            TokenEvent::CategoryEnd => {
                assert(spec_depth_upto(events, k - 1) >= 1);
            },
            _ => {},
        }
    }
}

} // verus!
