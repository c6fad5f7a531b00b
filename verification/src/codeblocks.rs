//! The code-block aggregator.
//!
//! Buffers each fenced-code-block run — start, source pieces, end —
//! into one unit, hands the unit to the highlighter engine, and
//! replaces the whole run with the single HTML event the engine
//! produced. Events outside a run pass through unmodified. A fence
//! naming a language outside the grammar table fails the whole
//! aggregation with the `UnknownLanguage` error.

use crate::class_names::CssClassNameGenerator;
use crate::events::MdEvent;
use crate::highlighter::{
    spec_block_close, spec_block_open, spec_body_ok, spec_lookup, CodeBlockHighlighter,
    HighlighterError, LanguageGrammar,
};
use crate::events::{views_of, MdEventView};
use vstd::prelude::*;
use vstd::utf8::encode_utf8;

verus! {

/// An acceptable rendering of one whole code block: the header carries
/// the looked-up display name — `Plain Text` for an untagged fence,
/// whose source passes through verbatim — and the body is acceptable
/// for the unit's source.
pub open spec fn spec_block_html_ok<G: CssClassNameGenerator>(
    h: Seq<char>,
    lang: Seq<char>,
    code: Seq<char>,
    entries: Seq<(String, LanguageGrammar)>,
    g: &G,
) -> bool {
    if lang.len() == 0 {
        h == spec_block_open("Plain Text"@) + code + spec_block_close()
    } else {
        match spec_lookup(entries, lang) {
            Some(language) => exists|body: Seq<char>|
                #![trigger spec_body_ok(body, code, encode_utf8(code), g)]
                h == spec_block_open(language.canonical_name@) + body + spec_block_close()
                    && spec_body_ok(body, code, encode_utf8(code), g),
            None => false,
        }
    }
}

/// Relates an event sequence to its aggregation: every code-block run
/// becomes one HTML event whose text is an acceptable rendering of the
/// unit, and every other event passes through unmodified, in order. A
/// unit still open when the sequence ends is dropped.
pub open spec fn spec_code_blocks_rel<G: CssClassNameGenerator>(
    input: Seq<MdEventView>,
    output: Seq<MdEventView>,
    entries: Seq<(String, LanguageGrammar)>,
    g: &G,
    state: Option<(Seq<char>, Seq<char>)>,
) -> bool
    decreases input.len(),
{
    if input.len() == 0 {
        output.len() == 0
    } else {
        let rest = input.drop_first();
        match (input[0], state) {
            (MdEventView::CodeBlockStart(lang), None) => spec_code_blocks_rel(
                rest,
                output,
                entries,
                g,
                Some((lang, Seq::empty())),
            ),
            (MdEventView::Text(t), Some((lang, code))) => spec_code_blocks_rel(
                rest,
                output,
                entries,
                g,
                Some((lang, code + t)),
            ),
            (MdEventView::CodeBlockEnd, Some((lang, code))) => output.len() >= 1 && (match output[0] {
                MdEventView::Html(h) => spec_block_html_ok(h, lang, code, entries, g),
                _ => false,
            }) && spec_code_blocks_rel(rest, output.drop_first(), entries, g, None),
            (ev, st) => output.len() >= 1 && output[0] == ev && spec_code_blocks_rel(
                rest,
                output.drop_first(),
                entries,
                g,
                st,
            ),
        }
    }
}

/// The language tag of the first completed unit whose non-empty tag the
/// table does not hold, if any: the tag the aggregation fails with.
pub open spec fn spec_first_unknown(
    input: Seq<MdEventView>,
    entries: Seq<(String, LanguageGrammar)>,
    state: Option<Seq<char>>,
) -> Option<Seq<char>>
    decreases input.len(),
{
    if input.len() == 0 {
        None
    } else {
        let rest = input.drop_first();
        match (input[0], state) {
            (MdEventView::CodeBlockStart(lang), None) => spec_first_unknown(
                rest,
                entries,
                Some(lang),
            ),
            (MdEventView::CodeBlockEnd, Some(lang)) => if lang.len() > 0 && spec_lookup(
                entries,
                lang,
            ) is None {
                Some(lang)
            } else {
                spec_first_unknown(rest, entries, None)
            },
            (ev, st) => spec_first_unknown(rest, entries, st),
        }
    }
}

/// The open unit's language tag.
pub open spec fn spec_state_lang(state: Option<(String, String)>) -> Option<Seq<char>> {
    match state {
        Some(u) => Some(u.0@),
        None => None,
    }
}

/// The open unit's value.
pub open spec fn spec_state_view(state: Option<(String, String)>) -> Option<(Seq<char>, Seq<char>)> {
    match state {
        Some(u) => Some((u.0@, u.1@)),
        None => None,
    }
}

/// Replaces every code-block run with the engine's single HTML event;
/// all other events pass through unmodified, in order. Fails with
/// `UnknownLanguage` exactly when some completed unit carries a
/// non-empty tag outside the table, naming the first such tag.
pub fn aggregate_code_blocks<G: CssClassNameGenerator>(
    events: Vec<MdEvent>,
    highlighter: &CodeBlockHighlighter<G>,
) -> (r: Result<Vec<MdEvent>, HighlighterError>)
    ensures
        match r {
            Ok(out) => spec_code_blocks_rel(
                views_of(events@),
                views_of(out@),
                highlighter.languages@,
                &highlighter.class_name_generator,
                None,
            ) && spec_first_unknown(views_of(events@), highlighter.languages@, None) is None,
            Err(HighlighterError::UnknownLanguage(n)) => spec_first_unknown(
                views_of(events@),
                highlighter.languages@,
                None,
            ) == Some(n@),
        },
{
    let ghost orig = views_of(events@);
    let ghost entries = highlighter.languages@;
    let mut remaining = events;
    let mut out: Vec<MdEvent> = Vec::new();
    let mut state: Option<(String, String)> = None;
    while remaining.len() > 0
        invariant
            orig == views_of(events@),
            entries == highlighter.languages@,
            spec_first_unknown(orig, entries, None) == spec_first_unknown(
                views_of(remaining@),
                entries,
                spec_state_lang(state),
            ),
            forall|suffix: Seq<MdEventView>|
                #[trigger] spec_code_blocks_rel(
                    views_of(remaining@),
                    suffix,
                    entries,
                    &highlighter.class_name_generator,
                    spec_state_view(state),
                ) ==> spec_code_blocks_rel(
                    orig,
                    views_of(out@) + suffix,
                    entries,
                    &highlighter.class_name_generator,
                    None,
                ),
        decreases remaining@.len(),
    {
        let ghost g = &highlighter.class_name_generator;
        let ghost pre = views_of(remaining@);
        let ghost pre_state = spec_state_view(state);
        let ghost out_before = views_of(out@);
        let event = remaining.remove(0);
        proof {
            assert(views_of(remaining@) =~= pre.drop_first());
            assert(pre[0] == event@);
        }
        state = match event {
            MdEvent::CodeBlockStart(lang) => match state {
                None => Some((lang, String::new())),
                Some(unit) => {
                    out.push(MdEvent::CodeBlockStart(lang));
                    Some(unit)
                },
            },
            MdEvent::Text(t) => match state {
                Some(unit) => {
                    let (lang, mut code) = unit;
                    code.append(t.as_str());
                    Some((lang, code))
                },
                None => {
                    out.push(MdEvent::Text(t));
                    None
                },
            },
            MdEvent::CodeBlockEnd => match state {
                Some(unit) => {
                    let (lang, code) = unit;
                    let mut html = String::new();
                    let lang_opt: Option<&str> = if lang.as_str().is_empty() {
                        None
                    } else {
                        Some(lang.as_str())
                    };
                    match highlighter.write_code_block(&mut html, lang_opt, code.as_str()) {
                        Ok(()) => {},
                        Err(e) => {
                            proof {
                                assert(spec_first_unknown(pre, entries, spec_state_lang(
                                    Some((lang, code)),
                                )) == Some(lang@));
                            }
                            return Err(e);
                        },
                    }
                    proof {
                        assert(spec_block_html_ok(html@, lang@, code@, entries, g)) by {
                            if lang@.len() == 0 {
                                assert(html@ =~= spec_block_open("Plain Text"@) + code@
                                    + spec_block_close());
                            } else {
                                let language = spec_lookup(entries, lang@)->0;
                                let body = choose|body: Seq<char>|
                                    #![trigger spec_body_ok(body, code@, encode_utf8(code@), g)]
                                    html@ == Seq::<char>::empty() + spec_block_open(
                                        language.canonical_name@,
                                    ) + body + spec_block_close() && spec_body_ok(
                                        body,
                                        code@,
                                        encode_utf8(code@),
                                        g,
                                    );
                                assert(html@ =~= spec_block_open(language.canonical_name@) + body
                                    + spec_block_close());
                                assert(spec_body_ok(body, code@, encode_utf8(code@), g));
                            }
                        }
                    }
                    out.push(MdEvent::Html(html));
                    None
                },
                None => {
                    out.push(MdEvent::CodeBlockEnd);
                    None
                },
            },
            other => {
                out.push(other);
                state
            },
        };
        proof {
            let rest = pre.drop_first();
            let cur_state = spec_state_view(state);
            assert forall|suffix: Seq<MdEventView>|
                #[trigger] spec_code_blocks_rel(rest, suffix, entries, g, cur_state) implies
                spec_code_blocks_rel(orig, views_of(out@) + suffix, entries, g, None) by {
                match (pre[0], pre_state) {
                    (MdEventView::CodeBlockStart(_), None) => {
                        assert(views_of(out@) =~= out_before);
                        assert(spec_code_blocks_rel(pre, suffix, entries, g, pre_state));
                    },
                    (MdEventView::Text(_), Some(_)) => {
                        assert(views_of(out@) =~= out_before);
                        assert(spec_code_blocks_rel(pre, suffix, entries, g, pre_state));
                    },
                    (MdEventView::CodeBlockEnd, Some((lang, code))) => {
                        let h = views_of(out@)[out_before.len() as int];
                        assert(views_of(out@) =~= out_before.push(h));
                        assert(h is Html && spec_block_html_ok(h->Html_0, lang, code, entries, g));
                        assert((seq![h] + suffix).drop_first() =~= suffix);
                        assert(spec_code_blocks_rel(pre, seq![h] + suffix, entries, g, pre_state));
                        assert(out_before + (seq![h] + suffix) =~= views_of(out@) + suffix);
                    },
                    (ev, st) => {
                        assert(views_of(out@) =~= out_before.push(ev));
                        assert((seq![ev] + suffix).drop_first() =~= suffix);
                        assert(spec_code_blocks_rel(pre, seq![ev] + suffix, entries, g, pre_state));
                        assert(out_before + (seq![ev] + suffix) =~= views_of(out@) + suffix);
                    },
                }
            }
            assert(spec_first_unknown(orig, entries, None) == spec_first_unknown(
                views_of(remaining@),
                entries,
                spec_state_lang(state),
            ));
        }
    }
    proof {
        assert(spec_code_blocks_rel(
            views_of(remaining@),
            Seq::<MdEventView>::empty(),
            entries,
            &highlighter.class_name_generator,
            spec_state_view(state),
        ));
        assert(views_of(out@) + Seq::<MdEventView>::empty() =~= views_of(out@));
        assert(spec_first_unknown(views_of(remaining@), entries, spec_state_lang(state)) is None);
    }
    Ok(out)
}

} // verus!
