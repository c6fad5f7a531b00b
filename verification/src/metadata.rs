//! The metadata extractor.
//!
//! A single read-only pass that finds the first pluses-delimited
//! front-matter block and concatenates its text. Later blocks are
//! ignored; a block still open when the stream ends yields nothing.
//! Decoding the text into structured fields is the caller's business.

use crate::events::MdEvent;
use crate::events::{views_of, MdEventView};
use vstd::prelude::*;
use vstd::string::StrSliceExecFns;

verus! {

/// A text without its final newline — the one that precedes a block's
/// closing delimiter.
pub open spec fn spec_trim_trailing_newline(s: Seq<char>) -> Seq<char> {
    if s.len() > 0 && s[s.len() - 1] == '\n' {
        s.drop_last()
    } else {
        s
    }
}

/// The text of the first closed metadata block at or after the current
/// position, given the text accumulated inside an open block.
pub open spec fn spec_extract_metadata(
    events: Seq<MdEventView>,
    state: Option<Seq<char>>,
) -> Option<Seq<char>>
    decreases events.len(),
{
    if events.len() == 0 {
        None
    } else {
        let rest = events.drop_first();
        match (events[0], state) {
            (MdEventView::MetadataBlockStart, None) => spec_extract_metadata(
                rest,
                Some(Seq::empty()),
            ),
            (MdEventView::MetadataBlockEnd, Some(text)) => Some(
                spec_trim_trailing_newline(text),
            ),
            (MdEventView::Text(t), Some(text)) => spec_extract_metadata(rest, Some(text + t)),
            (ev, st) => spec_extract_metadata(rest, st),
        }
    }
}

/// Extracts the first metadata block's text, trimmed of the newline
/// before the closing delimiter, or nothing when the stream holds no
/// closed metadata block.
pub fn extract_metadata(events: &Vec<MdEvent>) -> (r: Option<String>)
    ensures
        match r {
            Some(s) => spec_extract_metadata(views_of(events@), None) == Some(s@),
            None => spec_extract_metadata(views_of(events@), None) is None,
        },
{
    let ghost orig = views_of(events@);
    let n = events.len();
    let mut state: Option<String> = None;
    let mut i: usize = 0;
    proof {
        assert(orig.skip(0) =~= orig);
    }
    while i < n
        invariant
            n == events@.len(),
            i <= n,
            orig == views_of(events@),
            spec_extract_metadata(orig, None) == spec_extract_metadata(
                orig.skip(i as int),
                opt_text_view(state),
            ),
        decreases n - i,
    {
        let ghost pre = orig.skip(i as int);
        proof {
            assert(pre[0] == orig[i as int]);
            assert(orig[i as int] == events@[i as int]@);
            assert(pre.drop_first() =~= orig.skip(i + 1));
        }
        match &events[i] {
            MdEvent::MetadataBlockStart => {
                if state.is_none() {
                    state = Some(String::new());
                }
            },
            MdEvent::MetadataBlockEnd => match state {
                Some(text) => {
                    let n = text.as_str().unicode_len();
                    if n > 0 && text.as_str().get_char(n - 1) == '\n' {
                        let trimmed = String::from_str(text.as_str().substring_char(0, n - 1));
                        proof {
                            assert(trimmed@ == text@.subrange(0, text@.len() - 1));
                            assert(trimmed@ =~= spec_trim_trailing_newline(text@));
                        }
                        return Some(trimmed);
                    }
                    return Some(text);
                },
                None => {},
            },
            MdEvent::Text(t) => match &mut state {
                Some(text) => {
                    text.append(t.as_str());
                },
                None => {},
            },
            _ => {},
        }
        i = i + 1;
    }
    proof {
        assert(orig.skip(n as int) =~= Seq::<MdEventView>::empty());
    }
    None
}

/// The value of the accumulated text.
pub open spec fn opt_text_view(state: Option<String>) -> Option<Seq<char>> {
    match state {
        Some(s) => Some(s@),
        None => None,
    }
}

} // verus!
