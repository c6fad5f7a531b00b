//! The image aggregator.
//!
//! Buffers each image event run — start, alt-text pieces, end — into
//! one unit and replaces the whole run with a single `img` HTML event,
//! its alt text escaped and its destination URL passed through
//! unescaped. Text and inline HTML both join the alt text; events
//! outside a run pass through unmodified.

use crate::events::{views_of, MdEvent, MdEventView};
use crate::text::{escape, escape_text};
use vstd::prelude::*;

verus! {

/// The value of an optional class.
pub open spec fn opt_str_view(o: Option<String>) -> Option<Seq<char>> {
    match o {
        Some(s) => Some(s@),
        None => None,
    }
}

/// The `img` tag for one aggregated image: the class clause when the
/// generator gives an image class, the raw URL, and the escaped alt
/// text.
pub open spec fn spec_image_html(
    cls: Option<Seq<char>>,
    url: Seq<char>,
    alt: Seq<char>,
) -> Seq<char> {
    "<img"@ + (match cls {
        Some(c) => " class=\""@ + c + "\""@,
        None => Seq::empty(),
    }) + " src=\""@ + url + "\" alt=\""@ + escape_text(alt) + "\">"@
}

/// What the image aggregator turns an event sequence into, given the
/// image class and the currently open unit (destination URL and
/// accumulated alt text). A unit still open when the sequence ends is
/// dropped.
pub open spec fn spec_render_images(
    events: Seq<MdEventView>,
    cls: Option<Seq<char>>,
    state: Option<(Seq<char>, Seq<char>)>,
) -> Seq<MdEventView>
    decreases events.len(),
{
    if events.len() == 0 {
        Seq::empty()
    } else {
        let rest = events.drop_first();
        match (events[0], state) {
            (MdEventView::ImageStart(url), None) => spec_render_images(
                rest,
                cls,
                Some((url, Seq::empty())),
            ),
            (MdEventView::Text(t), Some((url, alt))) => spec_render_images(
                rest,
                cls,
                Some((url, alt + t)),
            ),
            (MdEventView::InlineHtml(t), Some((url, alt))) => spec_render_images(
                rest,
                cls,
                Some((url, alt + t)),
            ),
            (MdEventView::ImageEnd, Some((url, alt))) => seq![
                MdEventView::Html(spec_image_html(cls, url, alt)),
            ] + spec_render_images(rest, cls, None),
            (ev, st) => seq![ev] + spec_render_images(rest, cls, st),
        }
    }
}

/// Builds the `img` tag for one aggregated image.
fn image_tag_html(cls: &Option<String>, url: String, alt: String) -> (r: String)
    ensures
        r@ == spec_image_html(opt_str_view(*cls), url@, alt@),
{
    let mut out = String::from_str("<img");
    match cls {
        Some(c) => {
            out.append(" class=\"");
            out.append(c.as_str());
            out.append("\"");
        },
        None => {},
    }
    out.append(" src=\"");
    out.append(url.as_str());
    out.append("\" alt=\"");
    let mut escaped = alt;
    escape(&mut escaped);
    out.append(escaped.as_str());
    out.append("\">");
    out
}

/// Replaces every image run with its single `img` HTML event; all
/// other events pass through unmodified, in order.
pub fn aggregate_images(events: Vec<MdEvent>, image_class: &Option<String>) -> (r: Vec<MdEvent>)
    ensures
        views_of(r@) == spec_render_images(views_of(events@), opt_str_view(*image_class), None),
{
    let ghost cls = opt_str_view(*image_class);
    let ghost orig = views_of(events@);
    let mut events = events;
    let mut out: Vec<MdEvent> = Vec::new();
    let mut state: Option<(String, String)> = None;
    proof {
        assert(views_of(out@) =~= Seq::<MdEventView>::empty());
        assert(views_of(out@) + spec_render_images(views_of(events@), cls, None) =~= spec_render_images(
            orig,
            cls,
            None,
        ));
    }
    while events.len() > 0
        invariant
            cls == opt_str_view(*image_class),
            spec_render_images(orig, cls, None) == views_of(out@) + spec_render_images(
                views_of(events@),
                cls,
                spec_unit_view(state),
            ),
        decreases events@.len(),
    {
        let ghost pre = views_of(events@);
        let ghost pre_state = spec_unit_view(state);
        let ghost out_before = views_of(out@);
        let event = events.remove(0);
        proof {
            assert(views_of(events@) =~= pre.drop_first());
            assert(pre[0] == event@);
        }
        state = match event {
            MdEvent::ImageStart(url) => match state {
                None => Some((url, String::new())),
                Some(unit) => {
                    out.push(MdEvent::ImageStart(url));
                    Some(unit)
                },
            },
            MdEvent::Text(t) => match state {
                Some(unit) => {
                    let (url, mut alt) = unit;
                    alt.append(t.as_str());
                    Some((url, alt))
                },
                None => {
                    out.push(MdEvent::Text(t));
                    None
                },
            },
            MdEvent::InlineHtml(t) => match state {
                Some(unit) => {
                    let (url, mut alt) = unit;
                    alt.append(t.as_str());
                    Some((url, alt))
                },
                None => {
                    out.push(MdEvent::InlineHtml(t));
                    None
                },
            },
            MdEvent::ImageEnd => match state {
                Some(unit) => {
                    let (url, alt) = unit;
                    let html = image_tag_html(image_class, url, alt);
                    out.push(MdEvent::Html(html));
                    None
                },
                None => {
                    out.push(MdEvent::ImageEnd);
                    None
                },
            },
            other => {
                out.push(other);
                state
            },
        };
        proof {
            let rest = pre.drop_first();
            let cur_state = spec_unit_view(state);
            match (pre[0], pre_state) {
                (MdEventView::ImageStart(_), None) => {
                    assert(views_of(out@) =~= out_before);
                    assert(spec_render_images(pre, cls, pre_state) == spec_render_images(
                        rest,
                        cls,
                        cur_state,
                    ));
                },
                (MdEventView::Text(_), Some(_)) => {
                    assert(views_of(out@) =~= out_before);
                    assert(spec_render_images(pre, cls, pre_state) == spec_render_images(
                        rest,
                        cls,
                        cur_state,
                    ));
                },
                (MdEventView::InlineHtml(_), Some(_)) => {
                    assert(views_of(out@) =~= out_before);
                    assert(spec_render_images(pre, cls, pre_state) == spec_render_images(
                        rest,
                        cls,
                        cur_state,
                    ));
                },
                (MdEventView::ImageEnd, Some((url, alt))) => {
                    assert(out@.len() > 0);
                    assert(out@[out@.len() - 1]@ == MdEventView::Html(
                        spec_image_html(cls, url, alt),
                    ));
                    assert(views_of(out@) =~= out_before.push(
                        MdEventView::Html(spec_image_html(cls, url, alt)),
                    ));
                    assert(spec_render_images(pre, cls, pre_state) == seq![
                        MdEventView::Html(spec_image_html(cls, url, alt)),
                    ] + spec_render_images(rest, cls, cur_state));
                },
                (ev, st) => {
                    assert(views_of(out@) =~= out_before.push(ev));
                    assert(spec_render_images(pre, cls, pre_state) == seq![ev]
                        + spec_render_images(rest, cls, cur_state));
                },
            }
            assert(views_of(out@) + spec_render_images(views_of(events@), cls, cur_state)
                =~= spec_render_images(orig, cls, None));
        }
    }
    proof {
        assert(spec_render_images(views_of(events@), cls, spec_unit_view(state))
            =~= Seq::<MdEventView>::empty());
        assert(views_of(out@) =~= spec_render_images(orig, cls, None));
    }
    out
}

/// The value of the open unit.
pub open spec fn spec_unit_view(state: Option<(String, String)>) -> Option<(Seq<char>, Seq<char>)> {
    match state {
        Some(u) => Some((u.0@, u.1@)),
        None => None,
    }
}

} // verus!
