//! The markdown event stream.
//!
//! An upstream parser turns the raw document into an ordered sequence
//! of structural events. The aggregators act on text, code-block,
//! image and metadata events; every other event passes through the
//! pipeline untouched and is handed back to the serializer.

use pulldown_cmark::CodeBlockKind::Fenced;
use pulldown_cmark::LinkType::Inline;
use pulldown_cmark::MetadataBlockKind::PlusesStyle;
use pulldown_cmark::{Event, Tag, TagEnd};
use vstd::prelude::*;

verus! {

#[verifier::external_type_specification]
#[verifier::external_body]
pub struct ExMdRawEvent<'a>(Event<'a>);

/// One structural event of a parsed document.
pub enum MdEvent {
    /// A text node.
    Text(String),
    /// A fenced code block opens, with the fence's language tag (empty
    /// for no tag).
    CodeBlockStart(String),
    /// The open code block closes.
    CodeBlockEnd,
    /// An image opens, with its destination URL.
    ImageStart(String),
    /// The open image closes.
    ImageEnd,
    /// A pluses-delimited metadata block opens.
    MetadataBlockStart,
    /// The open metadata block closes.
    MetadataBlockEnd,
    /// Raw HTML, passed to the serializer verbatim.
    Html(String),
    /// Inline HTML; inside an image it joins the alt text, elsewhere it
    /// passes through untouched.
    InlineHtml(String),
    /// Any other event, passed through untouched.
    Other(Event<'static>),
}

/// A pipeline event as a mathematical value.
pub enum MdEventView {
    Text(Seq<char>),
    CodeBlockStart(Seq<char>),
    CodeBlockEnd,
    ImageStart(Seq<char>),
    ImageEnd,
    MetadataBlockStart,
    MetadataBlockEnd,
    Html(Seq<char>),
    InlineHtml(Seq<char>),
    Other(Event<'static>),
}

impl View for MdEvent {
    type V = MdEventView;

    open spec fn view(&self) -> MdEventView {
        match self {
            MdEvent::Text(s) => MdEventView::Text(s@),
            MdEvent::CodeBlockStart(s) => MdEventView::CodeBlockStart(s@),
            MdEvent::CodeBlockEnd => MdEventView::CodeBlockEnd,
            MdEvent::ImageStart(s) => MdEventView::ImageStart(s@),
            MdEvent::ImageEnd => MdEventView::ImageEnd,
            MdEvent::MetadataBlockStart => MdEventView::MetadataBlockStart,
            MdEvent::MetadataBlockEnd => MdEventView::MetadataBlockEnd,
            MdEvent::Html(s) => MdEventView::Html(s@),
            MdEvent::InlineHtml(s) => MdEventView::InlineHtml(s@),
            MdEvent::Other(e) => MdEventView::Other(*e),
        }
    }
}

/// The values of a whole event sequence.
pub open spec fn views_of(s: Seq<MdEvent>) -> Seq<MdEventView> {
    s.map_values(|e: MdEvent| e@)
}

/// The classified event stream the parser yields for a document: a
/// function of the document text alone.
pub uninterp spec fn md_events_of(doc: Seq<char>) -> Seq<MdEventView>;

/// The HTML the serializer writes for an event stream: a function of
/// the events alone.
pub uninterp spec fn html_of(events: Seq<MdEventView>) -> Seq<char>;

/// Relies on pulldown-cmark's Parser: parses the document into its
/// event stream — with tables, footnotes, strikethrough, task lists,
/// smart punctuation, heading attributes and pluses-delimited metadata
/// blocks enabled — and classifies each event. Start and end events
/// come properly paired, and the result depends on the document alone.
#[verifier::external_body]
pub(crate) fn parse_markdown_events(markdown: &str) -> (r: Vec<MdEvent>)
    ensures
        views_of(r@) == md_events_of(markdown@),
{
    let options = pulldown_cmark::Options::ENABLE_TABLES
        | pulldown_cmark::Options::ENABLE_FOOTNOTES
        | pulldown_cmark::Options::ENABLE_STRIKETHROUGH
        | pulldown_cmark::Options::ENABLE_TASKLISTS
        | pulldown_cmark::Options::ENABLE_SMART_PUNCTUATION
        | pulldown_cmark::Options::ENABLE_HEADING_ATTRIBUTES
        | pulldown_cmark::Options::ENABLE_PLUSES_DELIMITED_METADATA_BLOCKS;
    pulldown_cmark::Parser::new_ext(markdown, options).map(|e| classify_event(e.into_static())).collect()
}

/// Relies on pulldown-cmark's event model: tells the variants the
/// aggregators act on apart, copying their text; every other event
/// passes through untouched.
#[verifier::external_body]
pub(crate) fn classify_event(event: Event<'static>) -> (r: MdEvent)
{
    match event {
        Event::Text(t) => MdEvent::Text(t.to_string()),
        Event::Start(Tag::CodeBlock(Fenced(lang))) => MdEvent::CodeBlockStart(lang.to_string()),
        Event::End(TagEnd::CodeBlock) => MdEvent::CodeBlockEnd,
        Event::Start(Tag::Image { dest_url, .. }) => MdEvent::ImageStart(dest_url.to_string()),
        Event::End(TagEnd::Image) => MdEvent::ImageEnd,
        Event::Start(Tag::MetadataBlock(PlusesStyle)) => MdEvent::MetadataBlockStart,
        Event::End(TagEnd::MetadataBlock(PlusesStyle)) => MdEvent::MetadataBlockEnd,
        Event::Html(h) => MdEvent::Html(h.to_string()),
        Event::InlineHtml(h) => MdEvent::InlineHtml(h.to_string()),
        other => MdEvent::Other(other),
    }
}

/// Relies on pulldown-cmark's event model: rebuilds the event each
/// value stands for. A start rebuilt here carries no title or
/// identifier, which the aggregators never hold.
#[verifier::external_body]
pub(crate) fn to_pulldown_event(event: MdEvent) -> (r: Event<'static>)
{
    match event {
        MdEvent::Text(t) => Event::Text(t.into()),
        MdEvent::CodeBlockStart(lang) => Event::Start(Tag::CodeBlock(Fenced(lang.into()))),
        MdEvent::CodeBlockEnd => Event::End(TagEnd::CodeBlock),
        MdEvent::ImageStart(url) => Event::Start(Tag::Image { link_type: Inline, dest_url: url.into(), title: "".into(), id: "".into() }),
        MdEvent::ImageEnd => Event::End(TagEnd::Image),
        MdEvent::MetadataBlockStart => Event::Start(Tag::MetadataBlock(PlusesStyle)),
        MdEvent::MetadataBlockEnd => Event::End(TagEnd::MetadataBlock(PlusesStyle)),
        MdEvent::Html(h) => Event::Html(h.into()),
        MdEvent::InlineHtml(h) => Event::InlineHtml(h.into()),
        MdEvent::Other(e) => e,
    }
}

/// Relies on pulldown-cmark's push_html: rebuilds each event's raw form
/// and serializes the stream to HTML, a function of the events alone.
/// Metadata blocks and their text produce no output.
#[verifier::external_body]
pub(crate) fn events_to_html(events: Vec<MdEvent>) -> (r: String)
    ensures
        r@ == html_of(views_of(events@)),
{
    let mut html = String::new();
    pulldown_cmark::html::push_html(&mut html, events.into_iter().map(to_pulldown_event));
    html
}

} // verus!
