//! The renderer.
//!
//! Composes the pipeline over one document: parse to an event stream,
//! aggregate image runs, aggregate and highlight code-block runs,
//! extract the first metadata block, and serialize the stream back to
//! HTML. The result is a complete HTML string plus the optional
//! metadata text, or the `UnknownLanguage` error — partial output is
//! never returned.

use crate::class_names::CssClassNameGenerator;
use crate::codeblocks::{aggregate_code_blocks, spec_code_blocks_rel, spec_first_unknown};
use crate::events::{
    events_to_html, html_of, md_events_of, parse_markdown_events, views_of, MdEventView,
};
use crate::highlighter::{CodeBlockHighlighter, HighlighterError};
use crate::images::{aggregate_images, opt_str_view, spec_render_images};
use crate::metadata::{extract_metadata, spec_extract_metadata};
use vstd::prelude::*;

verus! {

/// What one render produces: the document's HTML and the first
/// metadata block's text, if any.
pub struct RenderResult {
    pub metadata: Option<String>,
    pub html: String,
}

/// The aggregated stream the document's own events turn into: the
/// image stage is the exact aggregation of the document's classified
/// events, and the code-block stage is an acceptable aggregation of
/// that.
pub open spec fn spec_aggregated_stream_ok<G: CssClassNameGenerator>(
    doc: Seq<char>,
    final_evs: Seq<MdEventView>,
    h: &CodeBlockHighlighter<G>,
) -> bool {
    spec_code_blocks_rel(
        spec_render_images(
            md_events_of(doc),
            h.class_name_generator.spec_class_for_image(),
            None,
        ),
        final_evs,
        h.languages@,
        &h.class_name_generator,
        None,
    )
}

/// A whole successful render of a document: for some acceptable
/// aggregation of the document's own event stream, the HTML is exactly
/// that stream's serialization and the metadata is exactly what the
/// extractor finds in it.
pub open spec fn spec_render_ok<G: CssClassNameGenerator>(
    doc: Seq<char>,
    final_evs: Seq<MdEventView>,
    html: Seq<char>,
    metadata: Option<Seq<char>>,
    h: &CodeBlockHighlighter<G>,
) -> bool {
    &&& spec_aggregated_stream_ok(doc, final_evs, h)
    &&& html == html_of(final_evs)
    &&& metadata == spec_extract_metadata(final_evs, None)
}

/// The first unregistered non-empty fence tag of a document, if any:
/// exactly the tag a render of the document fails with.
pub open spec fn spec_doc_unknown_lang<G: CssClassNameGenerator>(
    doc: Seq<char>,
    h: &CodeBlockHighlighter<G>,
) -> Option<Seq<char>> {
    spec_first_unknown(
        spec_render_images(
            md_events_of(doc),
            h.class_name_generator.spec_class_for_image(),
            None,
        ),
        h.languages@,
        None,
    )
}

/// Renders one markdown document under a grammar table and class-name
/// generator. The document's classified event stream runs the whole
/// pipeline — images aggregated, code blocks aggregated and
/// highlighted, metadata extracted — and the HTML is exactly the final
/// stream's serialization. Succeeds if and only if every completed
/// code block's non-empty language tag is registered; the error names
/// the first tag that is not.
pub fn render_md_to_html<G: CssClassNameGenerator>(
    markdown: &str,
    highlighter: &CodeBlockHighlighter<G>,
) -> (r: Result<RenderResult, HighlighterError>)
    ensures
        match r {
            Ok(rr) => spec_doc_unknown_lang(markdown@, highlighter) is None && exists|
                final_evs: Seq<MdEventView>,
            |
                #[trigger] spec_render_ok(
                    markdown@,
                    final_evs,
                    rr.html@,
                    opt_str_view(rr.metadata),
                    highlighter,
                ),
            Err(HighlighterError::UnknownLanguage(n)) => spec_doc_unknown_lang(
                markdown@,
                highlighter,
            ) == Some(n@),
        },
{
    let classified = parse_markdown_events(markdown);
    let image_class = highlighter.class_name_generator.class_for_image();
    let with_images = aggregate_images(classified, &image_class);
    let with_blocks = match aggregate_code_blocks(with_images, highlighter) {
        Ok(events) => events,
        Err(e) => {
            proof {
                assert(spec_doc_unknown_lang(markdown@, highlighter) == Some(
                    (e->UnknownLanguage_0)@,
                ));
            }
            return Err(e);
        },
    };
    let metadata = extract_metadata(&with_blocks);
    let ghost final_evs = views_of(with_blocks@);
    let html = events_to_html(with_blocks);
    let result = RenderResult { metadata, html };
    proof {
        assert(spec_render_ok(
            markdown@,
            final_evs,
            result.html@,
            opt_str_view(result.metadata),
            highlighter,
        ));
    }
    Ok(result)
}

/// Past the tokenizer, rendering one document twice is byte-identical:
/// the parse is a function of the document, and two runs whose
/// code-block stages agreed on the same aggregated stream produce equal
/// HTML and equal metadata.
pub proof fn lemma_render_deterministic<G: CssClassNameGenerator>(
    doc: Seq<char>,
    final_evs: Seq<MdEventView>,
    html1: Seq<char>,
    meta1: Option<Seq<char>>,
    html2: Seq<char>,
    meta2: Option<Seq<char>>,
    h: &CodeBlockHighlighter<G>,
)
    requires
        spec_render_ok(doc, final_evs, html1, meta1, h),
        spec_render_ok(doc, final_evs, html2, meta2, h),
    ensures
        html1 == html2,
        meta1 == meta2,
{
}

/// Past the parser and the tokenizer, rendering is a mathematical
/// function of its inputs: over one classified event stream, with one
/// image class, any two runs of the image stage agree, and over one
/// final stream any two runs of the extractor agree.
pub proof fn lemma_pipeline_stages_deterministic(
    evs: Seq<MdEventView>,
    cls: Option<Seq<char>>,
    imgs1: Seq<MdEventView>,
    imgs2: Seq<MdEventView>,
    fin: Seq<MdEventView>,
    meta1: Option<Seq<char>>,
    meta2: Option<Seq<char>>,
)
    requires
        imgs1 == spec_render_images(evs, cls, None),
        imgs2 == spec_render_images(evs, cls, None),
        meta1 == spec_extract_metadata(fin, None),
        meta2 == spec_extract_metadata(fin, None),
    ensures
        imgs1 == imgs2,
        meta1 == meta2,
{
}

} // verus!
