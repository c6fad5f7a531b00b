//! The blog model.
//!
//! A blog post's contents arrive as markdown or as ready HTML; a
//! partial post becomes a full post by rendering the markdown through
//! the pipeline and estimating a reading time from the word count.
//! Publication dates are Unix-second timestamps; reading times are
//! whole minutes.

use crate::class_names::CssClassNameGenerator;
use crate::events::{html_of, MdEventView};
use crate::highlighter::{CodeBlockHighlighter, HighlighterError};
use crate::images::opt_str_view;
use crate::paths::{BlogPostPath, TaggedPath};
use crate::render::{
    render_md_to_html, spec_aggregated_stream_ok, spec_doc_unknown_lang, spec_render_ok,
};
use vstd::prelude::*;

verus! {

/// A post's author, by name.
#[derive(Clone, PartialEq, Eq, PartialOrd, Ord, Hash, Debug)]
pub struct Author(pub String);

/// One tag a post is filed under.
#[derive(Clone, PartialEq, Eq, PartialOrd, Ord, Hash, Debug)]
pub struct Tag(pub String);

impl From<String> for Author {
    fn from(author: String) -> (r: Self) {
        Author(author)
    }
}

impl vstd::std_specs::convert::FromSpecImpl<String> for Author {
    open spec fn obeys_from_spec() -> bool {
        true
    }

    open spec fn from_spec(author: String) -> Self {
        Author(author)
    }
}

impl From<String> for Tag {
    fn from(tag: String) -> (r: Self) {
        Tag(tag)
    }
}

impl vstd::std_specs::convert::FromSpecImpl<String> for Tag {
    open spec fn obeys_from_spec() -> bool {
        true
    }

    open spec fn from_spec(tag: String) -> Self {
        Tag(tag)
    }
}

/// A post's contents as authored: markdown to be rendered, or HTML
/// served as it stands.
#[derive(Clone, PartialEq, Eq, Debug)]
pub enum MdOrHtml {
    Markdown(String),
    Html(String),
}

impl MdOrHtml {
    /// The contained text, whichever form it takes.
    pub open spec fn spec_contents(self) -> Seq<char> {
        match self {
            MdOrHtml::Markdown(contents) => contents@,
            MdOrHtml::Html(contents) => contents@,
        }
    }

    /// The contained text, whichever form it takes.
    pub fn contents(&self) -> (r: &str)
        ensures
            r@ == self.spec_contents(),
    {
        match self {
            MdOrHtml::Markdown(contents) => contents.as_str(),
            MdOrHtml::Html(contents) => contents.as_str(),
        }
    }

    /// The text when it is markdown.
    pub fn markdown(&self) -> (r: Option<&str>)
        ensures
            match r {
                Some(md) => self is Markdown && md@ == self.spec_contents(),
                None => self is Html,
            },
    {
        match self {
            MdOrHtml::Markdown(md) => Some(md.as_str()),
            MdOrHtml::Html(_) => None,
        }
    }

    /// The text when it is ready HTML.
    pub fn html(&self) -> (r: Option<&str>)
        ensures
            match r {
                Some(html) => self is Html && html@ == self.spec_contents(),
                None => self is Markdown,
            },
    {
        match self {
            MdOrHtml::Markdown(_) => None,
            MdOrHtml::Html(html) => Some(html.as_str()),
        }
    }
}

/// A post as authored, before rendering.
#[derive(Clone, PartialEq, Eq, Debug)]
pub struct PartialBlogPost {
    pub url: String,
    pub title: String,
    pub description: String,
    pub author: Author,
    pub contents: MdOrHtml,
    pub tags: Vec<Tag>,
    pub accessible: bool,
    /// Unix seconds; absent for an unpublished post.
    pub publication_date: Option<i64>,
}

/// A post as served.
#[derive(Clone, PartialEq, Eq, Debug)]
pub struct BlogPost {
    pub url: String,
    pub title: String,
    pub description: String,
    pub author: Author,
    pub markdown: Option<String>,
    pub html: String,
    pub tags: Vec<Tag>,
    /// Estimated reading time in whole minutes.
    pub reading_time_minutes: i64,
    pub accessible: bool,
    /// Unix seconds; absent for an unpublished post.
    pub publication_date: Option<i64>,
}

/// Assumed average reading speed, in words per minute. Probably a
/// slightly low estimate, which is fine for a technical blog.
pub const AVERAGE_READING_WPM: usize = 200;

/// How many whitespace-separated words a text holds.
pub uninterp spec fn word_count_of(s: Seq<char>) -> nat;

/// Relies on str::split_whitespace: counts the whitespace-separated
/// words, a function of the text alone.
#[verifier::external_body]
fn count_words(s: &str) -> (n: usize)
    ensures
        n as nat == word_count_of(s@),
{
    s.split_whitespace().count()
}

/// Relies on chrono's Utc::now: the clock's reading, as Unix seconds.
#[verifier::external_body]
fn now_unix_seconds() -> i64 {
    chrono::Utc::now().timestamp()
}

/// The estimated reading time of a text, in whole minutes: its word
/// count over the assumed reading speed, rounded down.
pub fn generate_reading_time(content: &str) -> (r: i64)
    ensures
        r as nat == word_count_of(content@) / (AVERAGE_READING_WPM as nat),
{
    let words = count_words(content);
    (words / AVERAGE_READING_WPM) as i64
}

impl PartialBlogPost {
    /// Renders the authored contents into a full post: markdown runs
    /// through the pipeline and the post's HTML is exactly the
    /// serialization of an acceptable aggregation of its event stream;
    /// ready HTML is kept as it stands; every other field carries over,
    /// and the reading time comes from the authored text's word count.
    /// Fails only when rendering does, on a fence naming an
    /// unregistered language.
    pub fn generate_blog_post<G: CssClassNameGenerator>(
        self,
        highlighter: &CodeBlockHighlighter<G>,
    ) -> (r: Result<BlogPost, HighlighterError>)
        ensures
            match r {
                Ok(post) => {
                    &&& post.url == self.url
                    &&& post.title == self.title
                    &&& post.description == self.description
                    &&& post.author == self.author
                    &&& post.tags == self.tags
                    &&& post.accessible == self.accessible
                    &&& post.publication_date == self.publication_date
                    &&& post.reading_time_minutes as nat == word_count_of(
                        self.contents.spec_contents(),
                    ) / (AVERAGE_READING_WPM as nat)
                    &&& match self.contents {
                        MdOrHtml::Markdown(md) => post.markdown matches Some(m) && m@ == md@
                            && exists|final_evs: Seq<MdEventView>|
                            #[trigger] spec_aggregated_stream_ok(md@, final_evs, highlighter)
                                && post.html@ == html_of(final_evs),
                        MdOrHtml::Html(html) => post.markdown is None && post.html@ == html@,
                    }
                },
                Err(HighlighterError::UnknownLanguage(n)) => self.contents matches MdOrHtml::Markdown(
                    md,
                ) && spec_doc_unknown_lang(md@, highlighter) == Some(n@),
            },
    {
        let PartialBlogPost {
            url,
            title,
            description,
            author,
            contents,
            tags,
            accessible,
            publication_date,
        } = self;

        let reading_time_minutes = generate_reading_time(contents.contents());
        let (markdown, html) = match contents {
            MdOrHtml::Markdown(md) => {
                let rendered = match render_md_to_html(md.as_str(), highlighter) {
                    Ok(rr) => {
                        proof {
                            let fe = choose|final_evs: Seq<MdEventView>|
                                #[trigger] spec_render_ok(
                                    md@,
                                    final_evs,
                                    rr.html@,
                                    opt_str_view(rr.metadata),
                                    highlighter,
                                );
                            assert(spec_aggregated_stream_ok(md@, fe, highlighter) && rr.html@
                                == html_of(fe));
                        }
                        rr.html
                    },
                    Err(e) => {
                        return Err(e);
                    },
                };
                (Some(md), rendered)
            },
            MdOrHtml::Html(html) => (None, html),
        };

        Ok(
            BlogPost {
                url,
                title,
                description,
                author,
                markdown,
                html,
                tags,
                reading_time_minutes,
                accessible,
                publication_date,
            },
        )
    }
}

impl BlogPost {
    /// Whether the post is public at the given time: accessible, and
    /// published no later than that time.
    pub open spec fn spec_is_public_at(self, now: i64) -> bool {
        self.accessible && match self.publication_date {
            Some(date) => date <= now,
            None => false,
        }
    }

    /// Whether the post is public at the given time.
    pub fn is_public_at(&self, now: i64) -> (r: bool)
        ensures
            r == self.spec_is_public_at(now),
    {
        self.accessible && match self.publication_date {
            Some(date) => date <= now,
            None => false,
        }
    }

    /// Whether the post is public right now, by the clock: whatever the
    /// clock reads, an inaccessible or unpublished post is never
    /// public.
    pub fn is_public(&self) -> (r: bool)
        ensures
            r ==> self.accessible && self.publication_date is Some,
    {
        let now = now_unix_seconds();
        self.is_public_at(now)
    }

    /// The typed path the post is served under.
    pub fn full_path(&self) -> (r: BlogPostPath)
        ensures
            r.post_url@ == self.url@,
    {
        BlogPostPath { post_url: self.url.clone() }
    }
}

impl Tag {
    /// The typed path listing the posts filed under this tag.
    pub fn full_path(&self) -> (r: TaggedPath)
        ensures
            r.tag.0@ == self.0@,
    {
        TaggedPath { tag: Tag(self.0.clone()) }
    }
}

} // verus!
