//! Typed paths and request parameters the server routes on.
//!
//! Plain data: the serving layer derives its routing and decoding on
//! its own copies and converts.

use crate::model::{Author, Tag};
use vstd::prelude::*;

verus! {

/// The site root.
#[derive(Clone, PartialEq, Eq, Debug)]
pub struct HomePath {}

/// One blog post's page.
#[derive(Clone, PartialEq, Eq, Debug)]
pub struct BlogPostPath {
    pub post_url: String,
}

/// The listing of posts filed under one tag.
#[derive(Clone, PartialEq, Eq, Debug)]
pub struct TaggedPath {
    pub tag: Tag,
}

/// The listing of all tags.
#[derive(Clone, PartialEq, Eq, Debug)]
pub struct TagsPath {}

/// The RSS feed.
#[derive(Clone, PartialEq, Eq, Debug)]
pub struct RssPath {}

/// The generated highlight stylesheet.
#[derive(Clone, PartialEq, Eq, Debug)]
pub struct StyleCssPath {}

/// Optional tag and author filters on the RSS feed.
#[derive(Clone, PartialEq, Eq, Debug)]
pub struct RssQueryParams {
    pub tags: Vec<Tag>,
    pub authors: Vec<Author>,
}

/// The base URI pages and feeds are linked under.
#[derive(Clone, PartialEq, Eq, Debug)]
pub struct BaseUri(pub String);

/// A response body served as XML.
#[derive(Copy, Clone, PartialEq, Eq, Debug)]
pub struct Xml<T>(pub T);

} // verus!
