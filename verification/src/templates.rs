//! The data each page template is filled from.
//!
//! Plain data: the serving layer renders its own template copies and
//! converts.

use crate::model::{BlogPost, Tag};
use vstd::prelude::*;

verus! {

/// The blog home page: the public posts, newest first.
pub struct HomeTemplate {
    pub blog_posts: Vec<BlogPost>,
}

/// One post's page.
pub struct BlogPostTemplate {
    pub blog_post: BlogPost,
}

/// The posts filed under one tag.
pub struct TaggedTemplate {
    pub tag: Tag,
    pub blog_posts: Vec<BlogPost>,
}

/// The listing of all tags.
pub struct TagsTemplate {
    pub tags: Vec<Tag>,
}

/// The error page, by HTTP status code.
pub struct ErrorTemplate {
    pub status: u16,
}

} // verus!
