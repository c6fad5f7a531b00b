//! Markdown-to-HTML rendering for a blog, with grammar-driven syntax
//! highlighting of fenced code blocks and a theme-driven CSS generator.
//!
//! The pipeline turns a markdown document into a stream of structural
//! events, buffers image and fenced-code-block runs into single HTML
//! events, extracts the first front-matter block, and serializes the
//! result back to HTML. Highlight categories come from a fixed 29-entry
//! table shared between live highlighting and stylesheet generation.

pub mod categories;
pub mod class_names;
pub mod codeblocks;
pub mod events;
pub mod highlight_html;
pub mod highlighter;
pub mod images;
pub mod metadata;
pub mod model;
pub mod paths;
pub mod render;
pub mod templates;
pub mod text;
pub mod theme;
pub mod tokens;
