//! Metadata extraction for post pages of a social-media site: a link
//! validator and an extractor that reads meta tags out of raw HTML.
pub mod extract;
pub mod model;
pub mod pattern;
pub mod text;
pub mod url;
