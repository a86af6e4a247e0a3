//! A static-site content pipeline: splits YAML front matter from Markdown
//! documents, decodes the metadata, renders the body to HTML, post-processes
//! the HTML for client-side math and syntax highlighting, and emits page
//! components and a manifest of all entries.

pub mod text;
pub mod rewrite;
pub mod markdown;
pub mod date;
pub mod front_matter;
pub mod json;
pub mod manifest;
pub mod template;
pub mod pipeline;
