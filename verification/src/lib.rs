//! Fragment composition for HTML responses.
//!
//! A response that is an HTML document may hold directives: elements that
//! name a target to fetch. This library finds them, says what to fetch for
//! each, and merges what came back into the document. It can also cut a
//! document down to what a selector matches.

pub mod config;
pub mod dummy;
pub mod either;
pub mod engine;
pub mod error;
pub mod future;
pub mod holdup;
pub mod html_rewriter;
pub mod inject;
pub mod message;
pub mod multi;
pub mod plan;
pub mod presets;
pub mod query;
pub mod resolve;
pub mod rewrite;
pub mod rewriter;
pub mod select;
pub mod service;
pub mod swap;
pub mod sync;
pub mod text;
pub mod uri;
pub mod util;
