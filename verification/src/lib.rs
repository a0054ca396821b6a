//! Module resolution and on-demand dependency pre-bundling for a development
//! server that serves web application sources as browser-ready ES modules.

pub mod cache;
pub mod cli;
pub mod content_type;
pub mod error;
pub mod layout;
pub mod manifest;
pub mod middleware;
pub mod paths;
pub mod resolver;
pub mod rewrite;
pub mod specifier;
pub mod text;
pub mod transform;
pub mod tree;
