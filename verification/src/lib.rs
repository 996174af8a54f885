//! Verified core of `dsync`: Markdown frontmatter and link-block handling,
//! command-line resolution, provider request/response logic, and the
//! decision machine that drives a sync or an import.

pub mod text;
pub mod markdown;
pub mod links;
pub mod json;
pub mod http;
pub mod google_docs;
pub mod linear;
pub mod error;
pub mod document;
pub mod cli;
pub mod git;
pub mod application;
