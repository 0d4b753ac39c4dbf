//! Builds a static site from markdown documents: splits front matter from
//! body, resolves link-preview metadata for autolinks, renders pages, and
//! decides which documents a run must rebuild.
use vstd::prelude::*;

pub mod cache;
pub mod contents;
pub mod hash;
pub mod markdown;
pub mod pipeline;
pub mod text;

verus! {

} // verus!
