//! Prompt construction, response handling and bookkeeping for a small set of
//! LLM-backed Golem components: an entry categorizer, an input analyzer and a
//! conversational worker.
use vstd::prelude::*;

pub mod analyzer;
pub mod categorizer;
pub mod common;
pub mod pending;
pub mod text;
pub mod worker;

verus! {

} // verus!
