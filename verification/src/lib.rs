//! Extraction of structured media metadata (author, title, direct playable
//! URLs) from the share links of twenty-odd short-video platforms, none of
//! which documents its JSON or HTML-embedded data.
//!
//! The core is the pluggable extraction framework: URL normalization and
//! platform identification, a registry of per-platform strategies, and the
//! recurring resilience primitives every strategy is built from — redirect
//! resolution, embedded-JSON extraction, defensive nested-field projection,
//! and strict in-series fallback chains. Network transport lives outside
//! the library; the strategies here are the pure decision and extraction
//! logic, stated and proved over the fetched payloads.

use vstd::prelude::*;

pub mod chain;
pub mod errors;
pub mod htmlq;
pub mod json;
pub mod models;
pub mod parser;
pub mod text;
pub mod utils;
pub mod weburl;

verus! {

} // verus!
