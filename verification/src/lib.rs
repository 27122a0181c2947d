//! Core of a SoQL query client: URL building with whitespace sanitization,
//! a cancellable streaming-fetch state machine with progress reporting,
//! CSV preview parsing bounded to the first ten data rows, and the
//! UI-side result state holders that consume the fetch channel.

use vstd::prelude::*;

pub mod config;
pub mod socrata;
pub mod strutil;
pub mod utils;

verus! {

pub use config::Config;

} // verus!
