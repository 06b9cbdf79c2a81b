//! Builder-style configuration for a native file picker, and the JSON
//! envelopes in which its outcomes are handed back to a host runtime.
use vstd::prelude::*;

pub mod dialog;
pub mod envelope;
pub mod json;
pub mod native;
pub mod text;

verus! {

} // verus!
