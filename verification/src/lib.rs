//! Decisions of an offline voice-dictation system: transcript cleaning, the
//! daemon's session handling, speaker muting, the overlay's state and the
//! LLM revision workflow, each with a verified contract.
use vstd::prelude::*;

pub mod client;
pub mod daemon;
pub mod fix;
pub mod paste;
pub mod protocol;
pub mod recorder;
pub mod server;
pub mod text;
pub mod transcript;

verus! {

} // verus!
