//! Chord-triggered clipboard processing: the verified core.
//!
//! Keyboard events drive a modifier tracker and two chord matchers (process
//! and exit). A process match captures the clipboard text into a trigger,
//! and each trigger runs through a small per-task pipeline state machine
//! (generate, write clipboard, settle, paste). The side effects themselves
//! are performed by the host program.
use vstd::prelude::*;

pub mod keys;
pub mod chord;
pub mod config;
pub mod listener;
pub mod trigger;
pub mod pipeline;

verus! {

} // verus!
