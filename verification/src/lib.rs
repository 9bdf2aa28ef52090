//! The verified core of the SillyMic host: session bookkeeping, signalling
//! decisions, PIN rules, input-device selection and audio framing.
use vstd::prelude::*;

pub mod audio;
pub mod cli;
pub mod doctor;
pub mod server;
pub mod session;
pub mod signal;
pub mod signaling;
pub mod text;

verus! {

} // verus!
