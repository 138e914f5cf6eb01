//! A harness for driving a command-line launcher through integration
//! scenarios: it describes process invocations, checks their captured output,
//! classifies the lock files a launcher leaves behind, compares artifact
//! fingerprints and decides which scenarios run, in which order, and when a
//! run stops.
use vstd::prelude::*;

pub mod assertion;
pub mod catalog;
pub mod fingerprint;
pub mod fixtures;
pub mod locks;
pub mod platform;
pub mod request;
pub mod runner;
pub mod text;

verus! {

} // verus!
