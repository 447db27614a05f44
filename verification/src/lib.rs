//! The decisions of a two-node mesh integration run.
//!
//! A run checks that two nodes of a mesh, A and B, can reach each other: it
//! waits for peering, then exercises request/reply, pubsub, blob transfer,
//! service discovery and tunnels, and reports a matrix of outcomes. Every
//! decision of a run lives here, as state machines that name the next thing
//! to do and take in what came of it. Talking to the nodes is left to the
//! program around the library.
use vstd::prelude::*;

pub mod blob;
pub mod clock;
pub mod conduct;
pub mod config;
pub mod discovery;
pub mod driver;
pub mod mesh;
pub mod outside;
pub mod peering;
pub mod pubsub;
pub mod replier;
pub mod report;
pub mod request_reply;
pub mod text;
pub mod tunnel;

verus! {

} // verus!
