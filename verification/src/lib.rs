//! Cascade-routing controller for a fleet of media-relay nodes.
//!
//! When a stream is requested on a node that does not originate it, this
//! library picks a destination node to host a relay copy, drives the
//! establishment of that relay (push from the origin or pull by the
//! destination), verifies that the relay came up within a bounded number of
//! health checks, and optionally collapses now-redundant direct
//! subscriptions on the origin.
//!
//! The remote calls themselves (push, pull, health check, session listing and
//! deletion) are performed by an unverified driver; this crate contains the
//! decision logic as a step machine: each state names the remote action to
//! perform next, and the outcome of that action is handed back as an event.

use vstd::prelude::*;

pub mod config;
pub mod node;
pub mod select;
pub mod session;
pub mod trace;
pub mod workflow;

verus! {

/// The two relay-establishment strategies, fixed by configuration.
#[derive(Clone, Copy, Debug, PartialEq, Eq, Structural)]
pub enum CascadeMode {
    Push,
    Pull,
}

} // verus!
