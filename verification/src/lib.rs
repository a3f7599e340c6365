//! Membership reconciliation between two linked chat surfaces: a broadcast
//! channel and its discussion group. Every account present in the group must
//! be a current member of the channel; accounts that leave the channel are
//! removed from the group, and the platform's own notice about that removal
//! is suppressed.
//!
//! This crate holds the decision logic: event classification, the
//! pending-removal registry that correlates a removal with the platform's
//! follow-up notice, the corrective-call planning with its partial-failure
//! policy, and the maintainer console rules. The surrounding process performs
//! the remote calls and feeds their outcomes back in.

pub mod config;
pub mod console;
pub mod events;
pub mod laws;
pub mod misc;
pub mod reconciler;
pub mod registry;
pub mod suppressor;
