//! A two-party escrow swap: an escrow instance that settles or refunds one
//! swap, and a controller that creates and configures such instances.
//!
//! Every entry point is a function from the stored state and an incoming
//! message to the new state and the list of actions for the host to run.

pub mod controller;
pub mod escrow;
pub mod fee;
pub mod funds;
pub mod response;
pub mod text;
pub mod types;
