//! Core of a desktop explorer for a chain node's runtime metadata.
//!
//! The library holds everything the interface decides and computes: the
//! timeout guard around the single outstanding request, the state machine
//! that validates the endpoint URL, hands it to the background fetch task
//! and polls for the reply, and the pure computation of the section tree
//! that is drawn for a retrieved metadata structure. Drawing itself,
//! networking and persistence stay outside, behind plain values.

pub mod bridge;
pub mod explorer;
pub mod metadata;
pub mod render;
pub mod timeout;
