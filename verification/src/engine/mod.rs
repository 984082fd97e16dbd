//! The decision-making core: transition policy, coordination and workflow sequencing.

pub mod policy;
pub mod messages;
pub mod workflow;
pub mod ingress;
pub mod coordinator;
pub mod coordinator_laws;
