//! Alarm-state orchestration: alarm identity, transition policy, coordination of
//! speculative and confirmed alarm state, effect sequencing, and in-process metrics.

pub mod text;
pub mod collections;
pub mod clock;
pub mod model;
pub mod engine;
pub mod metrics;
pub mod effects;
pub mod adapters;
pub mod dpm;
pub mod devdb;
pub mod ioc;
pub mod epics;
