//! Decisions of the effect workers: publish retries and batching, and snooze timer bookkeeping.

pub mod publish;
pub mod snooze;
