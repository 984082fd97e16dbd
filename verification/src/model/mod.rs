//! Domain model types shared by the engine, the effect workers and the adapters.

pub mod status;
pub mod key;
pub mod user_action;
pub mod errors;
pub mod snooze;
pub mod publish;
