//! Decisions of the ingress adapters: command parsing and replies for the gRPC service,
//! stream-entry parsing for Redis, and startup hydration of EPICS state.

pub mod grpc;
pub mod hydration;
pub mod redis;
pub mod redis_xread;
