//! Domain inputs accepted by the coordinator from the ingress adapters.

use vstd::prelude::*;

use crate::model::key::Key;
use crate::model::status::Status;
use crate::model::user_action::UserAction;

verus! {

/// Domain inputs accepted by the coordinator.
///
/// The reply channels that travel with snapshot requests and user updates are held by the
/// runtime that feeds the coordinator; the coordinator's decision tells it what to send back.
pub enum DomainInput {
    SnapshotRequest,
    AutomatedUpdate(Status),
    UserUpdate { key: Key, action: UserAction, user: String },
}

} // verus!
