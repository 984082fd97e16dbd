//! Publish requests, attempts and outcomes exchanged with the publish engine.

use vstd::prelude::*;

use crate::model::errors::SymmetricalResult;
use crate::model::key::Key;
use crate::model::status::Status;

verus! {

/// What to publish: the alarm's key and its new status.
pub struct PublishDetails {
    pub key: Key,
    pub status: Status,
}

impl Clone for PublishDetails {
    fn clone(&self) -> (res: Self)
        ensures
            res == *self,
    {
        PublishDetails { key: self.key.clone(), status: self.status.clone() }
    }
}

/// A publish request, tagged by who asked for it.
pub enum Publish {
    /// Requested on behalf of a user, whose confirmation waits on the outcome.
    User(PublishDetails),
    /// Requested by automated ingress.
    Automated(PublishDetails),
}

impl Clone for Publish {
    fn clone(&self) -> (res: Self)
        ensures
            res == *self,
    {
        match self {
            Publish::User(d) => Publish::User(d.clone()),
            Publish::Automated(d) => Publish::Automated(d.clone()),
        }
    }
}

impl Publish {
    /// The details carried, whoever asked.
    pub open spec fn details(self) -> PublishDetails {
        match self {
            Publish::User(d) => d,
            Publish::Automated(d) => d,
        }
    }

    /// Whether a user asked for this publish.
    pub fn is_user_initiated(&self) -> (r: bool)
        ensures
            r == (*self is User),
    {
        match self {
            Publish::User(_) => true,
            Publish::Automated(_) => false,
        }
    }

    /// Returns the details carried.
    pub fn into_details(self) -> (d: PublishDetails)
        ensures
            d == self.details(),
    {
        match self {
            Publish::User(d) => d,
            Publish::Automated(d) => d,
        }
    }

    /// Borrows the details carried.
    pub fn details_ref(&self) -> (d: &PublishDetails)
        ensures
            *d == self.details(),
    {
        match self {
            Publish::User(d) => d,
            Publish::Automated(d) => d,
        }
    }
}

/// A publish request together with the number of delivery attempts made for it so far.
pub struct PublishAttempt {
    pub request: Publish,
    pub attempt_count: u8,
}

impl Clone for PublishAttempt {
    fn clone(&self) -> (res: Self)
        ensures
            res == *self,
    {
        PublishAttempt { request: self.request.clone(), attempt_count: self.attempt_count }
    }
}

impl PublishAttempt {
    /// The first attempt for a request.
    pub fn new(request: Publish) -> (a: Self)
        ensures
            a.request == request,
            a.attempt_count == 1,
    {
        PublishAttempt { request, attempt_count: 1 }
    }

    /// Counts one more attempt.
    pub fn increment_attempt(&mut self)
        requires
            old(self).attempt_count < u8::MAX,
        ensures
            final(self).request == old(self).request,
            final(self).attempt_count == old(self).attempt_count + 1,
    {
        self.attempt_count = self.attempt_count + 1;
    }

    /// Borrows the details of the request.
    pub fn details_ref(&self) -> (d: &PublishDetails)
        ensures
            *d == self.request.details(),
    {
        self.request.details_ref()
    }
}

/// The outcome of one publish, identified by the alarm's key.
pub type PublishResult = SymmetricalResult<Key>;

/// Publish outcomes reported back to the workflow handler.
pub enum PublishOutcome {
    /// One outcome, reported on its own (user-initiated publishes).
    Single(PublishResult),
    /// Several outcomes reported together (automated publishes).
    Batch(Vec<PublishResult>),
}

} // verus!
