//! How requests are told apart: each gets a random token of its own.

use crate::utils::{generate_random_token, is_alphanumeric};
use vstd::prelude::*;

verus! {

/// The length of a request identifier.
pub const REQUEST_ID_LENGTH: usize = 10;

/// The identifier of one request.
#[derive(Debug, PartialEq, Eq)]
pub struct RequestIdType(pub String);

impl Clone for RequestIdType {
    fn clone(&self) -> (copy: Self)
        ensures
            copy == *self,
    {
        RequestIdType(self.0.clone())
    }
}

impl RequestIdType {
    /// An identifier has [`REQUEST_ID_LENGTH`] characters, all of them
    /// letters or digits.
    pub open spec fn well_formed(&self) -> bool {
        &&& self.0@.len() == REQUEST_ID_LENGTH
        &&& forall|i: int| 0 <= i < self.0@.len() ==> is_alphanumeric(#[trigger] self.0@[i])
    }
}

/// Makes services that give every request an identifier.
#[derive(Debug, Clone, Copy, Default)]
pub struct RequestId;

impl RequestId {
    /// The identifying wrapper around one service.
    pub fn new_transform<S>(&self, service: S) -> (middleware: RequestIdMiddleware<S>)
        ensures
            middleware.inner() == service,
    {
        RequestIdMiddleware { service }
    }
}

/// A service that gives every request an identifier.
pub struct RequestIdMiddleware<S> {
    service: S,
}

impl<S> RequestIdMiddleware<S> {
    /// The service inside.
    pub closed spec fn inner(&self) -> S {
        self.service
    }

    /// The service inside.
    pub fn service(&self) -> (service: &S)
        ensures
            *service == self.inner(),
    {
        &self.service
    }

    /// The identifier for the request that has just come in: a fresh random
    /// token.
    pub fn issue(&self) -> (id: RequestIdType)
        ensures
            id.well_formed(),
    {
        RequestIdType(generate_random_token(REQUEST_ID_LENGTH))
    }
}

} // verus!
