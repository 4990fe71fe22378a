//! Fan-out of one event to two sinks, and the rule by which their two
//! answers become one.

use crate::types::Event;
use std::sync::Arc;
use vstd::prelude::*;

verus! {

/// The answer of a tee whose branches answered `left` and `right`: success
/// if both succeeded; the failure of the one that failed; the failure of
/// the left one if both failed.
pub open spec fn joined<E>(left: Result<(), E>, right: Result<(), E>) -> Result<(), E> {
    match (left, right) {
        (Ok(_), Ok(_)) => Ok(()),
        (Err(error), _) => Err(error),
        (Ok(_), Err(error)) => Err(error),
    }
}

/// Two branches that succeed make a tee that succeeds.
pub proof fn lemma_both_succeed<E>(left: Result<(), E>, right: Result<(), E>)
    requires
        left is Ok,
        right is Ok,
    ensures
        joined(left, right) is Ok,
{
}

/// A tee succeeds only if both of its branches do.
pub proof fn lemma_success_needs_both<E>(left: Result<(), E>, right: Result<(), E>)
    ensures
        joined(left, right) is Ok <==> left is Ok && right is Ok,
{
}

/// Two branches that fail make a tee that fails with the error of the left
/// branch, never with that of the right one.
pub proof fn lemma_left_priority<E>(left_error: E, right_error: E)
    ensures
        joined(Err(left_error), Err(right_error)) == Err::<(), E>(left_error),
{
}

/// Where exactly one branch fails, the tee fails with the error of that
/// branch, whichever branch it is.
pub proof fn lemma_single_failure<E>(error: E)
    ensures
        joined(Err(error), Ok(())) == Err::<(), E>(error),
        joined(Ok(()), Err(error)) == Err::<(), E>(error),
{
}

/// Tees nest: a tee of a sink and a tee answers as a tee of a tee and a
/// sink does, with the error of the leftmost branch that failed.
pub proof fn lemma_nesting<E>(first: Result<(), E>, second: Result<(), E>, third: Result<(), E>)
    ensures
        joined(first, joined(second, third)) == joined(joined(first, second), third),
        first is Err ==> joined(first, joined(second, third)) == first,
        first is Ok && second is Err ==> joined(first, joined(second, third)) == second,
        first is Ok && second is Ok && third is Err ==> joined(first, joined(second, third))
            == third,
{
}

/// A sink made of two sinks. Each event goes to both, and the tee answers
/// once both have answered.
pub struct SinkTee<L, R> {
    left: Arc<L>,
    right: Arc<R>,
}

impl<L, R> SinkTee<L, R> {
    /// The left branch.
    pub closed spec fn left_branch(&self) -> Arc<L> {
        self.left
    }

    /// The right branch.
    pub closed spec fn right_branch(&self) -> Arc<R> {
        self.right
    }

    /// A tee of the two sinks.
    pub fn new(left: Arc<L>, right: Arc<R>) -> (tee: Self)
        ensures
            tee.left_branch() == left,
            tee.right_branch() == right,
    {
        Self { left, right }
    }

    /// The sink that gets the first copy of each event.
    pub fn left(&self) -> (sink: &Arc<L>)
        ensures
            *sink == self.left_branch(),
    {
        &self.left
    }

    /// The sink that gets the second copy of each event.
    pub fn right(&self) -> (sink: &Arc<R>)
        ensures
            *sink == self.right_branch(),
    {
        &self.right
    }

    /// The two events that the branches get: each equal to the one that
    /// came in, and independent of the other.
    pub fn fan_out(event: Event) -> (copies: (Event, Event))
        ensures
            copies.0 == event,
            copies.1 == event,
    {
        let left = event.clone();
        (left, event)
    }

    /// The answer of the tee, once both branches have answered.
    pub fn join<E>(left: Result<(), E>, right: Result<(), E>) -> (answer: Result<(), E>)
        ensures
            answer == joined(left, right),
    {
        match (left, right) {
            (Ok(_), Ok(_)) => Ok(()),
            (Err(error), _) => Err(error),
            (_, Err(error)) => Err(error),
        }
    }
}

} // verus!
