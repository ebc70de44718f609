//! A counter that several owners share.

use std::ops::Deref;
use std::sync::atomic::AtomicUsize;
use std::sync::Arc;
use vstd::prelude::*;

verus! {

/// An atomic counter behind a shared pointer. Every handle cloned from
/// another reaches the same counter.
pub struct ConcurrentAtomicUsize {
    c: Arc<AtomicUsize>,
}

/// The value that a counter was created with. What the counter holds later
/// is not a property of the counter as a value, and has no such name.
pub uninterp spec fn initial_value(cell: AtomicUsize) -> usize;

/// `AtomicUsize::new`: a new atomic integer that starts out holding
/// `value`.
#[verifier::external_body]
fn fresh(value: usize) -> (cell: AtomicUsize)
    ensures
        initial_value(cell) == value,
{
    AtomicUsize::new(value)
}

/// `Arc::clone` on a shared counter: the new pointer leads to the same
/// allocation as the one it was cloned from, so both name one counter.
#[verifier::external_body]
fn share(c: &Arc<AtomicUsize>) -> (r: Arc<AtomicUsize>)
    ensures
        r == *c,
{
    Arc::clone(c)
}

impl ConcurrentAtomicUsize {
    /// The counter that this handle reaches. What the counter holds is not
    /// part of a handle's value: it changes under every handle at once.
    pub closed spec fn cell(&self) -> AtomicUsize {
        *self.c
    }

    /// A handle to a fresh counter that starts at `i`.
    pub fn new(i: usize) -> (r: Self)
        ensures
            initial_value(r.cell()) == i,
    {
        ConcurrentAtomicUsize { c: Arc::new(fresh(i)) }
    }

    /// Two handles to one fresh counter that starts at `i`.
    pub fn new2(i: usize) -> (r: (Self, Self))
        ensures
            r.0.cell() == r.1.cell(),
            initial_value(r.0.cell()) == i,
    {
        let r = Self::new(i);
        (r.clone(), r)
    }

    /// Two more handles to the counter of `self`.
    pub fn clone2(&self) -> (r: (Self, Self))
        ensures
            r.0.cell() == self.cell(),
            r.1.cell() == self.cell(),
    {
        (self.clone(), self.clone())
    }
}

impl Clone for ConcurrentAtomicUsize {
    /// One more handle to the counter of `self`.
    fn clone(&self) -> (r: Self)
        ensures
            r.cell() == self.cell(),
    {
        ConcurrentAtomicUsize { c: share(&self.c) }
    }
}

impl Deref for ConcurrentAtomicUsize {
    type Target = AtomicUsize;

    /// The counter itself, for the atomic operations of `AtomicUsize`.
    fn deref(&self) -> (r: &AtomicUsize)
        ensures
            *r == self.cell(),
    {
        &self.c
    }
}

} // verus!
