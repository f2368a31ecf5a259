//! A single-assignment cell: empty at first, filled by at most one store.
use vstd::prelude::*;

verus! {

pub struct Slot<T> {
    value: Option<T>,
}

impl<T> View for Slot<T> {
    type V = Option<T>;

    closed spec fn view(&self) -> Option<T> {
        self.value
    }
}

/// What a store into a slot holding `held` leaves there, and what it returns.
pub open spec fn store_outcome<T>(held: Option<T>, v: T) -> (Option<T>, Result<(), T>) {
    match held {
        None => (Some(v), Ok(())),
        Some(w) => (Some(w), Err(v)),
    }
}

impl<T> Slot<T> {
    pub fn new() -> (s: Self)
        ensures
            s@ is None,
    {
        Slot { value: None }
    }

    pub fn is_filled(&self) -> (r: bool)
        ensures
            r == (self@ is Some),
    {
        self.value.is_some()
    }

    pub fn get(&self) -> (r: Option<&T>)
        ensures
            r is Some <==> self@ is Some,
            r is Some ==> *r->0 == self@->0,
    {
        match &self.value {
            Some(v) => Some(v),
            None => None,
        }
    }

    /// Stores `v` if the slot is empty; otherwise hands `v` back and keeps
    /// what the slot holds.
    pub fn store(&mut self, v: T) -> (r: Result<(), T>)
        ensures
            (final(self)@, r) == store_outcome(old(self)@, v),
    {
        if self.value.is_some() {
            Err(v)
        } else {
            self.value = Some(v);
            Ok(())
        }
    }
}

/// Once a slot holds a value, no store changes it: of two stores in a row,
/// at most one succeeds, and the slot keeps what the first successful one put there.
pub proof fn law_single_assignment<T>(held: Option<T>, a: T, b: T)
    ensures
        ({
            let (after_a, ra) = store_outcome(held, a);
            let (after_b, rb) = store_outcome(after_a, b);
            &&& !(ra is Ok && rb is Ok)
            &&& rb is Err
            &&& after_b == after_a
            &&& held is None ==> ra is Ok && after_b == Some(a)
        }),
{
}

} // verus!
