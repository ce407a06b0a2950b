//! Typed, non-zero identifiers and the generator that hands them out.
use std::marker::PhantomData;
use vstd::prelude::*;

verus! {

/// A non-zero identifier whose type parameter names the kind of object it
/// identifies.
#[derive(Debug, PartialEq, Eq, PartialOrd, Ord, Hash)]
pub struct Id<T> {
    value: u64,
    marker: PhantomData<T>,
}

impl<T> Clone for Id<T> {
    fn clone(&self) -> (r: Self)
        ensures
            r == *self,
    {
        *self
    }
}

impl<T> Copy for Id<T> {

}

impl<T> View for Id<T> {
    type V = u64;

    closed spec fn view(&self) -> u64 {
        self.value
    }
}

impl<T> Id<T> {
    #[verifier::type_invariant]
    closed spec fn non_zero(self) -> bool {
        self.value != 0
    }

    /// The identifier with the given value, or `None` for zero.
    pub fn new(value: u64) -> (r: Option<Self>)
        ensures
            r is Some <==> value != 0,
            r matches Some(id) ==> id@ == value,
    {
        if value == 0 {
            None
        } else {
            Some(Id { value, marker: PhantomData })
        }
    }

    /// The identifier with the value 1, the smallest there is.
    pub fn min_id() -> (r: Self)
        ensures
            r@ == 1,
    {
        Id { value: 1, marker: PhantomData }
    }

    pub fn get(self) -> (r: u64)
        ensures
            r == self@,
            r != 0,
    {
        proof {
            use_type_invariant(&self);
        }
        self.value
    }
}

/// The value that a generator whose next value is `next` hands out.
pub open spec fn issued_value(next: u64) -> u64 {
    if next == 0 {
        1
    } else {
        next
    }
}

/// The next value after handing one out: a wrapping increment.
pub open spec fn advanced_value(next: u64) -> u64 {
    if next == u64::MAX {
        0
    } else {
        (next + 1) as u64
    }
}

/// The next value after observing an identifier with value `seen`.
pub open spec fn observed_value(next: u64, seen: u64) -> u64 {
    let floor = if seen == u64::MAX {
        u64::MAX
    } else {
        (seen + 1) as u64
    };
    if next < floor {
        floor
    } else {
        next
    }
}

/// Hands out identifiers in increasing order, starting at 1.
#[derive(Debug)]
pub struct IdGenerator<T> {
    next_value: u64,
    marker: PhantomData<T>,
}

impl<T> View for IdGenerator<T> {
    type V = u64;

    /// The value that the next call of `next_id` is based on.
    closed spec fn view(&self) -> u64 {
        self.next_value
    }
}

impl<T> IdGenerator<T> {
    pub fn new() -> (r: Self)
        ensures
            r@ == 1,
    {
        IdGenerator { next_value: 1, marker: PhantomData }
    }

    pub fn next_id(&mut self) -> (r: Id<T>)
        ensures
            r@ == issued_value(old(self)@),
            final(self)@ == advanced_value(old(self)@),
    {
        let value = self.next_value;
        self.next_value = self.next_value.wrapping_add(1);
        match Id::new(value) {
            Some(id) => id,
            None => Id::min_id(),
        }
    }

    /// Advances this generator past an identifier loaded from storage, so
    /// that identifiers handed out later do not collide with it.
    pub fn observe(&mut self, id: Id<T>)
        ensures
            final(self)@ == observed_value(old(self)@, id@),
    {
        let next = id.get().saturating_add(1);
        if self.next_value < next {
            self.next_value = next;
        }
    }
}

impl<T> Default for IdGenerator<T> {
    fn default() -> (r: Self)
        ensures
            r@ == 1,
    {
        Self::new()
    }
}

/// Identifiers handed out one after the other increase, as long as the
/// counter has not reached the end of its range.
pub proof fn law_generated_ids_increase(next: u64)
    requires
        0 < next < u64::MAX,
    ensures
        issued_value(advanced_value(next)) > issued_value(next),
{
}

/// After an identifier has been observed, the next identifier handed out is
/// greater than it (unless it is the largest value there is).
pub proof fn law_observe_reserves_following_values(next: u64, seen: u64)
    requires
        seen < u64::MAX,
    ensures
        issued_value(observed_value(next, seen)) > seen,
{
}

/// The counter of a generator after `calls` identifiers were handed out
/// from a counter at `next`.
pub open spec fn advanced_times(next: u64, calls: nat) -> u64
    decreases calls,
{
    if calls == 0 {
        next
    } else {
        advanced_value(advanced_times(next, (calls - 1) as nat))
    }
}

/// A new generator, never observed, hands out 1, 2, 3, ... in turn: its
/// `k`-th identifier has the value `k`, for every `k` below the end of the
/// range.
pub proof fn law_kth_generated_id_is_k(k: nat)
    requires
        1 <= k < u64::MAX,
    ensures
        advanced_times(1, (k - 1) as nat) == k,
        issued_value(advanced_times(1, (k - 1) as nat)) == k,
    decreases k,
{
    if k > 1 {
        law_kth_generated_id_is_k((k - 1) as nat);
    }
}

} // verus!
