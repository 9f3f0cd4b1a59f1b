//! The publish cell that is never empty.

use crate::board::Pinboard;
use crate::history::settled;
use crate::substrate::GuardedRef;
use std::ops::Deref;
use vstd::prelude::*;

verus! {

/// A [`Pinboard`] that always holds a value.
///
/// It is created with a first value and offers no way to clear it, so readers never have
/// to deal with an empty board.
#[derive(Debug)]
pub struct NonEmptyPinboard<T: 'static>(Pinboard<T>);

impl<T: 'static> View for NonEmptyPinboard<T> {
    type V = T;

    /// The value the board holds.
    closed spec fn view(&self) -> T {
        self.0@->0
    }
}

impl<T: 'static> NonEmptyPinboard<T> {
    /// The board inside is never empty.
    #[verifier::type_invariant]
    spec fn occupied(self) -> bool {
        self.0@ is Some
    }

    /// Creates a board that holds `t`.
    pub fn new(t: T) -> (board: Self)
        ensures
            board@ == t,
    {
        NonEmptyPinboard(Pinboard::new(t))
    }

    /// Publishes `t`: the board holds it from now on, whatever it held before.
    ///
    /// Handles taken earlier are not affected; the value that was replaced is freed once
    /// none of them is left. In a run of writes as [`history`](crate::history) has it, this
    /// call is the write `Some(t)`.
    pub fn set(&mut self, t: T)
        ensures
            final(self)@ == t,
            Some(final(self)@) == settled(Some(old(self)@), seq![Some(t)]),
    {
        // The board inside is replaced whole, so that it is occupied at every moment.
        let mut board = Pinboard::new(t);
        std::mem::swap(&mut self.0, &mut board);
    }

    /// Takes a handle on the current value.
    pub fn get_ref(&self) -> (handle: GuardedRef<T>)
        ensures
            handle@ == self@,
    {
        proof {
            use_type_invariant(self);
        }
        match self.0.get_ref() {
            Some(handle) => handle,
            // The board inside is occupied, so it always has a handle to give.
            None => unreached(),
        }
    }
}

impl<T: Clone + 'static> NonEmptyPinboard<T> {
    /// Hands out a clone of the current value.
    pub fn read(&self) -> (copy: T)
        ensures
            cloned(self@, copy),
    {
        self.get_ref().deref().clone()
    }
}

} // verus!
