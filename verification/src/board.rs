//! The publish cell.

use crate::history::settled;
use crate::substrate::{Block, GuardedRef};
use std::ops::Deref;
use vstd::prelude::*;
use vstd::std_specs::convert::FromSpecImpl;

verus! {

/// A slot that holds the value published last, or nothing.
///
/// The slot holds the block of the current value. Replacing or clearing the slot retires
/// that block: every [`GuardedRef`] taken on it before stays good, and the block is freed
/// when the last of them is dropped, or at once if there is none.
#[derive(Debug)]
pub struct Pinboard<T: 'static>(Option<Block<T>>);

impl<T: 'static> View for Pinboard<T> {
    type V = Option<T>;

    /// What the board holds: `Some` of the current value, or `None` while it is empty.
    closed spec fn view(&self) -> Option<T> {
        match self.0 {
            Some(block) => Some(block@),
            None => None,
        }
    }
}

impl<T: 'static> Pinboard<T> {
    /// Creates a board that holds `t`.
    pub fn new(t: T) -> (board: Self)
        ensures
            board@ == Some(t),
    {
        let mut board = Pinboard::new_empty();
        board.0 = Some(Block::new(t));
        board
    }

    /// Creates a board that holds nothing.
    pub fn new_empty() -> (board: Self)
        ensures
            board@ is None,
    {
        Pinboard(None)
    }

    /// Publishes `t`: the board holds it from now on, whatever it held before.
    ///
    /// Handles taken earlier are not affected; the value that was replaced is freed once
    /// none of them is left. In a run of writes as [`history`](crate::history) has it, this
    /// call is the write `Some(t)`.
    pub fn set(&mut self, t: T)
        ensures
            final(self)@ == Some(t),
            final(self)@ == settled(old(self)@, seq![Some(t)]),
    {
        let mut block = Some(Block::new(t));
        std::mem::swap(&mut self.0, &mut block);
        // `block` now holds what was in the slot before, which is retired by going out of
        // scope.
    }

    /// Empties the board, whatever it held before.
    ///
    /// Handles taken earlier are not affected; the value that was removed is freed once
    /// none of them is left. In a run of writes as [`history`](crate::history) has it, this
    /// call is the write `None`.
    pub fn clear(&mut self)
        ensures
            final(self)@ is None,
            final(self)@ == settled(old(self)@, seq![None]),
    {
        // What was in the slot before is retired by going out of scope.
        let _previous = self.0.take();
    }

    /// Takes a handle on the current value; `None` exactly when the board is empty.
    pub fn get_ref(&self) -> (handle: Option<GuardedRef<T>>)
        ensures
            match self@ {
                Some(t) => handle matches Some(h) && h@ == t,
                None => handle is None,
            },
    {
        match &self.0 {
            Some(block) => Some(block.protect()),
            None => None,
        }
    }
}

impl<T: 'static> Pinboard<T> {
    /// In specifications a board is nothing but what it holds: two boards that hold the
    /// same are equal.
    proof fn lemma_board_is_its_contents(self, other: Self)
        requires
            self@ == other@,
        ensures
            self == other,
    {
        match (self.0, other.0) {
            (Some(mine), Some(theirs)) => mine.lemma_block_is_its_value(theirs),
            _ => {},
        }
    }
}

impl<T: Clone + 'static> Pinboard<T> {
    /// Hands out a clone of the current value; `None` exactly when the board is empty.
    ///
    /// The clone is made through a handle that is given up before `read` returns, so the
    /// result does not keep anything on the board alive.
    pub fn read(&self) -> (copy: Option<T>)
        ensures
            match self@ {
                Some(t) => copy matches Some(c) && cloned(t, c),
                None => copy is None,
            },
    {
        match self.get_ref() {
            Some(handle) => Some(handle.deref().clone()),
            None => None,
        }
    }
}

impl<T: 'static> Default for Pinboard<T> {
    /// An empty board.
    fn default() -> (board: Self)
        ensures
            board@ is None,
    {
        Pinboard::new_empty()
    }
}

impl<T: 'static> FromSpecImpl<Option<T>> for Pinboard<T> {
    open spec fn obeys_from_spec() -> bool {
        true
    }

    /// The board that holds what `src` holds.
    open spec fn from_spec(src: Option<T>) -> Self {
        choose|board: Self| board@ == src
    }
}

impl<T: 'static> From<Option<T>> for Pinboard<T> {
    /// A board that holds what `src` holds.
    fn from(src: Option<T>) -> (board: Self)
        ensures
            board@ == src,
    {
        let board = match src {
            Some(t) => Pinboard::new(t),
            None => Pinboard::new_empty(),
        };
        proof {
            board.lemma_board_is_its_contents(choose|other: Self| other@ == src);
        }
        board
    }
}

} // verus!
