//! Blocks and the handles that keep them alive.
//!
//! Every published value lives in a block of its own. A block is shared by reference
//! counting: the board that published it holds one share, and every handle a reader takes
//! holds another. Giving up a share never frees a block that somebody else still holds, so a
//! reader can go on reading a value long after the board has replaced it, and the block is
//! freed exactly once, when its last share is given up.
//!
//! The boards go through this module for everything they do with a block, and know nothing
//! about how the sharing is done.

use std::ops::Deref;
use std::sync::Arc;
use vstd::prelude::*;

verus! {

/// Makes one more owner of the allocation behind `block`.
///
/// This is `Arc::clone`, which vstd leaves unspecified. Taken on trust from its
/// documentation: the pointer it returns refers to the same allocation as `block`, so both
/// dereference to the same value.
#[verifier::external_body]
fn share<T>(block: &Arc<T>) -> (other: Arc<T>)
    ensures
        *other == **block,
{
    Arc::clone(block)
}

/// The owner's share of the block that holds one published value.
///
/// Dropping it retires the block: the block is freed right away if no handle is left on it,
/// and otherwise when the last of them is dropped.
#[derive(Debug)]
pub(crate) struct Block<T>(Arc<T>);

impl<T> View for Block<T> {
    type V = T;

    /// The value in the block.
    closed spec fn view(&self) -> T {
        *self.0
    }
}

impl<T> Block<T> {
    /// Puts `t` into a block of its own.
    pub(crate) fn new(t: T) -> (block: Self)
        ensures
            block@ == t,
    {
        Block(Arc::new(t))
    }

    /// Takes a handle on the value in the block.
    ///
    /// The handle holds a share of its own: the value it refers to stays what it is now,
    /// whatever becomes of this share.
    pub(crate) fn protect(&self) -> (handle: GuardedRef<T>)
        ensures
            handle@ == self@,
    {
        GuardedRef(share(&self.0))
    }

    /// In specifications a block is nothing but the value in it: two blocks that hold the
    /// same value are equal.
    pub(crate) proof fn lemma_block_is_its_value(self, other: Self)
        requires
            self@ == other@,
        ensures
            self == other,
    {
    }
}

/// A handle on one published value.
///
/// The handle holds a share of the block the value lives in: the value stays alive and
/// unchanged for as long as the handle does, whatever happens to the board it came from.
/// Dropping the handle gives up that share.
#[derive(Debug)]
pub struct GuardedRef<T>(Arc<T>);

impl<T> View for GuardedRef<T> {
    type V = T;

    /// The value the handle refers to.
    closed spec fn view(&self) -> T {
        *self.0
    }
}

impl<T> Deref for GuardedRef<T> {
    type Target = T;

    /// Borrows the value for as long as the handle is borrowed.
    fn deref(&self) -> (value: &T)
        ensures
            *value == self@,
    {
        &*self.0
    }
}

} // verus!
