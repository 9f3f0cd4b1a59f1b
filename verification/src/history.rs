//! What a board shows after a run of writes.
//!
//! A write is named here by what it leaves on the board: `Some(v)` stands for `set(v)` and
//! `None` for `clear()`, as the contracts of [`Pinboard::set`](crate::Pinboard::set) and
//! [`Pinboard::clear`](crate::Pinboard::clear) have it. However many writers there are and
//! however their calls interleave, the calls land on the board one after the other; a run of
//! writes is the sequence in which they landed.

use vstd::prelude::*;

verus! {

/// What a board shows once all of `writes` have landed on it, in that order, when it showed
/// `start` before the first of them.
///
/// A write replaces the contents whole and never looks at them, so the board shows what
/// the last write left, and `start` if there was none.
pub open spec fn settled<T>(start: Option<T>, writes: Seq<Option<T>>) -> Option<T> {
    if writes.len() == 0 {
        start
    } else {
        writes.last()
    }
}

/// Whether every write of `writes` is a `set`.
pub open spec fn only_sets<T>(writes: Seq<Option<T>>) -> bool {
    forall|i: int| 0 <= i < writes.len() ==> (#[trigger] writes[i]) is Some
}

/// Whether `v` got onto the board at all: it was there at the start, or one of `writes`
/// published it.
pub open spec fn published<T>(start: Option<T>, writes: Seq<Option<T>>, v: T) -> bool {
    start == Some(v) || exists|i: int| 0 <= i < writes.len() && (#[trigger] writes[i]) == Some(v)
}

/// Runs compose: letting `first` land and then `second` is the same as letting the two land
/// as one run. In particular one more write `w` after any run leaves `w`.
pub proof fn lemma_settled_in_steps<T>(
    start: Option<T>,
    first: Seq<Option<T>>,
    second: Seq<Option<T>>,
    w: Option<T>,
)
    ensures
        settled(settled(start, first), second) == settled(start, first + second),
        settled(start, first.push(w)) == w,
{
    if second.len() > 0 {
        assert((first + second).last() == second.last());
    } else {
        assert(first + second =~= first);
    }
}

/// Read-after-write: once `set(v)` has landed and nothing has landed after it, the board
/// shows `v`, whatever it showed before and whatever was written earlier.
pub proof fn lemma_read_after_write<T>(start: Option<T>, earlier: Seq<Option<T>>, v: T)
    ensures
        settled(start, earlier.push(Some(v))) == Some(v),
{
}

/// A board that starts out empty shows nothing until the first write lands.
pub proof fn lemma_empty_until_written<T>()
    ensures
        settled(None::<T>, Seq::empty()) is None,
{
}

/// Clearing is idempotent: a `clear` leaves the board empty whatever it showed, and a
/// second `clear` right after it changes nothing.
pub proof fn lemma_clear_is_idempotent<T>(start: Option<T>, earlier: Seq<Option<T>>)
    ensures
        settled(start, earlier.push(None)) is None,
        settled(start, earlier.push(None).push(None)) == settled(start, earlier.push(None)),
{
}

/// A reader sees nothing, or a value that was published: at any point of any run, what the
/// board shows is `None`, or it was there at the start, or one of the writes that have
/// landed so far published it.
pub proof fn lemma_reads_see_published_values<T>(
    start: Option<T>,
    writes: Seq<Option<T>>,
    landed: int,
)
    requires
        0 <= landed <= writes.len(),
    ensures
        match settled(start, writes.take(landed)) {
            Some(v) => published(start, writes.take(landed), v) && published(start, writes, v),
            None => true,
        },
{
    let so_far = writes.take(landed);
    if so_far.len() > 0 {
        let last: int = so_far.len() - 1;
        assert(so_far[last] == writes[last]);
    }
}

/// A board that starts out holding a value and only ever takes `set` calls never shows
/// nothing, at any point of the run.
pub proof fn lemma_sets_keep_a_board_occupied<T>(
    start: Option<T>,
    writes: Seq<Option<T>>,
    landed: int,
)
    requires
        start is Some,
        only_sets(writes),
        0 <= landed <= writes.len(),
    ensures
        settled(start, writes.take(landed)) is Some,
{
    let so_far = writes.take(landed);
    if so_far.len() > 0 {
        let last: int = so_far.len() - 1;
        assert(so_far[last] == writes[last]);
    }
}

/// Two racing writers: when `set(a)` and `set(b)` race, the two calls land in one order or
/// the other. Either way the board then shows `a` or `b`: the one that landed last, never
/// nothing and never anything else.
pub proof fn lemma_racing_sets_leave_one_of_them<T>(
    start: Option<T>,
    earlier: Seq<Option<T>>,
    a: T,
    b: T,
)
    ensures
        settled(start, earlier.push(Some(a)).push(Some(b))) == Some(b),
        settled(start, earlier.push(Some(b)).push(Some(a))) == Some(a),
{
}

} // verus!
