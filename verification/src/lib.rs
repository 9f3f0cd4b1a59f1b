//! A pinboard is a single-slot publish cell: one place that holds either nothing or the value
//! that was published to it last. Writers overwrite the slot as a whole; readers take a
//! handle on whatever it holds at that moment and keep that value alive for as long as they
//! hold the handle, however often the slot is overwritten in the meantime.
//!
//! * [`Pinboard`] is the cell itself.
//! * [`GuardedRef`] is the handle a reader gets.
//! * [`NonEmptyPinboard`] is a cell that never holds nothing.
//! * [`history`] states what a board shows after any run of writes.

use vstd::prelude::*;

pub mod board;
pub mod history;
pub mod non_empty;
pub mod substrate;

pub use board::Pinboard;
pub use non_empty::NonEmptyPinboard;
pub use substrate::GuardedRef;

verus! {

/// The guide to this crate, kept on a unit type so that it travels with the generated
/// documentation.
///
/// A board starts out empty (`Pinboard::new_empty`) or holding a first value
/// (`Pinboard::new`). `set` replaces whatever it holds, `clear` empties it; neither looks at
/// the previous contents. `get_ref` hands out a `GuardedRef` to the current value and `read`
/// hands out a clone of it; both answer `None` on an empty board. A `GuardedRef` taken
/// before a `set` or a `clear` still dereferences to the value that was current when it was
/// taken: a replaced value is given up by the board at once and freed when the last handle
/// on it is gone.
///
/// Writes take `&mut self`, so a board is owned by one writer at a time. To share one among
/// threads, put it behind a lock of your choice; handles are plain owned values and can be
/// sent wherever the value itself can.
#[allow(non_camel_case_types)]
pub struct README;

} // verus!
