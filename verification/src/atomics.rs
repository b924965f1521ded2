//! The atomic operations of the standard library that need a contract.
//!
//! Loads, stores and fetch-and-add are called as they are: nothing can be
//! promised of a value that another thread may change at any time. The items
//! here are those of which the documentation promises something that holds
//! whatever other threads do, and the making of a cell, which no other
//! thread has a part in.
use std::sync::atomic::AtomicU8;
use std::sync::atomic::AtomicUsize;
use std::sync::atomic::Ordering;
use vstd::prelude::*;

verus! {

/// `std::sync::atomic::fence`. It panics when given `Relaxed`, which the
/// precondition leaves out; nothing is claimed of its effect.
pub assume_specification[ std::sync::atomic::fence ](order: Ordering)
    requires
        order != Ordering::Relaxed,
;

/// `AtomicUsize::fetch_update`: the compare-and-swap retry loop of the
/// standard library.
///
/// The loop reads the counter and hands the value to `f`. When `f` returns
/// `Some(next)` it tries to replace exactly that value by `next` and starts
/// over if the counter has changed in between; when `f` returns `None` it
/// stops. The contract claims what the documentation promises: `Ok(prev)`
/// means that `f` returned `Some(_)` on `prev` and that value was stored in
/// place of `prev`; `Err(prev)` means that `f` returned `None` on `prev` and
/// nothing was stored. The load uses `fetch_order`, which must not be a
/// releasing one.
#[verifier::external_body]
pub(crate) fn fetch_update<F: Fn(usize) -> Option<usize>>(
    counter: &AtomicUsize,
    set_order: Ordering,
    fetch_order: Ordering,
    f: F,
) -> (r: Result<usize, usize>)
    requires
        forall|n: usize| f.requires((n,)),
        fetch_order != Ordering::Release,
        fetch_order != Ordering::AcqRel,
    ensures
        match r {
            Ok(prev) => exists|next: usize| f.ensures((prev,), Some(next)),
            Err(prev) => f.ensures((prev,), None),
        },
{
    counter.fetch_update(set_order, fetch_order, f)
}

/// `AtomicU8::compare_exchange`.
///
/// It stores `new` if the cell holds `current`, and reports the value that
/// it found: in `Ok` where it has stored, in `Err` where it has not. The
/// contract claims what the documentation promises: a value reported in `Ok`
/// is `current`, and, since this form never fails without cause, a value
/// reported in `Err` is another. It panics when the ordering for the failure
/// is a releasing one, which the precondition leaves out.
#[verifier::external_body]
pub(crate) fn compare_exchange_u8(
    cell: &AtomicU8,
    current: u8,
    new: u8,
    success: Ordering,
    failure: Ordering,
) -> (r: Result<u8, u8>)
    requires
        failure != Ordering::Release,
        failure != Ordering::AcqRel,
    ensures
        r matches Ok(found) ==> found == current,
        r matches Err(found) ==> found != current,
{
    cell.compare_exchange(current, new, success, failure)
}

/// `AtomicUsize::compare_exchange`, with the same contract as
/// [`compare_exchange_u8`]: a value reported in `Ok` is `current`, a value
/// reported in `Err` is another.
#[verifier::external_body]
pub(crate) fn compare_exchange_usize(
    cell: &AtomicUsize,
    current: usize,
    new: usize,
    success: Ordering,
    failure: Ordering,
) -> (r: Result<usize, usize>)
    requires
        failure != Ordering::Release,
        failure != Ordering::AcqRel,
    ensures
        r matches Ok(found) ==> found == current,
        r matches Err(found) ==> found != current,
{
    cell.compare_exchange(current, new, success, failure)
}

/// The value that a cell was made with. It is a fact about the making of the
/// cell and stays true of it for good; it says nothing of what the cell
/// holds at any later time, which other threads may change.
pub uninterp spec fn made_with_u8(cell: AtomicU8) -> u8;

/// The value that a counter was made with: see [`made_with_u8`].
pub uninterp spec fn made_with_usize(cell: AtomicUsize) -> usize;

/// `AtomicU8::new`: a new cell that holds `value`. The contract claims that
/// the cell was made with `value`, and no more.
#[verifier::external_body]
pub(crate) fn new_u8(value: u8) -> (cell: AtomicU8)
    ensures
        made_with_u8(cell) == value,
{
    AtomicU8::new(value)
}

/// `AtomicUsize::new`: a new counter that holds `value`. The contract claims
/// that the counter was made with `value`, and no more.
#[verifier::external_body]
pub(crate) fn new_usize(value: usize) -> (cell: AtomicUsize)
    ensures
        made_with_usize(cell) == value,
{
    AtomicUsize::new(value)
}

} // verus!
