//! The strong and weak handles of a shared-ownership pointer, and the two
//! atomic counters of the control block that they share.
use crate::atomics::{compare_exchange_usize, fetch_update, made_with_usize, new_usize};
use crate::counts::{
    clone_overflows, downgrade_answer, downgrade_outcome, downgrade_step, ends_downgrade,
    ends_upgrade, is_unique, lock_taken, past_limit, single, took_last, upgrade_answer,
    upgrade_outcome, upgrade_step, was_last, Overflow, Refused, LOCKED,
};
use std::sync::atomic::fence;
use std::sync::atomic::AtomicUsize;
use std::sync::atomic::Ordering;
use vstd::prelude::*;

verus! {

/// The counters of one control block.
///
/// `data_ref_count` is the number of strong handles. `alloc_ref_count` is the
/// number of weak handles, plus one for the strong handles as a group as long
/// as there is any; it holds [`LOCKED`] while a strong handle checks whether
/// it is alone.
pub struct ArcData {
    data_ref_count: AtomicUsize,
    alloc_ref_count: AtomicUsize,
}

/// A handle that keeps the payload alive.
pub struct Arc<'a> {
    data: &'a ArcData,
}

/// A handle that keeps the control block allocated, not the payload.
pub struct Weak<'a> {
    data: &'a ArcData,
}

impl ArcData {
    /// The values that the two counters were made with: the strong count
    /// first, the allocation count second.
    pub closed spec fn made_with(&self) -> (usize, usize) {
        (made_with_usize(self.data_ref_count), made_with_usize(self.alloc_ref_count))
    }

    /// Counters of a control block that no handle refers to yet: both are
    /// made with zero.
    pub fn new() -> (block: ArcData)
        ensures
            block.made_with() == (0usize, 0usize),
    {
        ArcData { data_ref_count: new_usize(0), alloc_ref_count: new_usize(0) }
    }
}

impl<'a> Arc<'a> {
    /// The control block that this handle refers to.
    pub closed spec fn block(&self) -> &ArcData {
        self.data
    }

    /// Takes the control block into use: both counters are made anew with
    /// one, and the handle returned is the only one.
    pub fn new(data: &'a mut ArcData) -> (arc: Arc<'a>)
        ensures
            final(data).made_with() == (1usize, 1usize),
            arc.block() == *final(data),
    {
        *data = ArcData { data_ref_count: new_usize(1), alloc_ref_count: new_usize(1) };
        Arc { data }
    }

    /// Makes a weak handle on the same control block, by the retry loop that
    /// raises the allocation count. Beside the answer stands the way the loop
    /// ended: with `Ok(prev)` where it has stored `prev + 1` in place of
    /// `prev`, with `Err(prev)` where it has stopped on `prev`. The handle is
    /// handed out exactly when the loop has stored. It does not wait: while
    /// the allocation count is locked it answers `Locked`, and the caller
    /// asks again.
    pub fn downgrade(arc: &Self) -> (r: (Result<Weak<'a>, Refused>, Result<usize, usize>))
        ensures
            ends_downgrade(r.1),
            match downgrade_answer(r.1) {
                Ok(_) => r.0 matches Ok(weak) && weak.block() == arc.block(),
                Err(refused) => r.0 matches Err(e) && e == refused,
            },
    {
        let seen = fetch_update(
            &arc.data.alloc_ref_count,
            Ordering::Acquire,
            Ordering::Relaxed,
            downgrade_step,
        );
        match downgrade_outcome(seen) {
            Ok(()) => (Ok(Weak { data: arc.data }), seen),
            Err(refused) => (Err(refused), seen),
        }
    }

    /// Whether this handle is the only one of either kind, so that its holder
    /// may change the payload. The allocation count is locked by a
    /// compare-and-swap from one to `LOCKED`; if that went through, the
    /// strong count is read and the allocation count set back to one,
    /// whatever was found. Beside the answer stand what the swap reported
    /// and the strong count that was read, if any was: access is granted
    /// exactly when the swap found one and the strong count read was one.
    pub fn get_mut(arc: &mut Self) -> (r: (bool, Result<usize, usize>, Option<usize>))
        ensures
            r.0 == (r.1 == Ok::<usize, usize>(1) && (r.2 matches Some(strong) && single(strong))),
            r.1 matches Ok(found) ==> found == 1,
            r.1 matches Err(found) ==> found != 1,
            r.2 is Some <==> r.1 is Ok,
            final(arc).block() == old(arc).block(),
    {
        let swap = compare_exchange_usize(
            &arc.data.alloc_ref_count,
            1,
            LOCKED,
            Ordering::Acquire,
            Ordering::Relaxed,
        );
        if !lock_taken(swap) {
            return (false, swap, None);
        }
        let strong = arc.data.data_ref_count.load(Ordering::Relaxed);
        arc.data.alloc_ref_count.store(1, Ordering::Release);
        if !is_unique(strong) {
            return (false, swap, Some(strong));
        }
        fence(Ordering::Acquire);
        (true, swap, Some(strong))
    }

    /// Makes another strong handle on the same control block. Beside the
    /// answer stands the strong count that the increment found. The count is
    /// raised in any case; the new handle is withheld exactly when the count
    /// found was past the limit.
    pub fn try_clone(&self) -> (r: (Result<Arc<'a>, Overflow>, usize))
        ensures
            r.0 is Err <==> past_limit(r.1),
            r.0 matches Ok(arc) ==> arc.block() == self.block(),
    {
        let prev = self.data.data_ref_count.fetch_add(1, Ordering::Relaxed);
        if clone_overflows(prev) {
            return (Err(Overflow), prev);
        }
        (Ok(Arc { data: self.data }), prev)
    }

    /// Gives the handle up. Beside the answer stands the strong count that
    /// the decrement found. Exactly when that was one, the handle was the
    /// last strong one, and a weak handle is returned that stands for the
    /// unit of the allocation count that the strong handles held together:
    /// the caller destroys the payload and then releases that handle.
    pub fn release(self) -> (r: (Option<Weak<'a>>, usize))
        ensures
            r.0 is Some <==> took_last(r.1),
            r.0 matches Some(weak) ==> weak.block() == self.block(),
    {
        let prev = self.data.data_ref_count.fetch_sub(1, Ordering::Release);
        if was_last(prev) {
            fence(Ordering::Acquire);
            (Some(Weak { data: self.data }), prev)
        } else {
            (None, prev)
        }
    }
}

impl<'a> Weak<'a> {
    /// The control block that this handle refers to.
    pub closed spec fn block(&self) -> &ArcData {
        self.data
    }

    /// Makes a strong handle if the payload is still alive, by the retry loop
    /// that raises the strong count unless it is zero. Beside the answer
    /// stands the way the loop ended: with `Ok(prev)` where it has stored
    /// `prev + 1` in place of `prev`, with `Err(prev)` where it has stopped
    /// on `prev`. The handle is handed out exactly when the loop has stored,
    /// and none exactly when it has stopped on zero.
    pub fn upgrade(&self) -> (r: (Result<Option<Arc<'a>>, Overflow>, Result<usize, usize>))
        ensures
            ends_upgrade(r.1),
            match upgrade_answer(r.1) {
                Ok(true) => r.0 matches Ok(Some(arc)) && arc.block() == self.block(),
                Ok(false) => r.0 matches Ok(None),
                Err(overflow) => r.0 matches Err(e) && e == overflow,
            },
    {
        let seen = fetch_update(
            &self.data.data_ref_count,
            Ordering::Relaxed,
            Ordering::Relaxed,
            upgrade_step,
        );
        match upgrade_outcome(seen) {
            Ok(true) => (Ok(Some(Arc { data: self.data })), seen),
            Ok(false) => (Ok(None), seen),
            Err(overflow) => (Err(overflow), seen),
        }
    }

    /// Makes another weak handle on the same control block. Beside the
    /// answer stands the allocation count that the increment found. The
    /// count is raised in any case; the new handle is withheld exactly when
    /// the count found was past the limit.
    pub fn try_clone(&self) -> (r: (Result<Weak<'a>, Overflow>, usize))
        ensures
            r.0 is Err <==> past_limit(r.1),
            r.0 matches Ok(weak) ==> weak.block() == self.block(),
    {
        let prev = self.data.alloc_ref_count.fetch_add(1, Ordering::Relaxed);
        if clone_overflows(prev) {
            return (Err(Overflow), prev);
        }
        (Ok(Weak { data: self.data }), prev)
    }

    /// Gives the handle up. Beside the answer stands the allocation count
    /// that the decrement found. The answer is whether that was one: the
    /// handle was then the last of either kind, and the caller frees the
    /// control block.
    pub fn release(self) -> (r: (bool, usize))
        ensures
            r.0 == took_last(r.1),
    {
        let prev = self.data.alloc_ref_count.fetch_sub(1, Ordering::Release);
        if was_last(prev) {
            fence(Ordering::Acquire);
            (true, prev)
        } else {
            (false, prev)
        }
    }
}

} // verus!
