//! The decisions of the reference-counting protocol, each a function of the
//! counter value that one atomic access has observed.
use vstd::prelude::*;

verus! {

/// The value that the allocation count holds while a strong handle checks
/// whether it is the only handle. It is never reached by counting.
pub const LOCKED: usize = usize::MAX;

/// The greatest count that a clone may find. A clone that finds more is
/// taken for a runaway leak.
pub const CLONE_LIMIT: usize = usize::MAX / 2;

/// A counter has run so far that it can no longer be trusted. The protocol
/// has no way back from this: the caller terminates the process.
#[derive(Clone, Copy, Debug, PartialEq, Eq)]
pub struct Overflow;

/// Why a downgrade produced no weak handle.
#[derive(Clone, Copy, Debug, PartialEq, Eq)]
pub enum Refused {
    /// A strong handle is checking whether it is the only handle. The check
    /// is short: the caller spins and asks again.
    Locked,
    /// One more weak handle would bring the count to the lock's value.
    Overflow,
}

/// What an upgrade does on finding the strong count at `n`: it raises the
/// count by one, or reports that the payload is gone (`Ok(None)`, at zero),
/// or that the count is full.
pub open spec fn upgrade_rule(n: usize) -> Result<Option<usize>, Overflow> {
    if n == 0 {
        Ok(None)
    } else if n == usize::MAX {
        Err(Overflow)
    } else {
        Ok(Some((n + 1) as usize))
    }
}

/// What a downgrade does on finding the allocation count at `n`: it raises
/// the count by one, or reports that the count is locked, or that one more
/// would bring it to the lock's value.
pub open spec fn downgrade_rule(n: usize) -> Result<usize, Refused> {
    if n == LOCKED {
        Err(Refused::Locked)
    } else if n == LOCKED - 1 {
        Err(Refused::Overflow)
    } else {
        Ok((n + 1) as usize)
    }
}

/// The count that an upgrade stores in place of `n`, if it stores any.
pub open spec fn upgrade_next(n: usize) -> Option<usize> {
    match upgrade_rule(n) {
        Ok(next) => next,
        Err(_) => None,
    }
}

/// The count that a downgrade stores in place of `n`, if it stores any.
pub open spec fn downgrade_next(n: usize) -> Option<usize> {
    match downgrade_rule(n) {
        Ok(next) => Some(next),
        Err(_) => None,
    }
}

/// Whether a clone that found the count at `prev` has gone past the limit.
pub open spec fn past_limit(prev: usize) -> bool {
    prev > CLONE_LIMIT
}

/// Whether a decrement that found the count at `prev` took the last unit.
pub open spec fn took_last(prev: usize) -> bool {
    prev == 1
}

/// Whether a strong count of `strong` means a single strong handle.
pub open spec fn single(strong: usize) -> bool {
    strong == 1
}

/// Decides an upgrade on the strong count `n`.
pub fn decide_upgrade(n: usize) -> (r: Result<Option<usize>, Overflow>)
    ensures
        r == upgrade_rule(n),
{
    if n == 0 {
        Ok(None)
    } else if n == usize::MAX {
        Err(Overflow)
    } else {
        Ok(Some(n + 1))
    }
}

/// Decides a downgrade on the allocation count `n`.
pub fn decide_downgrade(n: usize) -> (r: Result<usize, Refused>)
    ensures
        r == downgrade_rule(n),
{
    if n == LOCKED {
        Err(Refused::Locked)
    } else if n == LOCKED - 1 {
        Err(Refused::Overflow)
    } else {
        Ok(n + 1)
    }
}

/// One turn of the upgrade loop: the strong count to store in place of `n`,
/// or none to stop.
pub fn upgrade_step(n: usize) -> (next: Option<usize>)
    ensures
        next == upgrade_next(n),
{
    match decide_upgrade(n) {
        Ok(next) => next,
        Err(_) => None,
    }
}

/// One turn of the downgrade loop: the allocation count to store in place of
/// `n`, or none to stop.
pub fn downgrade_step(n: usize) -> (next: Option<usize>)
    ensures
        next == downgrade_next(n),
{
    match decide_downgrade(n) {
        Ok(next) => Some(next),
        Err(_) => None,
    }
}

/// Tells whether a clone that found the count at `prev` must be given up.
pub fn clone_overflows(prev: usize) -> (over: bool)
    ensures
        over == past_limit(prev),
{
    prev > CLONE_LIMIT
}

/// Tells whether the handle whose decrement found the count at `prev` was
/// the last one.
pub fn was_last(prev: usize) -> (last: bool)
    ensures
        last == took_last(prev),
{
    prev == 1
}

/// Tells whether a handle that read the strong count as `strong` is the only
/// strong one.
pub fn is_unique(strong: usize) -> (unique: bool)
    ensures
        unique == single(strong),
{
    strong == 1
}

/// Whether `seen` is a way in which the retry loop of an upgrade can end:
/// with `Ok(prev)` where the loop has stored a raised count in place of
/// `prev`, with `Err(prev)` where it has stopped on `prev`, which is zero or
/// a full count, and has stored nothing.
pub open spec fn ends_upgrade(seen: Result<usize, usize>) -> bool {
    match seen {
        Ok(prev) => upgrade_next(prev) is Some,
        Err(prev) => upgrade_next(prev) is None,
    }
}

/// Whether `seen` is a way in which the retry loop of a downgrade can end:
/// with `Ok(prev)` where the loop has stored a raised count in place of
/// `prev`, with `Err(prev)` where it has stopped on `prev`, which is the
/// lock's value or one below it, and has stored nothing.
pub open spec fn ends_downgrade(seen: Result<usize, usize>) -> bool {
    match seen {
        Ok(prev) => downgrade_next(prev) is Some,
        Err(prev) => downgrade_next(prev) is None,
    }
}

/// What an upgrade answers to the way its retry loop ended. `Ok(true)`
/// stands for a new strong handle, `Ok(false)` for none because the payload
/// is gone.
pub open spec fn upgrade_answer(seen: Result<usize, usize>) -> Result<bool, Overflow>
    recommends
        ends_upgrade(seen),
{
    match seen {
        Ok(_) => Ok(true),
        Err(prev) => match upgrade_rule(prev) {
            Ok(None) => Ok(false),
            Err(overflow) => Err(overflow),
            Ok(Some(_)) => arbitrary(),
        },
    }
}

/// What a downgrade answers to the way its retry loop ended. `Ok(())`
/// stands for a new weak handle.
pub open spec fn downgrade_answer(seen: Result<usize, usize>) -> Result<(), Refused>
    recommends
        ends_downgrade(seen),
{
    match seen {
        Ok(_) => Ok(()),
        Err(prev) => match downgrade_rule(prev) {
            Err(refused) => Err(refused),
            Ok(_) => arbitrary(),
        },
    }
}

/// Tells what an upgrade answers when its retry loop has ended with `seen`.
pub fn upgrade_outcome(seen: Result<usize, usize>) -> (r: Result<bool, Overflow>)
    requires
        ends_upgrade(seen),
    ensures
        r == upgrade_answer(seen),
{
    match seen {
        Ok(_) => Ok(true),
        Err(prev) => match decide_upgrade(prev) {
            Err(overflow) => Err(overflow),
            Ok(_) => Ok(false),
        },
    }
}

/// Tells what a downgrade answers when its retry loop has ended with `seen`.
pub fn downgrade_outcome(seen: Result<usize, usize>) -> (r: Result<(), Refused>)
    requires
        ends_downgrade(seen),
    ensures
        r == downgrade_answer(seen),
{
    match seen {
        Ok(_) => Ok(()),
        Err(prev) => if prev == LOCKED {
            Err(Refused::Locked)
        } else {
            Err(Refused::Overflow)
        },
    }
}

/// Tells whether the compare-and-swap that was to lock the allocation count
/// has locked it. It reports the count that it found: in `Ok` where that was
/// one, which it has replaced by the lock's value, and in `Err` where it was
/// another, which it has left alone.
pub fn lock_taken(swap: Result<usize, usize>) -> (taken: bool)
    ensures
        taken == swap is Ok,
{
    match swap {
        Ok(_) => true,
        Err(_) => false,
    }
}

} // verus!
