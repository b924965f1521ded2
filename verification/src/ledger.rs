//! The control block as a mathematical object: the two counters, the handles
//! that exist, and what each atomic access makes of them. The laws below are
//! proved of every sequence of accesses, in whatever order threads make them.
use crate::counts::{
    downgrade_answer, downgrade_next, downgrade_rule, past_limit, single, took_last,
    upgrade_answer, upgrade_next, upgrade_rule, Refused, CLONE_LIMIT, LOCKED,
};
use vstd::prelude::*;

verus! {

/// How far a uniqueness check has come. There is one at a time: it begins by
/// locking the allocation count.
pub enum Check {
    /// No check is under way.
    Idle,
    /// A strong handle has locked the allocation count.
    Locked,
    /// That handle has read the strong count, and found a single strong
    /// handle or not.
    Probed(bool),
}

/// A control block at one moment.
pub struct Ledger {
    /// The strong count, as the atomic cell holds it.
    pub strong: usize,
    /// The allocation count, as the atomic cell holds it.
    pub alloc: usize,
    /// How many strong handles exist.
    pub arcs: nat,
    /// How many weak handles exist. The one that the last strong handle
    /// leaves behind for its holder is among them.
    pub weaks: nat,
    /// The uniqueness check under way, if any.
    pub check: Check,
    /// How often the payload was destroyed.
    pub payload_drops: nat,
    /// How often the control block was freed.
    pub block_frees: nat,
}

/// One atomic access to the counters.
pub enum Op {
    /// `Arc::try_clone`: the strong count is raised.
    CloneArc,
    /// `Arc::release`: the strong count is lowered.
    DropArc,
    /// `Arc::downgrade`: the allocation count is raised unless it is locked.
    Downgrade,
    /// `Arc::get_mut`, first access: the allocation count is locked if it is
    /// one.
    Lock,
    /// `Arc::get_mut`, second access: the strong count is read.
    Probe,
    /// `Arc::get_mut`, third access: the allocation count is set back to
    /// one.
    Unlock,
    /// `Weak::upgrade`: the strong count is raised unless it is zero.
    Upgrade,
    /// `Weak::try_clone`: the allocation count is raised.
    CloneWeak,
    /// `Weak::release`: the allocation count is lowered.
    DropWeak,
}

/// What a fetch-and-add of one leaves in a counter.
pub open spec fn raised(n: usize) -> usize {
    if n == usize::MAX {
        0
    } else {
        (n + 1) as usize
    }
}

/// What a fetch-and-subtract of one leaves in a counter.
pub open spec fn lowered(n: usize) -> usize {
    if n == 0 {
        usize::MAX
    } else {
        (n - 1) as usize
    }
}

impl Ledger {
    /// The control block as `Arc::new` leaves it: both counts at one, and
    /// one strong handle.
    pub open spec fn fresh() -> Ledger {
        Ledger {
            strong: 1,
            alloc: 1,
            arcs: 1,
            weaks: 0,
            check: Check::Idle,
            payload_drops: 0,
            block_frees: 0,
        }
    }

    /// How many strong handles are free to make an access: all but the one
    /// that is inside a uniqueness check.
    pub open spec fn free_arcs(self) -> int {
        if self.check is Idle {
            self.arcs as int
        } else {
            self.arcs - 1
        }
    }

    /// The control block after one access. None where no handle exists that
    /// could make the access, and where the access finds a counter
    /// overflowing, which ends the process.
    pub open spec fn step(self, op: Op) -> Option<Ledger> {
        match op {
            Op::CloneArc => if self.free_arcs() < 1 || past_limit(self.strong) {
                None
            } else {
                Some(Ledger { strong: raised(self.strong), arcs: self.arcs + 1, ..self })
            },
            Op::DropArc => if self.free_arcs() < 1 {
                None
            } else if took_last(self.strong) {
                Some(
                    Ledger {
                        strong: lowered(self.strong),
                        arcs: (self.arcs - 1) as nat,
                        weaks: self.weaks + 1,
                        payload_drops: self.payload_drops + 1,
                        ..self
                    },
                )
            } else {
                Some(Ledger { strong: lowered(self.strong), arcs: (self.arcs - 1) as nat, ..self })
            },
            Op::Downgrade => if self.free_arcs() < 1 {
                None
            } else {
                match downgrade_rule(self.alloc) {
                    Ok(next) => Some(Ledger { alloc: next, weaks: self.weaks + 1, ..self }),
                    Err(Refused::Locked) => Some(self),
                    Err(Refused::Overflow) => None,
                }
            },
            Op::Lock => if self.free_arcs() < 1 {
                None
            } else if self.alloc == 1 {
                Some(Ledger { alloc: LOCKED, check: Check::Locked, ..self })
            } else {
                Some(self)
            },
            Op::Probe => if self.check is Locked {
                Some(Ledger { check: Check::Probed(single(self.strong)), ..self })
            } else {
                None
            },
            Op::Unlock => if self.check is Probed {
                Some(Ledger { alloc: 1, check: Check::Idle, ..self })
            } else {
                None
            },
            Op::Upgrade => if self.weaks < 1 {
                None
            } else {
                match upgrade_rule(self.strong) {
                    Ok(Some(next)) => Some(Ledger { strong: next, arcs: self.arcs + 1, ..self }),
                    Ok(None) => Some(self),
                    Err(_) => None,
                }
            },
            Op::CloneWeak => if self.weaks < 1 || past_limit(self.alloc) {
                None
            } else {
                Some(Ledger { alloc: raised(self.alloc), weaks: self.weaks + 1, ..self })
            },
            Op::DropWeak => if self.weaks < 1 {
                None
            } else if took_last(self.alloc) {
                Some(
                    Ledger {
                        alloc: lowered(self.alloc),
                        weaks: (self.weaks - 1) as nat,
                        block_frees: self.block_frees + 1,
                        ..self
                    },
                )
            } else {
                Some(Ledger { alloc: lowered(self.alloc), weaks: (self.weaks - 1) as nat, ..self })
            },
        }
    }

    /// The control block after a sequence of accesses, or none where one of
    /// them cannot be made.
    pub open spec fn run(self, ops: Seq<Op>) -> Option<Ledger>
        decreases ops.len(),
    {
        if ops.len() == 0 {
            Some(self)
        } else {
            match self.run(ops.drop_last()) {
                Some(ledger) => ledger.step(ops.last()),
                None => None,
            }
        }
    }

    /// What the counters mean.
    ///
    /// The strong count is the number of strong handles. The allocation
    /// count is the number of weak handles, and one more while a strong
    /// handle exists; during a uniqueness check it is locked, and then no
    /// weak handle exists. The payload was destroyed if and only if no
    /// strong handle is left, and the control block was freed if and only if
    /// no handle at all is left.
    pub open spec fn wf(self) -> bool {
        &&& self.strong == self.arcs
        &&& match self.check {
            Check::Idle => self.alloc < LOCKED && self.alloc == self.weaks + self.group_unit(),
            Check::Locked => self.alloc == LOCKED && self.weaks == 0 && self.arcs >= 1,
            Check::Probed(alone) => {
                &&& self.alloc == LOCKED
                &&& self.weaks == 0
                &&& self.arcs >= 1
                &&& alone ==> self.arcs == 1
            },
        }
        &&& self.payload_drops == if self.arcs == 0 { 1nat } else { 0nat }
        &&& self.block_frees == if self.arcs == 0 && self.weaks == 0 { 1nat } else { 0nat }
    }

    /// The unit of the allocation count that the strong handles hold
    /// together: one as long as there is a strong handle.
    pub open spec fn group_unit(self) -> nat {
        if self.arcs > 0 {
            1
        } else {
            0
        }
    }

    /// What `Arc::get_mut` answers when nothing happens between its three
    /// accesses: the lock is taken, and the strong count is one.
    pub open spec fn grants_get_mut(self) -> bool {
        self.alloc == 1 && single(self.strong)
    }

    /// Whether `Weak::upgrade` hands out a strong handle.
    pub open spec fn upgrades(self) -> bool {
        upgrade_rule(self.strong) matches Ok(Some(_))
    }
}

/// The counters mean what they should after every access.
pub proof fn law_step_keeps_meaning(ledger: Ledger, op: Op)
    requires
        ledger.wf(),
        ledger.step(op) is Some,
    ensures
        ledger.step(op)->0.wf(),
{
}

/// The counters mean what they should after every sequence of accesses.
pub proof fn law_run_keeps_meaning(ledger: Ledger, ops: Seq<Op>)
    requires
        ledger.wf(),
        ledger.run(ops) is Some,
    ensures
        ledger.run(ops)->0.wf(),
    decreases ops.len(),
{
    if ops.len() > 0 {
        law_run_keeps_meaning(ledger, ops.drop_last());
        law_step_keeps_meaning(ledger.run(ops.drop_last())->0, ops.last());
    }
}

/// A new control block is in order, and so it stays whatever is done with
/// its handles.
pub proof fn law_reachable_is_sound(ops: Seq<Op>)
    requires
        Ledger::fresh().run(ops) is Some,
    ensures
        Ledger::fresh().run(ops)->0.wf(),
{
    law_run_keeps_meaning(Ledger::fresh(), ops);
}

/// The payload is destroyed once, when the last strong handle goes and the
/// strong count comes to zero: never while a strong handle exists, and never
/// a second time.
pub proof fn law_payload_destroyed_once(ops: Seq<Op>)
    requires
        Ledger::fresh().run(ops) is Some,
    ensures
        Ledger::fresh().run(ops)->0.payload_drops <= 1,
        Ledger::fresh().run(ops)->0.payload_drops == 1 <==> Ledger::fresh().run(ops)->0.arcs == 0,
        Ledger::fresh().run(ops)->0.payload_drops == 0 <==> Ledger::fresh().run(ops)->0.strong > 0,
{
    law_reachable_is_sound(ops);
}

/// The accesses of `n` clones of a strong handle, followed by those of `j`
/// releases.
pub open spec fn clones_and_drops(n: nat, j: nat) -> Seq<Op> {
    Seq::new(n, |i: int| Op::CloneArc) + Seq::new(j, |i: int| Op::DropArc)
}

/// The accesses of `n` clones of a strong handle, followed by those of
/// `n + 1` releases: one for each strong handle there is.
pub open spec fn clones_then_drops(n: nat) -> Seq<Op> {
    clones_and_drops(n, n + 1)
}

/// A strong handle cloned `n` times and all `n + 1` handles released: the
/// payload was destroyed exactly once. The weak handle that the last release
/// left to its holder is the only handle then, and its release frees the
/// control block.
pub proof fn law_clones_then_drops(n: nat)
    requires
        n <= CLONE_LIMIT,
    ensures
        Ledger::fresh().run(clones_then_drops(n)) is Some,
        Ledger::fresh().run(clones_then_drops(n))->0.payload_drops == 1,
        Ledger::fresh().run(clones_then_drops(n))->0.arcs == 0,
        Ledger::fresh().run(clones_then_drops(n))->0.weaks == 1,
        Ledger::fresh().run(clones_then_drops(n))->0.block_frees == 0,
        Ledger::fresh().run(clones_then_drops(n))->0.step(Op::DropWeak) is Some,
        Ledger::fresh().run(clones_then_drops(n))->0.step(Op::DropWeak)->0.block_frees == 1,
{
    lemma_clones_and_drops(n, n + 1);
    law_reachable_is_sound(clones_then_drops(n));
}

/// While strong handles are only cloned and released, the payload lives as
/// long as one of them is left: after `n` clones and `j` releases there are
/// `n + 1 - j` strong handles, and no weak one before the last is released.
proof fn lemma_clones_and_drops(n: nat, j: nat)
    requires
        n <= CLONE_LIMIT,
        j <= n + 1,
    ensures
        Ledger::fresh().run(clones_and_drops(n, j)) is Some,
        Ledger::fresh().run(clones_and_drops(n, j))->0.arcs == n + 1 - j,
        Ledger::fresh().run(clones_and_drops(n, j))->0.check is Idle,
        Ledger::fresh().run(clones_and_drops(n, j))->0.weaks == if j == n + 1 { 1nat } else { 0nat },
    decreases n + j,
{
    let ops = clones_and_drops(n, j);
    if j > 0 {
        lemma_clones_and_drops(n, (j - 1) as nat);
        assert(ops.drop_last() =~= clones_and_drops(n, (j - 1) as nat));
        law_reachable_is_sound(ops.drop_last());
    } else if n > 0 {
        lemma_clones_and_drops((n - 1) as nat, 0);
        assert(ops.drop_last() =~= clones_and_drops((n - 1) as nat, 0));
        law_reachable_is_sound(ops.drop_last());
    }
}

/// Once the last strong handle is gone, no upgrade hands out a strong handle
/// again, whatever happens in between; and as long as a weak handle is left
/// to ask, the control block is still there.
pub proof fn law_no_upgrade_after_last_strong(ledger: Ledger, ops: Seq<Op>)
    requires
        ledger.wf(),
        ledger.arcs == 0,
        ledger.run(ops) is Some,
    ensures
        ledger.run(ops)->0.arcs == 0,
        !ledger.run(ops)->0.upgrades(),
        ledger.run(ops)->0.weaks >= 1 ==> ledger.run(ops)->0.step(Op::Upgrade) == Some(
            ledger.run(ops)->0,
        ),
        ledger.run(ops)->0.payload_drops == 1,
        ledger.run(ops)->0.weaks >= 1 ==> ledger.run(ops)->0.block_frees == 0,
    decreases ops.len(),
{
    law_run_keeps_meaning(ledger, ops);
    if ops.len() > 0 {
        law_no_upgrade_after_last_strong(ledger, ops.drop_last());
        law_run_keeps_meaning(ledger, ops.drop_last());
    }
}

/// With nothing going on in between, `Arc::get_mut` grants access if and
/// only if its handle is the only strong one and no weak one exists.
pub proof fn law_get_mut_iff_alone(ledger: Ledger)
    requires
        ledger.wf(),
        ledger.check is Idle,
        ledger.arcs >= 1,
    ensures
        ledger.grants_get_mut() <==> ledger.arcs == 1 && ledger.weaks == 0,
{
}

/// The three accesses of `Arc::get_mut`, with nothing in between: where the
/// allocation count is one, the lock is taken, the strong count is read, and
/// the control block is left as it was found; where it is not, the first
/// access changes nothing and there is no second.
pub proof fn law_get_mut_accesses(ledger: Ledger)
    requires
        ledger.wf(),
        ledger.check is Idle,
        ledger.arcs >= 1,
    ensures
        ledger.alloc == 1 ==> ledger.run(seq![Op::Lock, Op::Probe]) is Some && ledger.run(
            seq![Op::Lock, Op::Probe],
        )->0.check == Check::Probed(ledger.grants_get_mut()) && ledger.run(
            seq![Op::Lock, Op::Probe, Op::Unlock],
        ) == Some(ledger),
        ledger.alloc != 1 ==> !ledger.grants_get_mut() && ledger.step(Op::Lock) == Some(ledger)
            && ledger.step(Op::Probe) is None,
{
    let one = seq![Op::Lock];
    let two = seq![Op::Lock, Op::Probe];
    let three = seq![Op::Lock, Op::Probe, Op::Unlock];
    assert(one.drop_last() =~= Seq::<Op>::empty());
    assert(two.drop_last() =~= one);
    assert(three.drop_last() =~= two);
    assert(ledger.run(Seq::<Op>::empty()) == Some(ledger));
    assert(ledger.run(one) == ledger.step(Op::Lock));
    if ledger.alloc == 1 {
        let locked = ledger.step(Op::Lock)->0;
        assert(ledger.run(two) == locked.step(Op::Probe));
        let probed = locked.step(Op::Probe)->0;
        assert(ledger.run(three) == probed.step(Op::Unlock));
    }
}

/// A weak handle, even one that is never upgraded, makes `Arc::get_mut`
/// refuse until it is released.
pub proof fn law_weak_handle_blocks_get_mut(ledger: Ledger)
    requires
        ledger.wf(),
        ledger.check is Idle,
        ledger.arcs == 1,
        ledger.weaks == 0,
    ensures
        ledger.grants_get_mut(),
        ledger.step(Op::Downgrade) is Some,
        ledger.step(Op::Downgrade)->0.weaks == 1,
        !ledger.step(Op::Downgrade)->0.grants_get_mut(),
        ledger.step(Op::Downgrade)->0.step(Op::DropWeak) == Some(ledger),
{
}

/// Access once granted is exclusive, whatever other threads were doing
/// while it was checked: when the check has found a single strong handle,
/// that handle is the only one of either kind, and no access but the
/// unlocking one can follow.
pub proof fn law_granted_means_alone(ledger: Ledger, op: Op)
    requires
        ledger.wf(),
        ledger.check == Check::Probed(true),
    ensures
        ledger.arcs == 1,
        ledger.weaks == 0,
        ledger.step(op) is Some ==> op is Unlock,
        ledger.step(Op::Unlock) is Some,
        ledger.step(Op::Unlock)->0.grants_get_mut(),
{
}

/// The control block is freed once, when the last handle of either kind
/// goes and the allocation count comes to zero: never while a handle exists,
/// never before the payload was destroyed, and nothing can touch it
/// afterwards.
pub proof fn law_block_freed_once(ops: Seq<Op>, op: Op)
    requires
        Ledger::fresh().run(ops) is Some,
    ensures
        Ledger::fresh().run(ops)->0.block_frees <= 1,
        Ledger::fresh().run(ops)->0.block_frees == 1 <==> Ledger::fresh().run(ops)->0.arcs == 0
            && Ledger::fresh().run(ops)->0.weaks == 0,
        Ledger::fresh().run(ops)->0.block_frees == 1 <==> Ledger::fresh().run(ops)->0.alloc == 0,
        Ledger::fresh().run(ops)->0.block_frees == 1 ==> Ledger::fresh().run(ops)->0.payload_drops
            == 1 && Ledger::fresh().run(ops)->0.step(op) is None,
{
    law_reachable_is_sound(ops);
}

/// How a retry loop ends whose last access finds the counter at `n`: with
/// `Ok(n)` where its step gives a count to store in place of `n`, with
/// `Err(n)` where its step gives none.
pub open spec fn loop_end(n: usize, next: Option<usize>) -> Result<usize, usize> {
    if next is Some {
        Ok(n)
    } else {
        Err(n)
    }
}

/// What `Weak::upgrade` and `Arc::downgrade` answer is what has happened to
/// the control block. An upgrade answers with a handle exactly when it has
/// raised the strong count, and there is one strong handle more; it answers
/// with none exactly when no strong handle is left. A downgrade answers
/// with a handle exactly when it has raised the allocation count, and there
/// is one weak handle more; it answers `Locked` only while a uniqueness
/// check is under way, and has changed nothing then. Either reports an
/// overflow exactly where the process ends.
pub proof fn law_answers_follow_ledger(ledger: Ledger)
    requires
        ledger.wf(),
    ensures
        ledger.weaks >= 1 ==> match upgrade_answer(
            loop_end(ledger.strong, upgrade_next(ledger.strong)),
        ) {
            Ok(true) => ledger.step(Op::Upgrade) is Some && ledger.step(Op::Upgrade)->0.arcs
                == ledger.arcs + 1 && ledger.step(Op::Upgrade)->0.strong == ledger.strong + 1,
            Ok(false) => ledger.step(Op::Upgrade) == Some(ledger) && ledger.arcs == 0,
            Err(_) => ledger.step(Op::Upgrade) is None,
        },
        ledger.free_arcs() >= 1 ==> match downgrade_answer(
            loop_end(ledger.alloc, downgrade_next(ledger.alloc)),
        ) {
            Ok(_) => ledger.step(Op::Downgrade) is Some && ledger.step(Op::Downgrade)->0.weaks
                == ledger.weaks + 1 && ledger.step(Op::Downgrade)->0.alloc == ledger.alloc + 1,
            Err(Refused::Locked) => ledger.step(Op::Downgrade) == Some(ledger) && !(ledger.check
                is Idle),
            Err(Refused::Overflow) => ledger.step(Op::Downgrade) is None,
        },
{
}

/// What a compare-and-swap from `current` reports of a counter that holds
/// `held`: the value held, in `Ok` where it is `current` and is replaced, in
/// `Err` where it is another and stays.
pub open spec fn swap_report(held: usize, current: usize) -> Result<usize, usize> {
    if held == current {
        Ok(held)
    } else {
        Err(held)
    }
}

/// What the other functions answer on the counts that they find is what has
/// happened to the control block. A clone is withheld exactly where the
/// process ends. `Arc::release` hands out the weak handle exactly when no
/// strong handle is left, and the payload is destroyed then. `Weak::release`
/// answers `true` exactly when no handle of either kind is left, and the
/// control block is freed then. `Arc::get_mut`, with nothing going on in
/// between, grants access exactly when its handle is the only one of either
/// kind.
pub proof fn law_counts_found_follow_ledger(ledger: Ledger)
    requires
        ledger.wf(),
    ensures
        ledger.free_arcs() >= 1 ==> (past_limit(ledger.strong) <==> ledger.step(Op::CloneArc)
            is None),
        ledger.free_arcs() >= 1 ==> ledger.step(Op::DropArc) is Some && (took_last(ledger.strong)
            <==> ledger.step(Op::DropArc)->0.arcs == 0) && (took_last(ledger.strong)
            <==> ledger.step(Op::DropArc)->0.payload_drops == 1),
        ledger.weaks >= 1 ==> (past_limit(ledger.alloc) <==> ledger.step(Op::CloneWeak) is None),
        ledger.weaks >= 1 ==> ledger.step(Op::DropWeak) is Some && (took_last(ledger.alloc)
            <==> ledger.step(Op::DropWeak)->0.arcs + ledger.step(Op::DropWeak)->0.weaks == 0) && (
        took_last(ledger.alloc) <==> ledger.step(Op::DropWeak)->0.block_frees == 1),
        ledger.free_arcs() >= 1 ==> (swap_report(ledger.alloc, 1) is Ok <==> ledger.check is Idle
            && ledger.step(Op::Lock)->0.check is Locked),
        ledger.free_arcs() >= 1 && ledger.check is Idle ==> (swap_report(ledger.alloc, 1) is Ok
            && single(ledger.strong) <==> ledger.arcs == 1 && ledger.weaks == 0),
{
}

/// A new control block is the one whose counters `Arc::new` makes, both
/// with one: there is the one strong handle and no weak one, nothing was
/// destroyed or freed, and `Arc::get_mut` grants access.
pub proof fn law_new_block()
    ensures
        (Ledger::fresh().strong, Ledger::fresh().alloc) == (1usize, 1usize),
        Ledger::fresh().wf(),
        Ledger::fresh().arcs == 1 && Ledger::fresh().weaks == 0,
        Ledger::fresh().payload_drops == 0 && Ledger::fresh().block_frees == 0,
        Ledger::fresh().grants_get_mut(),
{
}

} // verus!
