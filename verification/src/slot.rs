//! The single-use slot as a mathematical object: its state, the message in
//! its storage, and what each access makes of them. The laws below are
//! proved of every sequence of accesses, in whatever order threads make them.
use crate::channel::{State, EMPTY, READY};
use vstd::prelude::*;

verus! {

/// A slot at one moment.
pub struct Slot<T> {
    /// The state that the tag stands for.
    pub state: State,
    /// What the storage holds.
    pub message: Option<T>,
}

/// One access to a slot that goes through.
pub enum Access<T> {
    /// The sender claims the slot: `Channel::send` hands out the right
    /// to send.
    Claim,
    /// The sender stores the message and publishes it: `Sending::finish`.
    Publish(T),
    /// The receiver claims the message and moves it out:
    /// `Channel::receive` returns `true`.
    Take,
}

/// What a receive that goes through leaves and hands out.
pub struct Received<T> {
    /// The slot afterwards.
    pub slot: Slot<T>,
    /// The message moved out of the storage.
    pub message: T,
}

impl<T> Access<T> {
    /// The one state in which the access goes through.
    pub open spec fn source(self) -> State {
        match self {
            Access::Claim => State::Empty,
            Access::Publish(_) => State::Writing,
            Access::Take => State::Ready,
        }
    }
}

impl<T> Slot<T> {
    /// A new slot.
    pub open spec fn empty() -> Slot<T> {
        Slot { state: State::Empty, message: None }
    }

    /// The storage holds a message exactly in state `Ready`.
    pub open spec fn wf(self) -> bool {
        self.message is Some <==> self.state.holds_message()
    }

    /// The slot after one access, or none where the access does not go
    /// through: the compare-and-swap fails, or nobody holds the right to
    /// publish.
    pub open spec fn step(self, access: Access<T>) -> Option<Slot<T>> {
        if self.state != access.source() {
            None
        } else {
            match access {
                Access::Claim => Some(Slot { state: State::Writing, message: None }),
                Access::Publish(message) => Some(
                    Slot { state: State::Ready, message: Some(message) },
                ),
                Access::Take => Some(Slot { state: State::Reading, message: None }),
            }
        }
    }

    /// The slot after a sequence of accesses, or none where one of them does
    /// not go through.
    pub open spec fn run(self, accesses: Seq<Access<T>>) -> Option<Slot<T>>
        decreases accesses.len(),
    {
        if accesses.len() == 0 {
            Some(self)
        } else {
            match self.run(accesses.drop_last()) {
                Some(slot) => slot.step(accesses.last()),
                None => None,
            }
        }
    }

    /// A whole send: claim, store, publish. None where the send is refused.
    pub open spec fn send(self, message: T) -> Option<Slot<T>> {
        match self.step(Access::Claim) {
            Some(claimed) => claimed.step(Access::Publish(message)),
            None => None,
        }
    }

    /// A whole receive: the slot afterwards and the message moved out. None
    /// where the receive is refused.
    pub open spec fn receive(self) -> Option<Received<T>> {
        match (self.step(Access::Take), self.message) {
            (Some(slot), Some(message)) => Some(Received { slot, message }),
            _ => None,
        }
    }

    /// What a poll answers.
    pub open spec fn is_ready(self) -> bool {
        self.state.holds_message()
    }

    /// The message that is destroyed together with the slot.
    pub open spec fn destroyed_with(self) -> Option<T> {
        if self.state.holds_message() {
            self.message
        } else {
            None
        }
    }
}

/// Every access that goes through moves the slot to the next state, and the
/// storage holds a message exactly in state `Ready`.
pub proof fn law_forward_only<T>(slot: Slot<T>, access: Access<T>)
    requires
        slot.step(access) is Some,
    ensures
        slot.state.successor() == Some(slot.step(access)->0.state),
        slot.step(access)->0.state.rank() == slot.state.rank() + 1,
        slot.wf() ==> slot.step(access)->0.wf(),
{
}

/// After a sequence of accesses that went through, the slot is as many
/// states on as there were accesses; so there are three at most.
pub proof fn law_run_advances<T>(slot: Slot<T>, accesses: Seq<Access<T>>)
    requires
        slot.run(accesses) is Some,
    ensures
        slot.run(accesses)->0.state.rank() == slot.state.rank() + accesses.len(),
        accesses.len() <= 3,
        slot.wf() ==> slot.run(accesses)->0.wf(),
    decreases accesses.len(),
{
    if accesses.len() > 0 {
        law_run_advances(slot, accesses.drop_last());
        law_forward_only(slot.run(accesses.drop_last())->0, accesses.last());
    }
}

/// Where a sequence of accesses goes through, so does each of its
/// beginnings.
pub proof fn law_prefix_runs<T>(slot: Slot<T>, accesses: Seq<Access<T>>, k: int)
    requires
        slot.run(accesses) is Some,
        0 <= k <= accesses.len(),
    ensures
        slot.run(accesses.take(k)) is Some,
    decreases accesses.len(),
{
    if k == accesses.len() {
        assert(accesses.take(k) =~= accesses);
    } else {
        assert(accesses.drop_last().take(k) =~= accesses.take(k));
        law_prefix_runs(slot, accesses.drop_last(), k);
    }
}

/// Each transition is made by one access at most, and in one order: in a
/// sequence that goes through, the access at position `k` is the one that
/// leaves the state `k` steps after the first.
pub proof fn law_each_transition_once<T>(slot: Slot<T>, accesses: Seq<Access<T>>, k: int)
    requires
        slot.run(accesses) is Some,
        0 <= k < accesses.len(),
    ensures
        accesses[k].source().rank() == slot.state.rank() + k,
        forall|j: int|
            0 <= j < accesses.len() && j != k ==> accesses[j].source() != accesses[k].source(),
{
    lemma_source_at(slot, accesses, k);
    assert forall|j: int| 0 <= j < accesses.len() && j != k implies accesses[j].source()
        != accesses[k].source() by {
        lemma_source_at(slot, accesses, j);
    }
}

proof fn lemma_source_at<T>(slot: Slot<T>, accesses: Seq<Access<T>>, k: int)
    requires
        slot.run(accesses) is Some,
        0 <= k < accesses.len(),
    ensures
        accesses[k].source().rank() == slot.state.rank() + k,
{
    let upto = accesses.take(k + 1);
    law_prefix_runs(slot, accesses, k + 1);
    assert(upto.drop_last() =~= accesses.take(k));
    assert(upto.last() == accesses[k]);
    law_prefix_runs(slot, accesses, k);
    law_run_advances(slot, accesses.take(k));
}

/// A message sent through a new slot is received, the same and once; every
/// send after the first and every receive after the first is refused.
pub proof fn law_send_then_receive<T>(message: T, other: T)
    ensures
        Slot::<T>::empty().send(message) is Some,
        Slot::<T>::empty().send(message)->0.receive() is Some,
        Slot::<T>::empty().send(message)->0.receive()->0.message == message,
        Slot::<T>::empty().send(message)->0.send(other) is None,
        Slot::<T>::empty().send(message)->0.receive()->0.slot.send(other) is None,
        Slot::<T>::empty().send(message)->0.receive()->0.slot.receive() is None,
        Slot::<T>::empty().receive() is None,
{
}

/// A send goes through exactly on a slot in state `Empty`, and a receive
/// exactly on one in state `Ready`; the receive hands out what the storage
/// held.
pub proof fn law_when_accepted<T>(slot: Slot<T>, message: T)
    requires
        slot.wf(),
    ensures
        slot.send(message) is Some <==> slot.state == State::Empty,
        slot.receive() is Some <==> slot.state == State::Ready,
        slot.receive() is Some ==> Some(slot.receive()->0.message) == slot.message,
        slot.is_ready() <==> slot.receive() is Some,
{
}

/// Whoever finds a slot ready finds in it the message that was sent: in
/// every sequence of accesses that leaves a new slot in state `Ready`, the
/// second access published a message, and a receive hands out that one.
pub proof fn law_ready_holds_what_was_sent<T>(accesses: Seq<Access<T>>)
    requires
        Slot::<T>::empty().run(accesses) is Some,
        Slot::<T>::empty().run(accesses)->0.is_ready(),
    ensures
        accesses.len() == 2,
        accesses[1] is Publish,
        Slot::<T>::empty().run(accesses)->0.receive() is Some,
        Slot::<T>::empty().run(accesses)->0.receive()->0.message == accesses[1]->Publish_0,
{
    let start = Slot::<T>::empty();
    law_run_advances(start, accesses);
    lemma_source_at(start, accesses, 1);
    law_prefix_runs(start, accesses, 1);
    assert(accesses.drop_last() =~= accesses.take(1));
}

/// A slot destroyed in state `Ready` destroys the message it holds, which
/// is one; a slot destroyed in any other state destroys none.
pub proof fn law_destroyed_with_slot<T>(accesses: Seq<Access<T>>)
    requires
        Slot::<T>::empty().run(accesses) is Some,
    ensures
        Slot::<T>::empty().run(accesses)->0.destroyed_with() is Some
            <==> Slot::<T>::empty().run(accesses)->0.state == State::Ready,
        Slot::<T>::empty().run(accesses)->0.destroyed_with()
            == Slot::<T>::empty().run(accesses)->0.message,
{
    law_run_advances(Slot::<T>::empty(), accesses);
}

/// What a compare-and-swap from `current` reports of a cell that holds the
/// tag `held`: the tag held, in `Ok` where it is `current` and is replaced,
/// in `Err` where it is another and stays.
pub open spec fn swap_report(held: u8, current: u8) -> Result<u8, u8> {
    if held == current {
        Ok(held)
    } else {
        Err(held)
    }
}

/// What the functions of `Channel` answer on the tag that they find is what
/// has happened to the slot: `send` hands out the right exactly when the
/// slot lets itself be claimed, `receive` answers `true` exactly when the
/// message lets itself be taken, and the two polls answer `true` exactly
/// when the slot is ready, which is when its storage holds the message that
/// would be destroyed with it.
pub proof fn law_answers_follow_slot<T>(slot: Slot<T>)
    requires
        slot.wf(),
    ensures
        swap_report(slot.state.tag_of(), EMPTY) == Ok::<u8, u8>(EMPTY) <==> slot.step(
            Access::Claim,
        ) is Some,
        swap_report(slot.state.tag_of(), READY) == Ok::<u8, u8>(READY) <==> slot.step(
            Access::Take,
        ) is Some,
        State::of_tag(slot.state.tag_of()) == Some(State::Ready) <==> slot.is_ready(),
        State::of_tag(slot.state.tag_of()) == Some(State::Ready) <==> slot.destroyed_with()
            is Some,
{
}

/// A new slot is the one whose cell `Channel::new` makes, with the tag
/// `EMPTY`: it is not ready, it lets itself be claimed for a send but not
/// for a receive, and nothing is destroyed with it.
pub proof fn law_new_slot<T>()
    ensures
        Slot::<T>::empty().state.tag_of() == EMPTY,
        Slot::<T>::empty().wf(),
        !Slot::<T>::empty().is_ready(),
        Slot::<T>::empty().step(Access::Claim) is Some,
        Slot::<T>::empty().step(Access::Take) is None,
        Slot::<T>::empty().destroyed_with() is None,
{
}

} // verus!
