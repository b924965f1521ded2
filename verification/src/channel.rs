//! The state tag of a single-use message slot, and the atomic accesses by
//! which one value is handed from a sender to a receiver.
use crate::atomics::{compare_exchange_u8, made_with_u8, new_u8};
use std::sync::atomic::AtomicU8;
use std::sync::atomic::Ordering;
use vstd::prelude::*;

verus! {

/// Tag of a slot that nothing was sent through yet.
pub const EMPTY: u8 = 0;

/// Tag of a slot whose sender is storing the message.
pub const WRITING: u8 = 1;

/// Tag of a slot that holds a message.
pub const READY: u8 = 2;

/// Tag of a slot whose message was taken.
pub const READING: u8 = 3;

/// The four states of a slot, in the order in which it passes through them.
#[derive(Clone, Copy, Debug, PartialEq, Eq, Structural)]
pub enum State {
    Empty,
    Writing,
    Ready,
    Reading,
}

impl State {
    /// The tag that stands for the state in the atomic cell.
    pub open spec fn tag_of(self) -> u8 {
        match self {
            State::Empty => EMPTY,
            State::Writing => WRITING,
            State::Ready => READY,
            State::Reading => READING,
        }
    }

    /// The state that a tag stands for.
    pub open spec fn of_tag(tag: u8) -> Option<State> {
        if tag == EMPTY {
            Some(State::Empty)
        } else if tag == WRITING {
            Some(State::Writing)
        } else if tag == READY {
            Some(State::Ready)
        } else if tag == READING {
            Some(State::Reading)
        } else {
            None
        }
    }

    /// The state that follows, if any: a slot is not used again.
    pub open spec fn successor(self) -> Option<State> {
        match self {
            State::Empty => Some(State::Writing),
            State::Writing => Some(State::Ready),
            State::Ready => Some(State::Reading),
            State::Reading => None,
        }
    }

    /// How many transitions lie behind a slot in this state.
    pub open spec fn rank(self) -> nat {
        match self {
            State::Empty => 0,
            State::Writing => 1,
            State::Ready => 2,
            State::Reading => 3,
        }
    }

    /// Whether the storage of a slot in this state holds a message.
    pub open spec fn holds_message(self) -> bool {
        self == State::Ready
    }

    /// The tag to store for the state.
    pub fn tag(self) -> (tag: u8)
        ensures
            tag == self.tag_of(),
            State::of_tag(tag) == Some(self),
    {
        match self {
            State::Empty => EMPTY,
            State::Writing => WRITING,
            State::Ready => READY,
            State::Reading => READING,
        }
    }

    /// The state that a tag read from the cell stands for; none for a value
    /// that is no tag.
    pub fn from_tag(tag: u8) -> (state: Option<State>)
        ensures
            state == State::of_tag(tag),
            state matches Some(s) ==> s.tag_of() == tag,
    {
        if tag == EMPTY {
            Some(State::Empty)
        } else if tag == WRITING {
            Some(State::Writing)
        } else if tag == READY {
            Some(State::Ready)
        } else if tag == READING {
            Some(State::Reading)
        } else {
            None
        }
    }

    /// Tells whether a slot found in this state holds a message: one to
    /// take, or one to destroy together with the slot.
    pub fn is_ready(self) -> (ready: bool)
        ensures
            ready == self.holds_message(),
    {
        match self {
            State::Ready => true,
            _ => false,
        }
    }
}

/// The state cell of one slot.
#[derive(Debug)]
pub struct Channel {
    state: AtomicU8,
}

/// The right to store the message and then to publish it. There is at most
/// one per slot: it is handed out on the transition from `Empty` to
/// `Writing`, which happens once.
pub struct Sending<'a> {
    channel: &'a Channel,
}

impl Channel {
    /// The tag that the state cell was made with.
    pub closed spec fn made_with(&self) -> u8 {
        made_with_u8(self.state)
    }

    /// The state cell of a new slot: it is made with the tag `EMPTY`.
    pub fn new() -> (channel: Channel)
        ensures
            channel.made_with() == EMPTY,
    {
        Channel { state: new_u8(State::Empty.tag()) }
    }

    /// Claims the slot for the one message, by a compare-and-swap from
    /// `EMPTY` to `WRITING`. Beside the answer stands what the swap reported.
    /// The right to send is handed out exactly when the tag found was
    /// `EMPTY`; when the slot was used before, nothing is handed out: a
    /// second send is an error of the caller.
    pub fn send(&self) -> (r: (Option<Sending<'_>>, Result<u8, u8>))
        ensures
            r.0 is Some <==> r.1 == Ok::<u8, u8>(EMPTY),
            r.1 matches Ok(found) ==> found == EMPTY,
            r.1 matches Err(found) ==> found != EMPTY,
            r.0 matches Some(sending) ==> sending.channel() == self,
    {
        let swap = compare_exchange_u8(
            &self.state,
            State::Empty.tag(),
            State::Writing.tag(),
            Ordering::Release,
            Ordering::Relaxed,
        );
        if Channel::tag_replaced(swap) {
            (Some(Sending { channel: self }), swap)
        } else {
            (None, swap)
        }
    }

    /// Polls for a message. Beside the answer stands the tag that was read:
    /// the answer is whether that tag stands for `Ready`. It orders nothing:
    /// it only tells the caller when to try `receive`.
    pub fn is_ready(&self) -> (r: (bool, u8))
        ensures
            r.0 == (State::of_tag(r.1) == Some(State::Ready)),
    {
        let tag = self.state.load(Ordering::Relaxed);
        (Channel::tag_is_ready(tag), tag)
    }

    /// Claims the message, by a compare-and-swap from `READY` to `READING`.
    /// Beside the answer stands what the swap reported. The answer says
    /// whether the caller may move the message out of the storage: it may
    /// exactly when the tag found was `READY`, and so not when nothing was
    /// sent yet, or when the message was taken before.
    pub fn receive(&self) -> (r: (bool, Result<u8, u8>))
        ensures
            r.0 <==> r.1 == Ok::<u8, u8>(READY),
            r.1 matches Ok(found) ==> found == READY,
            r.1 matches Err(found) ==> found != READY,
    {
        let swap = compare_exchange_u8(
            &self.state,
            State::Ready.tag(),
            State::Reading.tag(),
            Ordering::Acquire,
            Ordering::Relaxed,
        );
        (Channel::tag_replaced(swap), swap)
    }

    /// Tells the owner who is about to destroy the slot whether its storage
    /// holds a message that must be destroyed with it. Beside the answer
    /// stands the tag that was read: the answer is whether that tag stands
    /// for `Ready`.
    pub fn holds_message(&mut self) -> (r: (bool, u8))
        ensures
            r.0 == (State::of_tag(r.1) == Some(State::Ready)),
            *final(self) == *old(self),
    {
        let tag = self.state.load(Ordering::Relaxed);
        (Channel::tag_is_ready(tag), tag)
    }

    /// Whether a slot whose tag was read as `tag` holds a message.
    pub fn tag_is_ready(tag: u8) -> (ready: bool)
        ensures
            ready == (State::of_tag(tag) matches Some(state) && state.holds_message()),
    {
        match State::from_tag(tag) {
            Some(state) => state.is_ready(),
            None => false,
        }
    }

    /// Whether a compare-and-swap on the tag has made its transition. It
    /// reports the tag that it found: in `Ok` where that was the expected
    /// one, which it has replaced, and in `Err` where it was another, which
    /// it has left alone.
    pub fn tag_replaced(swap: Result<u8, u8>) -> (replaced: bool)
        ensures
            replaced == swap is Ok,
    {
        match swap {
            Ok(_) => true,
            Err(_) => false,
        }
    }
}

impl<'a> Sending<'a> {
    /// The state cell that this right belongs to.
    pub closed spec fn channel(&self) -> &Channel {
        self.channel
    }

    /// Publishes the message that the caller has stored: from now on the
    /// slot is `Ready`.
    pub fn finish(self) {
        self.channel.state.store(State::Ready.tag(), Ordering::Release);
    }
}

} // verus!
