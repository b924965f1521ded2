//! Two concurrency primitives built directly on atomic memory operations:
//! a single-use message slot and a shared-ownership pointer with strong and
//! weak handles.
//!
//! The crate holds the atomic protocol of both: every read, compare-and-swap,
//! increment and decrement of a state tag or a reference count, and the
//! decision taken on each value found. The memory that the protocol guards
//! (the message, the payload, the control block's allocation) belongs to the
//! caller, who stores, destroys and frees exactly when a function here says
//! so.
//!
//! What is proved comes in two parts.
//!
//! Each function of `channel` and `arc` hands back, beside its answer, what
//! its atomic access found, and its contract states the answer as a function
//! of that. A constructor states the value that each cell was made with. No
//! contract states what a cell holds at any later time: another thread may
//! change a cell whenever it likes, so its content is no part of any value
//! that a contract could speak of.
//!
//! The modules `slot` and `ledger` hold a model of the slot and of the
//! control block: the content of the cells, the handles that exist, and what
//! each access makes of them. What the protocol promises is proved of these
//! models, for every interleaving of accesses. The models are tied to the
//! functions by the spec functions that both use for the decision on a value
//! found, and by the laws `law_new_slot`, `law_answers_follow_slot`,
//! `law_new_block`, `law_answers_follow_ledger` and
//! `law_counts_found_follow_ledger`, which say that a model starts with the
//! values that the constructors make the cells with, and that the answer a
//! function gives on the value a model holds is what the model says has
//! happened.
//!
//! Two things are proved nowhere. One is that each function makes the access
//! that its step in the model describes: on which cell, by which operation,
//! with which value to store, and that it stores at all. The other is that
//! an access finds what the model holds, which is what the atomic operations
//! of the machine do. For both the reader has the bodies in `channel` and
//! `arc`, which are a few lines each, and the tests, which hold the values
//! found against the counts and tags expected.
pub mod arc;
pub mod atomics;
pub mod channel;
pub mod counts;
pub mod ledger;
pub mod slot;
