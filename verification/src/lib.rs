//! Scoped hand-off of a poll context to code that runs inside a suspendable
//! computation.
//!
//! A driver polls a [`future::FutureAdapter`] with a context. During that poll the
//! context sits in a [`slot::ContextSlot`], the single-occupant cell of the
//! execution unit, where code inside the computation finds it without having it
//! passed down as a parameter. Every installation and every retrieval is scoped:
//! what the cell held before is written back before the scope is left.
pub mod slot;
pub mod future;
pub mod units;
pub mod laws;
