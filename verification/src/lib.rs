//! A multi-party authorization primitive: a wallet jointly owned by a fixed
//! set of identities, where a quorum (threshold) of owners must approve a
//! proposed transaction before it can be executed exactly once.
//!
//! The crate is organised around a small state machine:
//! - [`keys`] — plain-value identities (public keys) compared by equality.
//! - [`errors`] — the error taxonomy of the four operations.
//! - [`state`] — the persisted records (`Multisig`, `Transaction`), their
//!   mathematical views and well-formedness invariants.
//! - [`transitions`] — specification-level transition functions that say
//!   exactly what each operation returns and how it changes the records.
//! - [`program`] — the executable operations, each proved to implement its
//!   transition function.
//! - [`store`] — a keyed store that owns the records and exposes the
//!   id-based operation surface, with capacity validation at its boundary.
//! - [`laws`] — proved laws of the state machine (idempotence of approval,
//!   the one-way execute transition, frozen approvals, ...).

pub mod errors;
pub mod keys;
pub mod laws;
pub mod program;
pub mod state;
pub mod store;
pub mod transitions;
