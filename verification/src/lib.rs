//! Deterministic random-number distribution for simulations built out of many
//! independently updated entities.
//!
//! The crate wraps the generators of [`turborand`] — a fast WyRand stream and a
//! cryptographically secure ChaCha8 stream — in *holder* types: one global
//! holder per generator kind, used only to originate seeds, and entity-scoped
//! holders that each own exactly one generator state. Every derived operation
//! (ranged draws, character draws, shuffling, sampling, byte filling) is
//! exposed on the holders with a contract that pins the result and the
//! successor state as a function of the state before the call, which is what
//! makes per-entity determinism provable: a holder's outputs depend only on
//! its seed and the ordered sequence of operations applied to it.
//!
//! Seeding follows a quality rule enforced by the type system: the fast kind
//! may seed only the fast kind, while the secure kind may seed both kinds.
//! There is no runtime check to bypass — a construction path from a weak
//! source to a secure holder simply does not type-check.

pub mod component;
pub mod global;
pub mod laws;
pub mod perm;
pub mod plugin;
pub mod prelude;
pub mod source;
pub mod traits;
