//! Process-wide holders, one per generator kind.
//!
//! A global holder is created once, at simulation start, and exists to
//! originate seeds for entity-scoped holders. Draws from a global holder
//! must be serialised by the host into one total order for a run to be
//! reproducible; every contract here makes that order the only thing that
//! matters, by fixing each result as a function of the state before the
//! call.

pub mod chacha;
pub mod rng;
pub mod secure;
