//! Entity-scoped holders, one attached to each simulation entity.
//!
//! An entity holder owns exactly one generator state and is the unit of
//! determinism: its outputs are a function of its seed and the ordered
//! sequence of operations applied to it, whatever other holders do
//! concurrently. The host must give each holder one exclusive accessor at a
//! time; nothing here needs a lock because nothing here is shared.

pub mod chacha;
pub mod rng;
pub mod secure;
