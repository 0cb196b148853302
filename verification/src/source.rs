//! Trusted boundary around the two concrete generators of [`turborand`].
//!
//! Each submodule declares one generator type as opaque, gives its held state
//! a spec-level name, and wraps every method the holders rely on in a small
//! trusted function whose contract records what the generator's source shows:
//! how the state advances and how the result depends on the state before the
//! call.

pub mod fast;
pub mod secure;
