//! An entity-scoped secure holder under its historical name.
//!
//! [`SecureRngComponent`] is the same secure kind as
//! [`ChaChaRngComponent`](crate::component::chacha::ChaChaRngComponent) —
//! one ChaCha8 generator state — kept for hosts that address the secure
//! kind by this name. Like it, it can be created or seeded only from secure
//! sources.

use vstd::prelude::*;

use turborand::prelude::ChaChaRng;

use crate::global::secure::GlobalSecureRng;
use crate::source::secure::{
    cc_gen40_next, cc_gen40_pick, cc_seed_state, cc_state, cc_u32_next, cc_u32_pick, chacha_eq,
    chacha_fork, chacha_gen_seed, chacha_new, chacha_reseed, chacha_u32_inclusive,
    chacha_with_seed,
};

verus! {

/// An entity-scoped holder of the secure generator kind.
pub struct SecureRngComponent(pub ChaChaRng);

impl SecureRngComponent {
    /// The cipher state this holder's generator currently holds.
    pub open spec fn state(&self) -> Seq<u32> {
        cc_state(self.0)
    }

    /// Create a holder with a randomised seed. Not deterministic: nothing is
    /// promised of the resulting state.
    pub fn new() -> Self {
        SecureRngComponent(chacha_new())
    }

    /// Create a holder from an explicit forty-byte seed.
    pub fn with_seed(seed: [u8; 40]) -> (c: Self)
        ensures
            c.state() == cc_seed_state(seed@),
    {
        SecureRngComponent(chacha_with_seed(seed))
    }

    /// Seed a fresh holder from a raw secure generator: forty keystream
    /// bytes are drawn from the source and used as the explicit seed.
    pub fn from_secure(source: &mut ChaChaRng) -> (c: Self)
        ensures
            c.state() == cc_seed_state(cc_gen40_pick(cc_state(*old(source)))),
            cc_state(*final(source)) == cc_gen40_next(cc_state(*old(source))),
    {
        let seed = chacha_gen_seed(source);
        SecureRngComponent(chacha_with_seed(seed))
    }

    /// Seed a fresh holder from any source with the secure capability. A
    /// fast source cannot stand here: it does not grant the capability, so
    /// the call would not type-check.
    pub fn from_source<S: crate::traits::SecureSeedSource>(source: &mut S) -> (c: Self)
        ensures
            c.state() == cc_seed_state(cc_gen40_pick(old(source).cipher())),
            final(source).cipher() == cc_gen40_next(old(source).cipher()),
    {
        let seed = source.draw_seed_block();
        SecureRngComponent(chacha_with_seed(seed))
    }

    /// Seed a fresh holder from the secure global holder, advancing it by
    /// one forty-byte draw.
    pub fn from_global(global: &mut GlobalSecureRng) -> (c: Self)
        ensures
            c.state() == cc_seed_state(cc_gen40_pick(old(global).state())),
            final(global).state() == cc_gen40_next(old(global).state()),
    {
        Self::from_secure(global.get_mut())
    }

    /// Exclusive access to the inner generator. The holder's state after the
    /// borrow is whatever the borrow leaves behind.
    pub fn get_mut(&mut self) -> (src: &mut ChaChaRng)
        ensures
            *src == old(self).0,
            final(self).0 == *final(src),
    {
        &mut self.0
    }

    /// Reinitialise from a fresh forty-byte seed, discarding the prior
    /// state.
    pub fn reseed(&mut self, seed: [u8; 40])
        ensures
            final(self).state() == cc_seed_state(seed@),
    {
        chacha_reseed(&mut self.0, seed);
    }

    /// Derive an independently seeded generator: the child is seeded from
    /// forty keystream bytes drawn from this holder.
    pub fn fork(&mut self) -> (child: ChaChaRng)
        ensures
            cc_state(child) == cc_seed_state(cc_gen40_pick(old(self).state())),
            final(self).state() == cc_gen40_next(old(self).state()),
    {
        chacha_fork(&mut self.0)
    }

    /// A ranged `u32` draw over the inclusive, non-empty range `[lo, hi]`.
    pub fn u32_inclusive(&mut self, lo: u32, hi: u32) -> (out: u32)
        requires
            lo <= hi,
        ensures
            lo <= out <= hi,
            out == cc_u32_pick(old(self).state(), lo, hi),
            final(self).state() == cc_u32_next(old(self).state(), lo, hi),
    {
        chacha_u32_inclusive(&mut self.0, lo, hi)
    }

    /// Whether two holders are in the same state, and so would produce the
    /// same stream from here on.
    pub fn state_eq(&self, other: &Self) -> (out: bool)
        ensures
            out == (self.state() == other.state()),
    {
        chacha_eq(&self.0, &other.0)
    }
}

/// A defaulted holder is randomly seeded, exactly as
/// [`SecureRngComponent::new`] is, so nothing is promised of its state.
impl Default for SecureRngComponent {
    fn default() -> Self {
        Self::new()
    }
}

} // verus!
