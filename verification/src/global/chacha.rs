//! The process-wide holder of the secure generator kind.

use vstd::prelude::*;

use turborand::prelude::ChaChaRng;

use crate::source::secure::{
    cc_gen40_next, cc_gen40_pick, cc_seed_state, cc_state, chacha_eq, chacha_fork, chacha_new,
    chacha_reseed, chacha_with_seed,
};

verus! {

/// A process-wide holder of the secure generator kind, meant to be created
/// once and then used only to originate seeds — for secure holders and, the
/// quality rule permitting, for fast ones.
pub struct GlobalChaChaRng(pub ChaChaRng);

impl GlobalChaChaRng {
    /// The cipher state this holder's generator currently holds.
    pub open spec fn state(&self) -> Seq<u32> {
        cc_state(self.0)
    }

    /// Create a global holder with a randomised seed. Not deterministic:
    /// nothing is promised of the resulting state.
    pub fn new() -> Self {
        GlobalChaChaRng(chacha_new())
    }

    /// Create a global holder from an explicit forty-byte seed.
    pub fn with_seed(seed: [u8; 40]) -> (g: Self)
        ensures
            g.state() == cc_seed_state(seed@),
    {
        GlobalChaChaRng(chacha_with_seed(seed))
    }

    /// Exclusive access to the inner generator. The holder's state after the
    /// borrow is whatever the borrow leaves behind.
    pub fn get_mut(&mut self) -> (src: &mut ChaChaRng)
        ensures
            *src == old(self).0,
            final(self).0 == *final(src),
    {
        &mut self.0
    }

    /// Reinitialise from a fresh forty-byte seed, discarding the prior
    /// state.
    pub fn reseed(&mut self, seed: [u8; 40])
        ensures
            final(self).state() == cc_seed_state(seed@),
    {
        chacha_reseed(&mut self.0, seed);
    }

    /// Derive an independently seeded generator: the child is seeded from
    /// forty keystream bytes drawn from this holder.
    pub fn fork(&mut self) -> (child: ChaChaRng)
        ensures
            cc_state(child) == cc_seed_state(cc_gen40_pick(old(self).state())),
            final(self).state() == cc_gen40_next(old(self).state()),
    {
        chacha_fork(&mut self.0)
    }

    /// Whether two holders are in the same state, and so would produce the
    /// same stream from here on.
    pub fn state_eq(&self, other: &Self) -> (out: bool)
        ensures
            out == (self.state() == other.state()),
    {
        chacha_eq(&self.0, &other.0)
    }
}

/// A defaulted global holder is randomly seeded, exactly as
/// [`GlobalChaChaRng::new`] is, so nothing is promised of its state.
impl Default for GlobalChaChaRng {
    fn default() -> Self {
        Self::new()
    }
}

} // verus!
