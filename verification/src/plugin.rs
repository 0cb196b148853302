//! Startup configuration for the global holders.
//!
//! [`RngPlugin`] gathers the optional explicit seeds a simulation wants its
//! global holders created with. The host's startup glue asks it to build
//! the holders once and installs them; everything the build decides — seed
//! or randomised start — is settled here, under contract.

use vstd::prelude::*;

use crate::global::chacha::GlobalChaChaRng;
use crate::global::rng::GlobalRng;
use crate::source::fast::wy_seed_state;
use crate::source::secure::cc_seed_state;

verus! {

/// The seeds, if any, to create the global holders with. Without a seed a
/// holder starts randomised, and the run is not reproducible.
pub struct RngPlugin {
    /// The explicit seed for the fast global holder.
    pub rng: Option<u64>,
    /// The explicit seed for the secure global holder.
    pub chacha: Option<[u8; 40]>,
}

impl RngPlugin {
    /// A configuration with no seeds: both global holders will start
    /// randomised.
    pub fn new() -> (p: Self)
        ensures
            p.rng is None,
            p.chacha is None,
    {
        RngPlugin { rng: None, chacha: None }
    }

    /// Set the explicit seed for the fast global holder.
    pub fn with_rng_seed(self, seed: u64) -> (p: Self)
        ensures
            p.rng == Some(seed),
            p.chacha == self.chacha,
    {
        RngPlugin { rng: Some(seed), ..self }
    }

    /// Set the explicit seed for the secure global holder.
    pub fn with_chacha_seed(self, seed: [u8; 40]) -> (p: Self)
        ensures
            p.chacha == Some(seed),
            p.rng == self.rng,
    {
        RngPlugin { chacha: Some(seed), ..self }
    }

    /// Build the fast global holder this configuration asks for: seeded
    /// exactly when a seed was given, randomised otherwise.
    pub fn build_global_rng(&self) -> (g: GlobalRng)
        ensures
            self.rng matches Some(seed) ==> g.state() == wy_seed_state(seed),
    {
        match self.rng {
            Some(seed) => GlobalRng::with_seed(seed),
            None => GlobalRng::new(),
        }
    }

    /// Build the secure global holder this configuration asks for: seeded
    /// exactly when a seed was given, randomised otherwise.
    pub fn build_global_chacha(&self) -> (g: GlobalChaChaRng)
        ensures
            self.chacha matches Some(seed) ==> g.state() == cc_seed_state(seed@),
    {
        match self.chacha {
            Some(seed) => GlobalChaChaRng::with_seed(seed),
            None => GlobalChaChaRng::new(),
        }
    }
}

/// The defaulted configuration carries no seeds, exactly as
/// [`RngPlugin::new`] does.
impl Default for RngPlugin {
    fn default() -> (p: Self)
        ensures
            p.rng is None,
            p.chacha is None,
    {
        Self::new()
    }
}

} // verus!
