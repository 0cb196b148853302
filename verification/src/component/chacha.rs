//! The entity-scoped holder of the secure generator kind.
//!
//! A secure holder can be created or seeded only from secure sources: there
//! is no construction path from the fast kind, so a weak source can never
//! masquerade as a strong one.

use vstd::prelude::*;

use turborand::prelude::ChaChaRng;

use crate::global::chacha::GlobalChaChaRng;
use crate::perm::{apply_selection, is_distinct_selection};
use crate::source::secure::{
    cc_fill_next, cc_fill_pick, cc_gen40_next, cc_gen40_pick, cc_msel, cc_msel_next, cc_perm,
    cc_perm_next, cc_sample_index, cc_sample_next, cc_seed_state, cc_state, cc_u32_next,
    cc_u32_pick, cc_u64_next, cc_u64_pick, chacha_eq, chacha_fill_bytes, chacha_fork,
    chacha_gen_seed, chacha_new, chacha_reseed, chacha_sample, chacha_sample_multiple,
    chacha_shuffle, chacha_u32_inclusive, chacha_u64_inclusive, chacha_with_seed,
};

verus! {

/// An entity-scoped holder of the secure generator kind. One instance
/// belongs to one entity; every operation below advances the held cipher
/// state deterministically.
pub struct ChaChaRngComponent(pub ChaChaRng);

impl ChaChaRngComponent {
    /// The cipher state this holder's generator currently holds.
    pub open spec fn state(&self) -> Seq<u32> {
        cc_state(self.0)
    }

    /// Create a holder with a randomised seed. Not deterministic: nothing is
    /// promised of the resulting state.
    pub fn new() -> Self {
        ChaChaRngComponent(chacha_new())
    }

    /// Create a holder from an explicit forty-byte seed.
    pub fn with_seed(seed: [u8; 40]) -> (c: Self)
        ensures
            c.state() == cc_seed_state(seed@),
    {
        ChaChaRngComponent(chacha_with_seed(seed))
    }

    /// Seed a fresh holder from a raw secure generator: forty keystream
    /// bytes are drawn from the source and used as the explicit seed.
    pub fn from_secure(source: &mut ChaChaRng) -> (c: Self)
        ensures
            c.state() == cc_seed_state(cc_gen40_pick(cc_state(*old(source)))),
            cc_state(*final(source)) == cc_gen40_next(cc_state(*old(source))),
    {
        let seed = chacha_gen_seed(source);
        ChaChaRngComponent(chacha_with_seed(seed))
    }

    /// Seed a fresh holder from any source with the secure capability. A
    /// fast source cannot stand here: it does not grant the capability, so
    /// the call would not type-check — the quality rule needs no runtime
    /// check.
    pub fn from_source<S: crate::traits::SecureSeedSource>(source: &mut S) -> (c: Self)
        ensures
            c.state() == cc_seed_state(cc_gen40_pick(old(source).cipher())),
            final(source).cipher() == cc_gen40_next(old(source).cipher()),
    {
        let seed = source.draw_seed_block();
        ChaChaRngComponent(chacha_with_seed(seed))
    }

    /// Seed a fresh holder from the secure global holder, advancing it by
    /// one forty-byte draw.
    pub fn from_global(global: &mut GlobalChaChaRng) -> (c: Self)
        ensures
            c.state() == cc_seed_state(cc_gen40_pick(old(global).state())),
            final(global).state() == cc_gen40_next(old(global).state()),
    {
        Self::from_secure(global.get_mut())
    }

    /// Seed a fresh holder from another secure entity holder, advancing it
    /// by one forty-byte draw.
    pub fn from_component(other: &mut ChaChaRngComponent) -> (c: Self)
        ensures
            c.state() == cc_seed_state(cc_gen40_pick(old(other).state())),
            final(other).state() == cc_gen40_next(old(other).state()),
    {
        Self::from_secure(&mut other.0)
    }

    /// Exclusive access to the inner generator. The holder's state after the
    /// borrow is whatever the borrow leaves behind.
    pub fn get_mut(&mut self) -> (src: &mut ChaChaRng)
        ensures
            *src == old(self).0,
            final(self).0 == *final(src),
    {
        &mut self.0
    }

    /// Reinitialise from a fresh forty-byte seed, discarding the prior
    /// state.
    pub fn reseed(&mut self, seed: [u8; 40])
        ensures
            final(self).state() == cc_seed_state(seed@),
    {
        chacha_reseed(&mut self.0, seed);
    }

    /// Derive an independently seeded generator: the child is seeded from
    /// forty keystream bytes drawn from this holder.
    pub fn fork(&mut self) -> (child: ChaChaRng)
        ensures
            cc_state(child) == cc_seed_state(cc_gen40_pick(old(self).state())),
            final(self).state() == cc_gen40_next(old(self).state()),
    {
        chacha_fork(&mut self.0)
    }

    /// A ranged `u32` draw over the inclusive, non-empty range `[lo, hi]`.
    pub fn u32_inclusive(&mut self, lo: u32, hi: u32) -> (out: u32)
        requires
            lo <= hi,
        ensures
            lo <= out <= hi,
            out == cc_u32_pick(old(self).state(), lo, hi),
            final(self).state() == cc_u32_next(old(self).state(), lo, hi),
    {
        chacha_u32_inclusive(&mut self.0, lo, hi)
    }

    /// A ranged `u32` draw over the half-open, non-empty range `[lo, hi)`,
    /// materialised as the inclusive range `[lo, hi - 1]`.
    pub fn u32_range(&mut self, lo: u32, hi: u32) -> (out: u32)
        requires
            lo < hi,
        ensures
            lo <= out < hi,
            out == cc_u32_pick(old(self).state(), lo, (hi - 1) as u32),
            final(self).state() == cc_u32_next(old(self).state(), lo, (hi - 1) as u32),
    {
        self.u32_inclusive(lo, hi - 1)
    }

    /// A ranged `u64` draw over the inclusive, non-empty range `[lo, hi]`.
    pub fn u64_inclusive(&mut self, lo: u64, hi: u64) -> (out: u64)
        requires
            lo <= hi,
        ensures
            lo <= out <= hi,
            out == cc_u64_pick(old(self).state(), lo, hi),
            final(self).state() == cc_u64_next(old(self).state(), lo, hi),
    {
        chacha_u64_inclusive(&mut self.0, lo, hi)
    }

    /// Overwrite the whole buffer with keystream bytes, deterministically in
    /// the state before the call.
    pub fn fill_bytes(&mut self, buffer: &mut Vec<u8>)
        ensures
            final(buffer)@.len() == old(buffer)@.len(),
            final(buffer)@ == cc_fill_pick(old(self).state(), old(buffer)@.len() as usize),
            final(self).state() == cc_fill_next(old(self).state(), old(buffer)@.len() as usize),
    {
        chacha_fill_bytes(&mut self.0, buffer);
    }

    /// Shuffle the elements in place: the result holds exactly the elements
    /// given, reordered by an index permutation determined by the cipher
    /// state and the length.
    pub fn shuffle<T>(&mut self, items: &mut Vec<T>)
        ensures
            final(items)@.len() == old(items)@.len(),
            final(items)@.to_multiset() == old(items)@.to_multiset(),
            old(items)@.len() < 2 ==> final(items)@ == old(items)@ && final(self).state() == old(
                self,
            ).state(),
            old(items)@.len() >= 2 ==> final(items)@ == apply_selection(
                old(items)@,
                cc_perm(old(self).state(), old(items)@.len() as usize),
            ) && final(self).state() == cc_perm_next(
                old(self).state(),
                old(items)@.len() as usize,
            ),
    {
        let ghost orig = items@;
        let ghost s = cc_state(self.0);
        chacha_shuffle(&mut self.0, items);
        proof {
            if orig.len() >= 2 {
                crate::perm::lemma_apply_permutation_multiset(
                    orig,
                    cc_perm(s, orig.len() as usize),
                );
            }
        }
    }

    /// Draw one element, or nothing from an empty slice. A slice of two or
    /// more costs one bounded index draw; the chosen position is a function
    /// of the cipher state and the length.
    pub fn sample<'a, T>(&mut self, list: &'a [T]) -> (out: Option<&'a T>)
        ensures
            final(self).state() == cc_sample_next(old(self).state(), list@.len()),
            out is Some <==> list@.len() > 0,
            out is Some ==> 0 <= cc_sample_index(old(self).state(), list@.len()) < list@.len(),
            out is Some ==> *out->Some_0 == list@[cc_sample_index(old(self).state(), list@.len())],
    {
        chacha_sample(&mut self.0, list)
    }

    /// Draw `amount` elements without replacement: as many distinct
    /// positions as the slice can supply, every one below the length, never
    /// a duplicate.
    pub fn sample_multiple<'a, T>(&mut self, list: &'a [T], amount: usize) -> (out: Vec<&'a T>)
        ensures
            final(self).state() == cc_msel_next(old(self).state(), list@.len() as usize, amount),
            out@.len() == (if amount < list@.len() { amount as int } else { list@.len() as int }),
            out@.len() > 0 ==> is_distinct_selection(
                cc_msel(old(self).state(), list@.len() as usize, amount),
                list@.len() as int,
            ),
            forall|i: int|
                0 <= i < out@.len() ==> *#[trigger] out@[i] == list@[cc_msel(
                    old(self).state(),
                    list@.len() as usize,
                    amount,
                )[i]],
    {
        chacha_sample_multiple(&mut self.0, list, amount)
    }

    /// Whether two holders are in the same state, and so would produce the
    /// same stream from here on.
    pub fn state_eq(&self, other: &Self) -> (out: bool)
        ensures
            out == (self.state() == other.state()),
    {
        chacha_eq(&self.0, &other.0)
    }
}

/// A defaulted holder is randomly seeded, exactly as
/// [`ChaChaRngComponent::new`] is, so nothing is promised of its state.
impl Default for ChaChaRngComponent {
    fn default() -> Self {
        Self::new()
    }
}

} // verus!
