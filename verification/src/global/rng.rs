//! The process-wide holder of the fast generator kind.

use vstd::prelude::*;

use turborand::prelude::Rng;

use crate::perm::{apply_selection, is_distinct_selection};
use crate::source::fast::{
    rng_eq, rng_fill_bytes, rng_fork, rng_new, rng_reseed, rng_restore, rng_sample,
    rng_sample_multiple, rng_shuffle, rng_snapshot, rng_with_seed, wy_fill_next, wy_fill_out,
    wy_msel, wy_msel_next, wy_out, wy_perm, wy_perm_next, wy_sample_index, wy_sample_next,
    wy_seed_state, wy_state, wy_step,
};

verus! {

/// A process-wide holder of the fast generator kind, meant to be created
/// once and then used only to originate seeds for entity-scoped holders.
/// All draws from it must happen in one host-ordered sequence for a run to
/// be reproducible.
pub struct GlobalRng(pub Rng);

impl GlobalRng {
    /// The state word this holder's generator currently holds.
    pub open spec fn state(&self) -> u64 {
        wy_state(self.0)
    }

    /// Create a global holder with a randomised seed. Not deterministic:
    /// nothing is promised of the resulting state.
    pub fn new() -> Self {
        GlobalRng(rng_new())
    }

    /// Create a global holder from an explicit seed.
    pub fn with_seed(seed: u64) -> (g: Self)
        ensures
            g.state() == wy_seed_state(seed),
    {
        GlobalRng(rng_with_seed(seed))
    }

    /// Exclusive access to the inner generator. The holder's state after the
    /// borrow is whatever the borrow leaves behind.
    pub fn get_mut(&mut self) -> (src: &mut Rng)
        ensures
            *src == old(self).0,
            final(self).0 == *final(src),
    {
        &mut self.0
    }

    /// Replace the state word with `seed` exactly, discarding the prior
    /// state.
    pub fn reseed(&mut self, seed: u64)
        ensures
            final(self).state() == seed,
    {
        rng_reseed(&mut self.0, seed);
    }

    /// Derive an independently seeded generator: the holder advances one
    /// step and the child starts from the holder's output word.
    pub fn fork(&mut self) -> (child: Rng)
        ensures
            final(self).state() == wy_step(old(self).state()),
            wy_state(child) == wy_out(old(self).state()),
    {
        rng_fork(&mut self.0)
    }

    /// Overwrite the whole buffer with raw output, deterministically in the
    /// state before the call.
    pub fn fill_bytes(&mut self, buffer: &mut Vec<u8>)
        ensures
            final(buffer)@.len() == old(buffer)@.len(),
            final(buffer)@ == wy_fill_out(old(self).state(), old(buffer)@.len() as nat),
            final(self).state() == wy_fill_next(old(self).state(), old(buffer)@.len() as nat),
    {
        rng_fill_bytes(&mut self.0, buffer);
    }

    /// Shuffle the elements in place: the result holds exactly the elements
    /// given, reordered by an index permutation determined by the state and
    /// the length.
    pub fn shuffle<T>(&mut self, items: &mut Vec<T>)
        ensures
            final(items)@.len() == old(items)@.len(),
            final(items)@.to_multiset() == old(items)@.to_multiset(),
            old(items)@.len() < 2 ==> final(items)@ == old(items)@ && final(self).state() == old(
                self,
            ).state(),
            old(items)@.len() >= 2 ==> final(items)@ == apply_selection(
                old(items)@,
                wy_perm(old(self).state(), old(items)@.len() as usize),
            ) && final(self).state() == wy_perm_next(
                old(self).state(),
                old(items)@.len() as usize,
            ),
    {
        let ghost orig = items@;
        let ghost s = wy_state(self.0);
        rng_shuffle(&mut self.0, items);
        proof {
            if orig.len() >= 2 {
                crate::perm::lemma_apply_permutation_multiset(
                    orig,
                    wy_perm(s, orig.len() as usize),
                );
            }
        }
    }

    /// Draw one element, or nothing from an empty slice. A slice of two or
    /// more costs one bounded index draw; the chosen position is a function
    /// of the state and the length.
    pub fn sample<'a, T>(&mut self, list: &'a [T]) -> (out: Option<&'a T>)
        ensures
            final(self).state() == wy_sample_next(old(self).state(), list@.len()),
            out is Some <==> list@.len() > 0,
            out is Some ==> 0 <= wy_sample_index(old(self).state(), list@.len()) < list@.len(),
            out is Some ==> *out->Some_0 == list@[wy_sample_index(old(self).state(), list@.len())],
    {
        rng_sample(&mut self.0, list)
    }

    /// Draw `amount` elements without replacement: as many distinct
    /// positions as the slice can supply, every one below the length, never
    /// a duplicate.
    pub fn sample_multiple<'a, T>(&mut self, list: &'a [T], amount: usize) -> (out: Vec<&'a T>)
        ensures
            final(self).state() == wy_msel_next(old(self).state(), list@.len() as usize, amount),
            out@.len() == (if amount < list@.len() { amount as int } else { list@.len() as int }),
            out@.len() > 0 ==> is_distinct_selection(
                wy_msel(old(self).state(), list@.len() as usize, amount),
                list@.len() as int,
            ),
            forall|i: int|
                0 <= i < out@.len() ==> *#[trigger] out@[i] == list@[wy_msel(
                    old(self).state(),
                    list@.len() as usize,
                    amount,
                )[i]],
    {
        rng_sample_multiple(&mut self.0, list, amount)
    }

    /// The state word, read without disturbing the generator; with
    /// [`GlobalRng::restore`] this is the persistence surface of the fast
    /// kind.
    pub fn snapshot(&self) -> (word: u64)
        ensures
            word == self.state(),
    {
        rng_snapshot(&self.0)
    }

    /// Rebuild a holder from a captured state word: the restored holder
    /// draws exactly as the captured one would have.
    pub fn restore(word: u64) -> (g: Self)
        ensures
            g.state() == word,
    {
        GlobalRng(rng_restore(word))
    }

    /// Whether two holders are in the same state, and so would produce the
    /// same stream from here on.
    pub fn state_eq(&self, other: &Self) -> (out: bool)
        ensures
            out == (self.state() == other.state()),
    {
        rng_eq(&self.0, &other.0)
    }
}

/// A defaulted global holder is randomly seeded, exactly as
/// [`GlobalRng::new`] is, so nothing is promised of its state.
impl Default for GlobalRng {
    fn default() -> Self {
        Self::new()
    }
}

} // verus!
