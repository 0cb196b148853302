//! The entity-scoped holder of the fast generator kind, carrying the full
//! catalogue of delegated operations.

use vstd::prelude::*;

use turborand::prelude::{ChaChaRng, Rng};

use crate::global::rng::GlobalRng;
use crate::perm::{apply_selection, is_distinct_selection};
use crate::source::fast::{
    rng_alphabetic, rng_alphanumeric, rng_bool, rng_char_inclusive, rng_digit, rng_eq,
    rng_fill_bytes, rng_fork, rng_gen_u64, rng_i128_inclusive, rng_i16_inclusive,
    rng_i32_inclusive, rng_i64_inclusive, rng_i8_inclusive, rng_lowercase, rng_new, rng_reseed,
    rng_restore, rng_sample, rng_sample_multiple, rng_shuffle, rng_snapshot, rng_u128_inclusive,
    rng_u16_inclusive, rng_u32_inclusive, rng_u64_inclusive, rng_u8_inclusive, rng_uppercase,
    rng_with_seed, wy_alphabetic_next, wy_alphabetic_pick, wy_alphanumeric_next,
    wy_alphanumeric_pick, wy_char_next, wy_char_pick, wy_digit_next, wy_digit_pick, wy_fill_next,
    wy_fill_out, wy_i128_next, wy_i128_pick, wy_i16_next, wy_i16_pick, wy_i32_next, wy_i32_pick,
    wy_i64_next, wy_i64_pick, wy_i8_next, wy_i8_pick, wy_lowercase_next, wy_lowercase_pick,
    wy_msel, wy_msel_next, wy_out, wy_perm, wy_perm_next, wy_sample_index, wy_sample_next,
    wy_seed_state, wy_state, wy_step, wy_u128_next, wy_u128_pick, wy_u16_next, wy_u16_pick,
    wy_u32_next, wy_u32_pick, wy_u64_next, wy_u64_pick, wy_u8_next, wy_u8_pick, wy_uppercase_next,
    wy_uppercase_pick,
};
use crate::source::secure::{cc_gen_u64_next, cc_gen_u64_pick, cc_state};

verus! {

/// An entity-scoped holder of the fast generator kind. One instance belongs
/// to one entity; every operation below advances the held state
/// deterministically, so two holders seeded alike and driven alike produce
/// the same outputs.
pub struct RngComponent(pub Rng);

impl RngComponent {
    /// The state word this holder's generator currently holds.
    pub open spec fn state(&self) -> u64 {
        wy_state(self.0)
    }

    /// Create a holder with a randomised seed. Not deterministic: nothing is
    /// promised of the resulting state.
    pub fn new() -> Self {
        RngComponent(rng_new())
    }

    /// Create a holder from an explicit seed.
    pub fn with_seed(seed: u64) -> (c: Self)
        ensures
            c.state() == wy_seed_state(seed),
    {
        RngComponent(rng_with_seed(seed))
    }

    /// Seed a fresh holder from a raw fast generator: one word is drawn from
    /// the source and used as the explicit seed.
    pub fn from_rng(source: &mut Rng) -> (c: Self)
        ensures
            c.state() == wy_seed_state(wy_out(wy_state(*old(source)))),
            wy_state(*final(source)) == wy_step(wy_state(*old(source))),
    {
        let seed = rng_gen_u64(source);
        RngComponent(rng_with_seed(seed))
    }

    /// Seed a fresh holder from the fast global holder, advancing it one
    /// step; deriving entity holders this way in a fixed creation order is
    /// what makes a whole run reproducible from one seed.
    pub fn from_global(global: &mut GlobalRng) -> (c: Self)
        ensures
            c.state() == wy_seed_state(wy_out(old(global).state())),
            final(global).state() == wy_step(old(global).state()),
    {
        Self::from_rng(global.get_mut())
    }

    /// Seed a fresh holder from another entity holder, advancing it one
    /// step.
    pub fn from_component(other: &mut RngComponent) -> (c: Self)
        ensures
            c.state() == wy_seed_state(wy_out(old(other).state())),
            final(other).state() == wy_step(old(other).state()),
    {
        Self::from_rng(&mut other.0)
    }

    /// Seed a fresh holder from any source with the seed-word capability:
    /// the fast kind accepts seed material of either quality.
    pub fn from_source<S: crate::traits::SeedSource>(source: &mut S) -> (c: Self)
        ensures
            c.state() == wy_seed_state(S::word_of(old(source).model())),
            final(source).model() == S::stepped(old(source).model()),
    {
        let seed = source.draw_seed_word();
        RngComponent(rng_with_seed(seed))
    }

    /// Seed a fresh fast holder from a secure generator. The quality rule
    /// allows this direction — a stronger source may seed a weaker kind —
    /// while the opposite construction does not exist.
    pub fn from_secure(source: &mut ChaChaRng) -> (c: Self)
        ensures
            c.state() == wy_seed_state(cc_gen_u64_pick(cc_state(*old(source)))),
            cc_state(*final(source)) == cc_gen_u64_next(cc_state(*old(source))),
    {
        let seed = crate::source::secure::chacha_gen_u64(source);
        RngComponent(rng_with_seed(seed))
    }

    /// Exclusive access to the inner generator. The holder's state after the
    /// borrow is whatever the borrow leaves behind.
    pub fn get_mut(&mut self) -> (src: &mut Rng)
        ensures
            *src == old(self).0,
            final(self).0 == *final(src),
    {
        &mut self.0
    }

    /// Replace the state word with `seed` exactly, discarding the prior
    /// state.
    pub fn reseed(&mut self, seed: u64)
        ensures
            final(self).state() == seed,
    {
        rng_reseed(&mut self.0, seed);
    }

    /// Derive an independently seeded generator: the holder advances one
    /// step and the child starts from the holder's output word.
    pub fn fork(&mut self) -> (child: Rng)
        ensures
            final(self).state() == wy_step(old(self).state()),
            wy_state(child) == wy_out(old(self).state()),
    {
        rng_fork(&mut self.0)
    }

    /// A ranged `u8` draw over the inclusive, non-empty range `[lo, hi]`.
    pub fn u8_inclusive(&mut self, lo: u8, hi: u8) -> (out: u8)
        requires
            lo <= hi,
        ensures
            lo <= out <= hi,
            out == wy_u8_pick(old(self).state(), lo, hi),
            final(self).state() == wy_u8_next(old(self).state(), lo, hi),
    {
        rng_u8_inclusive(&mut self.0, lo, hi)
    }

    /// A ranged `u16` draw over the inclusive, non-empty range `[lo, hi]`.
    pub fn u16_inclusive(&mut self, lo: u16, hi: u16) -> (out: u16)
        requires
            lo <= hi,
        ensures
            lo <= out <= hi,
            out == wy_u16_pick(old(self).state(), lo, hi),
            final(self).state() == wy_u16_next(old(self).state(), lo, hi),
    {
        rng_u16_inclusive(&mut self.0, lo, hi)
    }

    /// A ranged `u32` draw over the inclusive, non-empty range `[lo, hi]`.
    pub fn u32_inclusive(&mut self, lo: u32, hi: u32) -> (out: u32)
        requires
            lo <= hi,
        ensures
            lo <= out <= hi,
            out == wy_u32_pick(old(self).state(), lo, hi),
            final(self).state() == wy_u32_next(old(self).state(), lo, hi),
    {
        rng_u32_inclusive(&mut self.0, lo, hi)
    }

    /// A ranged `u32` draw over the half-open, non-empty range `[lo, hi)`,
    /// materialised as the inclusive range `[lo, hi - 1]`.
    pub fn u32_range(&mut self, lo: u32, hi: u32) -> (out: u32)
        requires
            lo < hi,
        ensures
            lo <= out < hi,
            out == wy_u32_pick(old(self).state(), lo, (hi - 1) as u32),
            final(self).state() == wy_u32_next(old(self).state(), lo, (hi - 1) as u32),
    {
        self.u32_inclusive(lo, hi - 1)
    }

    /// A ranged `u64` draw over the inclusive, non-empty range `[lo, hi]`.
    pub fn u64_inclusive(&mut self, lo: u64, hi: u64) -> (out: u64)
        requires
            lo <= hi,
        ensures
            lo <= out <= hi,
            out == wy_u64_pick(old(self).state(), lo, hi),
            final(self).state() == wy_u64_next(old(self).state(), lo, hi),
    {
        rng_u64_inclusive(&mut self.0, lo, hi)
    }

    /// A ranged `u64` draw over the half-open, non-empty range `[lo, hi)`.
    pub fn u64_range(&mut self, lo: u64, hi: u64) -> (out: u64)
        requires
            lo < hi,
        ensures
            lo <= out < hi,
            out == wy_u64_pick(old(self).state(), lo, (hi - 1) as u64),
            final(self).state() == wy_u64_next(old(self).state(), lo, (hi - 1) as u64),
    {
        self.u64_inclusive(lo, hi - 1)
    }

    /// A ranged `u128` draw over the inclusive, non-empty range `[lo, hi]`.
    pub fn u128_inclusive(&mut self, lo: u128, hi: u128) -> (out: u128)
        requires
            lo <= hi,
        ensures
            lo <= out <= hi,
            out == wy_u128_pick(old(self).state(), lo, hi),
            final(self).state() == wy_u128_next(old(self).state(), lo, hi),
    {
        rng_u128_inclusive(&mut self.0, lo, hi)
    }

    /// A ranged `i8` draw over the inclusive, non-empty range `[lo, hi]`.
    pub fn i8_inclusive(&mut self, lo: i8, hi: i8) -> (out: i8)
        requires
            lo <= hi,
        ensures
            lo <= out <= hi,
            out == wy_i8_pick(old(self).state(), lo, hi),
            final(self).state() == wy_i8_next(old(self).state(), lo, hi),
    {
        rng_i8_inclusive(&mut self.0, lo, hi)
    }

    /// A ranged `i16` draw over the inclusive, non-empty range `[lo, hi]`.
    pub fn i16_inclusive(&mut self, lo: i16, hi: i16) -> (out: i16)
        requires
            lo <= hi,
        ensures
            lo <= out <= hi,
            out == wy_i16_pick(old(self).state(), lo, hi),
            final(self).state() == wy_i16_next(old(self).state(), lo, hi),
    {
        rng_i16_inclusive(&mut self.0, lo, hi)
    }

    /// A ranged `i32` draw over the inclusive, non-empty range `[lo, hi]`.
    pub fn i32_inclusive(&mut self, lo: i32, hi: i32) -> (out: i32)
        requires
            lo <= hi,
        ensures
            lo <= out <= hi,
            out == wy_i32_pick(old(self).state(), lo, hi),
            final(self).state() == wy_i32_next(old(self).state(), lo, hi),
    {
        rng_i32_inclusive(&mut self.0, lo, hi)
    }

    /// A ranged `i64` draw over the inclusive, non-empty range `[lo, hi]`.
    pub fn i64_inclusive(&mut self, lo: i64, hi: i64) -> (out: i64)
        requires
            lo <= hi,
        ensures
            lo <= out <= hi,
            out == wy_i64_pick(old(self).state(), lo, hi),
            final(self).state() == wy_i64_next(old(self).state(), lo, hi),
    {
        rng_i64_inclusive(&mut self.0, lo, hi)
    }

    /// A ranged `i128` draw over the inclusive, non-empty range `[lo, hi]`.
    pub fn i128_inclusive(&mut self, lo: i128, hi: i128) -> (out: i128)
        requires
            lo <= hi,
        ensures
            lo <= out <= hi,
            out == wy_i128_pick(old(self).state(), lo, hi),
            final(self).state() == wy_i128_next(old(self).state(), lo, hi),
    {
        rng_i128_inclusive(&mut self.0, lo, hi)
    }

    /// A uniform boolean draw: one state advance, true when the low byte of
    /// the output word is even.
    pub fn draw_bool(&mut self) -> (out: bool)
        ensures
            out == (wy_out(old(self).state()) as u8 % 2 == 0),
            final(self).state() == wy_step(old(self).state()),
    {
        rng_bool(&mut self.0)
    }

    /// A digit character in the given radix, `0`–`9` then `a`–`z`.
    pub fn digit(&mut self, radix: u8) -> (out: char)
        requires
            1 <= radix <= 36,
        ensures
            ('0' <= out && out <= '9') || ('a' <= out && out <= 'z'),
            out == wy_digit_pick(old(self).state(), radix),
            final(self).state() == wy_digit_next(old(self).state(), radix),
    {
        rng_digit(&mut self.0, radix)
    }

    /// A Latin letter of either case.
    pub fn alphabetic(&mut self) -> (out: char)
        ensures
            ('a' <= out && out <= 'z') || ('A' <= out && out <= 'Z'),
            out == wy_alphabetic_pick(old(self).state()),
            final(self).state() == wy_alphabetic_next(old(self).state()),
    {
        rng_alphabetic(&mut self.0)
    }

    /// A Latin letter of either case or a decimal digit.
    pub fn alphanumeric(&mut self) -> (out: char)
        ensures
            ('a' <= out && out <= 'z') || ('A' <= out && out <= 'Z') || ('0' <= out && out
                <= '9'),
            out == wy_alphanumeric_pick(old(self).state()),
            final(self).state() == wy_alphanumeric_next(old(self).state()),
    {
        rng_alphanumeric(&mut self.0)
    }

    /// A lower-case Latin letter.
    pub fn lowercase(&mut self) -> (out: char)
        ensures
            'a' <= out && out <= 'z',
            out == wy_lowercase_pick(old(self).state()),
            final(self).state() == wy_lowercase_next(old(self).state()),
    {
        rng_lowercase(&mut self.0)
    }

    /// An upper-case Latin letter.
    pub fn uppercase(&mut self) -> (out: char)
        ensures
            'A' <= out && out <= 'Z',
            out == wy_uppercase_pick(old(self).state()),
            final(self).state() == wy_uppercase_next(old(self).state()),
    {
        rng_uppercase(&mut self.0)
    }

    /// A character drawn from the inclusive, non-empty range `[lo, hi]`.
    pub fn char_inclusive(&mut self, lo: char, hi: char) -> (out: char)
        requires
            lo <= hi,
        ensures
            lo <= out && out <= hi,
            out == wy_char_pick(old(self).state(), lo, hi),
            final(self).state() == wy_char_next(old(self).state(), lo, hi),
    {
        rng_char_inclusive(&mut self.0, lo, hi)
    }

    /// Overwrite the whole buffer with raw output, deterministically in the
    /// state before the call.
    pub fn fill_bytes(&mut self, buffer: &mut Vec<u8>)
        ensures
            final(buffer)@.len() == old(buffer)@.len(),
            final(buffer)@ == wy_fill_out(old(self).state(), old(buffer)@.len() as nat),
            final(self).state() == wy_fill_next(old(self).state(), old(buffer)@.len() as nat),
    {
        rng_fill_bytes(&mut self.0, buffer);
    }

    /// Shuffle the elements in place: the result holds exactly the elements
    /// given, reordered by an index permutation determined by the state and
    /// the length.
    pub fn shuffle<T>(&mut self, items: &mut Vec<T>)
        ensures
            final(items)@.len() == old(items)@.len(),
            final(items)@.to_multiset() == old(items)@.to_multiset(),
            old(items)@.len() < 2 ==> final(items)@ == old(items)@ && final(self).state() == old(
                self,
            ).state(),
            old(items)@.len() >= 2 ==> final(items)@ == apply_selection(
                old(items)@,
                wy_perm(old(self).state(), old(items)@.len() as usize),
            ) && final(self).state() == wy_perm_next(
                old(self).state(),
                old(items)@.len() as usize,
            ),
    {
        let ghost orig = items@;
        let ghost s = wy_state(self.0);
        rng_shuffle(&mut self.0, items);
        proof {
            if orig.len() >= 2 {
                crate::perm::lemma_apply_permutation_multiset(
                    orig,
                    wy_perm(s, orig.len() as usize),
                );
            }
        }
    }

    /// Draw one element, or nothing from an empty slice. A slice of two or
    /// more costs one bounded index draw; the chosen position is a function
    /// of the state and the length.
    pub fn sample<'a, T>(&mut self, list: &'a [T]) -> (out: Option<&'a T>)
        ensures
            final(self).state() == wy_sample_next(old(self).state(), list@.len()),
            out is Some <==> list@.len() > 0,
            out is Some ==> 0 <= wy_sample_index(old(self).state(), list@.len()) < list@.len(),
            out is Some ==> *out->Some_0 == list@[wy_sample_index(old(self).state(), list@.len())],
    {
        rng_sample(&mut self.0, list)
    }

    /// Draw `amount` elements without replacement: as many distinct
    /// positions as the slice can supply, every one below the length, never
    /// a duplicate.
    pub fn sample_multiple<'a, T>(&mut self, list: &'a [T], amount: usize) -> (out: Vec<&'a T>)
        ensures
            final(self).state() == wy_msel_next(old(self).state(), list@.len() as usize, amount),
            out@.len() == (if amount < list@.len() { amount as int } else { list@.len() as int }),
            out@.len() > 0 ==> is_distinct_selection(
                wy_msel(old(self).state(), list@.len() as usize, amount),
                list@.len() as int,
            ),
            forall|i: int|
                0 <= i < out@.len() ==> *#[trigger] out@[i] == list@[wy_msel(
                    old(self).state(),
                    list@.len() as usize,
                    amount,
                )[i]],
    {
        rng_sample_multiple(&mut self.0, list, amount)
    }

    /// The state word, read without disturbing the generator; with
    /// [`RngComponent::restore`] this is the persistence surface of the
    /// fast kind.
    pub fn snapshot(&self) -> (word: u64)
        ensures
            word == self.state(),
    {
        rng_snapshot(&self.0)
    }

    /// Rebuild a holder from a captured state word: the restored holder
    /// draws exactly as the captured one would have.
    pub fn restore(word: u64) -> (c: Self)
        ensures
            c.state() == word,
    {
        RngComponent(rng_restore(word))
    }

    /// Whether two holders are in the same state, and so would produce the
    /// same stream from here on.
    pub fn state_eq(&self, other: &Self) -> (out: bool)
        ensures
            out == (self.state() == other.state()),
    {
        rng_eq(&self.0, &other.0)
    }
}

/// A defaulted holder is randomly seeded, exactly as [`RngComponent::new`]
/// is, so nothing is promised of its state.
impl Default for RngComponent {
    fn default() -> Self {
        Self::new()
    }
}

} // verus!
