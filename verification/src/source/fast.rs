//! The fast, non-cryptographic generator kind: [`turborand`]'s WyRand-backed
//! [`Rng`].
//!
//! The generator's whole state is one machine word. [`wy_state`] names the
//! word a given [`Rng`] holds; the spec functions below restate, word for
//! word, how `turborand` seeds and advances that state. The mixing function
//! that turns an advanced state into an output word is [`wy_mix`].
//!
//! Every trusted wrapper in this module records two things: the result as a
//! function of the state before the call, and the state after the call. That
//! is the entire determinism surface of the fast kind — callers that start
//! from equal words and make equal calls are forced, clause by clause, to
//! equal results.

use vstd::prelude::*;

use turborand::prelude::Rng;
use turborand::{ForkableCore, GenCore, SeededCore, TurboCore, TurboRand};

verus! {

/// The additive constant WyRand folds into its state on every advance.
pub const WY_INCREMENT: u64 = 0xa076_1d64_78bd_642f;

/// The constant WyRand XORs into the advanced state before mixing.
pub const WY_XOR: u64 = 0xe703_7ed1_a0b4_28db;

#[verifier::external_type_specification]
#[verifier::external_body]
pub struct ExRng(Rng);

/// The state word held by a fast generator.
pub uninterp spec fn wy_state(r: Rng) -> u64;

/// The word stored when a fast generator is seeded: the seed shifted left
/// once with the low bit set, guaranteeing a nonzero, odd starting state.
pub open spec fn wy_seed_state(seed: u64) -> u64 {
    (seed << 1) | 1
}

/// One state advance: a wrapping add of [`WY_INCREMENT`].
pub open spec fn wy_step(s: u64) -> u64 {
    ((s + WY_INCREMENT) as u64)
}

/// WyRand's output mix of an (already advanced) state word: the high and low
/// halves of a 128-bit product, folded together.
pub open spec fn wy_mix(x: u64) -> u64 {
    let t = ((x as u128) * ((x ^ WY_XOR) as u128)) as u128;
    (((t >> 64) ^ t) as u64)
}

/// The output word of one draw from state `s`.
pub open spec fn wy_out(s: u64) -> u64 {
    wy_mix(wy_step(s))
}

/// Relies on turborand's `Rng::with_seed`, which stores `seed << 1 | 1`.
#[verifier::external_body]
pub fn rng_with_seed(seed: u64) -> (r: Rng)
    ensures
        wy_state(r) == wy_seed_state(seed),
{
    Rng::with_seed(seed)
}

/// Relies on turborand's `Rng::new`, which seeds from the thread-local
/// entropy source; nothing is known of the resulting state.
#[verifier::external_body]
pub fn rng_new() -> Rng {
    Rng::new()
}

/// Relies on turborand's `Rng::reseed`, which overwrites the state word with
/// the given seed exactly, discarding the prior state.
#[verifier::external_body]
pub fn rng_reseed(r: &mut Rng, seed: u64)
    ensures
        wy_state(*final(r)) == seed,
{
    r.reseed(seed);
}

/// Relies on turborand's `GenCore::gen_u64`: one state advance, and the mixed
/// output word read back in little-endian order, which restores the word
/// itself.
#[verifier::external_body]
pub fn rng_gen_u64(r: &mut Rng) -> (out: u64)
    ensures
        wy_state(*final(r)) == wy_step(wy_state(*old(r))),
        out == wy_out(wy_state(*old(r))),
{
    r.gen_u64()
}

/// Relies on turborand's `ForkableCore::fork` for `Rng`: the parent advances
/// one step and the child's state word is the parent's output word, stored
/// raw.
#[verifier::external_body]
pub fn rng_fork(r: &mut Rng) -> (child: Rng)
    ensures
        wy_state(*final(r)) == wy_step(wy_state(*old(r))),
        wy_state(child) == wy_out(wy_state(*old(r))),
{
    r.fork()
}

/// Relies on `Rng`'s derived `PartialEq`, which compares the state words.
#[verifier::external_body]
pub fn rng_eq(a: &Rng, b: &Rng) -> (out: bool)
    ensures
        out == (wy_state(*a) == wy_state(*b)),
{
    a == b
}

/// Relies on turborand's serde encoding of `Rng`, a struct holding the bare
/// state word, read back here through `serde_json::to_value`. Reading the
/// word does not disturb the generator.
#[verifier::external_body]
pub fn rng_snapshot(r: &Rng) -> (out: u64)
    ensures
        out == wy_state(*r),
{
    let encoded = serde_json::to_value(r).expect("a state word always encodes");
    encoded["state"].as_u64().expect("the encoding holds the state word")
}

/// Relies on turborand's serde encoding of `Rng` through
/// `serde_json::from_str`: decoding a state word yields the generator
/// holding exactly that word.
#[verifier::external_body]
pub fn rng_restore(word: u64) -> (r: Rng)
    ensures
        wy_state(r) == word,
{
    serde_json::from_str(&format!("{{\"state\":{}}}", word)).expect("a state word always decodes")
}

/// The result of one ranged `u8` draw from state `s` over `[lo, hi]`.
pub uninterp spec fn wy_u8_pick(s: u64, lo: u8, hi: u8) -> u8;

/// The state after one ranged `u8` draw from state `s` over `[lo, hi]`.
pub uninterp spec fn wy_u8_next(s: u64, lo: u8, hi: u8) -> u64;

/// Relies on turborand's `TurboRand::u8` over an inclusive, non-empty range:
/// a widening-multiply bounded draw whose result lies in `[lo, hi]`, with
/// result and successor state functions of the state word and the bounds.
#[verifier::external_body]
pub fn rng_u8_inclusive(r: &mut Rng, lo: u8, hi: u8) -> (out: u8)
    requires
        lo <= hi,
    ensures
        lo <= out <= hi,
        out == wy_u8_pick(wy_state(*old(r)), lo, hi),
        wy_state(*final(r)) == wy_u8_next(wy_state(*old(r)), lo, hi),
{
    r.u8(lo..=hi)
}

/// The result of one ranged `u16` draw from state `s` over `[lo, hi]`.
pub uninterp spec fn wy_u16_pick(s: u64, lo: u16, hi: u16) -> u16;

/// The state after one ranged `u16` draw from state `s` over `[lo, hi]`.
pub uninterp spec fn wy_u16_next(s: u64, lo: u16, hi: u16) -> u64;

/// Relies on turborand's `TurboRand::u16` over an inclusive, non-empty range,
/// as for `u8`.
#[verifier::external_body]
pub fn rng_u16_inclusive(r: &mut Rng, lo: u16, hi: u16) -> (out: u16)
    requires
        lo <= hi,
    ensures
        lo <= out <= hi,
        out == wy_u16_pick(wy_state(*old(r)), lo, hi),
        wy_state(*final(r)) == wy_u16_next(wy_state(*old(r)), lo, hi),
{
    r.u16(lo..=hi)
}

/// The result of one ranged `u32` draw from state `s` over `[lo, hi]`.
pub uninterp spec fn wy_u32_pick(s: u64, lo: u32, hi: u32) -> u32;

/// The state after one ranged `u32` draw from state `s` over `[lo, hi]`.
pub uninterp spec fn wy_u32_next(s: u64, lo: u32, hi: u32) -> u64;

/// Relies on turborand's `TurboRand::u32` over an inclusive, non-empty range,
/// as for `u8`.
#[verifier::external_body]
pub fn rng_u32_inclusive(r: &mut Rng, lo: u32, hi: u32) -> (out: u32)
    requires
        lo <= hi,
    ensures
        lo <= out <= hi,
        out == wy_u32_pick(wy_state(*old(r)), lo, hi),
        wy_state(*final(r)) == wy_u32_next(wy_state(*old(r)), lo, hi),
{
    r.u32(lo..=hi)
}

/// The result of one ranged `u64` draw from state `s` over `[lo, hi]`.
pub uninterp spec fn wy_u64_pick(s: u64, lo: u64, hi: u64) -> u64;

/// The state after one ranged `u64` draw from state `s` over `[lo, hi]`.
pub uninterp spec fn wy_u64_next(s: u64, lo: u64, hi: u64) -> u64;

/// Relies on turborand's `TurboRand::u64` over an inclusive, non-empty range,
/// as for `u8`.
#[verifier::external_body]
pub fn rng_u64_inclusive(r: &mut Rng, lo: u64, hi: u64) -> (out: u64)
    requires
        lo <= hi,
    ensures
        lo <= out <= hi,
        out == wy_u64_pick(wy_state(*old(r)), lo, hi),
        wy_state(*final(r)) == wy_u64_next(wy_state(*old(r)), lo, hi),
{
    r.u64(lo..=hi)
}

/// The result of one ranged `u128` draw from state `s` over `[lo, hi]`.
pub uninterp spec fn wy_u128_pick(s: u64, lo: u128, hi: u128) -> u128;

/// The state after one ranged `u128` draw from state `s` over `[lo, hi]`.
pub uninterp spec fn wy_u128_next(s: u64, lo: u128, hi: u128) -> u64;

/// Relies on turborand's `TurboRand::u128` over an inclusive, non-empty
/// range, as for `u8`.
#[verifier::external_body]
pub fn rng_u128_inclusive(r: &mut Rng, lo: u128, hi: u128) -> (out: u128)
    requires
        lo <= hi,
    ensures
        lo <= out <= hi,
        out == wy_u128_pick(wy_state(*old(r)), lo, hi),
        wy_state(*final(r)) == wy_u128_next(wy_state(*old(r)), lo, hi),
{
    r.u128(lo..=hi)
}

/// The result of one ranged `i8` draw from state `s` over `[lo, hi]`.
pub uninterp spec fn wy_i8_pick(s: u64, lo: i8, hi: i8) -> i8;

/// The state after one ranged `i8` draw from state `s` over `[lo, hi]`.
pub uninterp spec fn wy_i8_next(s: u64, lo: i8, hi: i8) -> u64;

/// Relies on turborand's `TurboRand::i8` over an inclusive, non-empty range,
/// as for `u8`.
#[verifier::external_body]
pub fn rng_i8_inclusive(r: &mut Rng, lo: i8, hi: i8) -> (out: i8)
    requires
        lo <= hi,
    ensures
        lo <= out <= hi,
        out == wy_i8_pick(wy_state(*old(r)), lo, hi),
        wy_state(*final(r)) == wy_i8_next(wy_state(*old(r)), lo, hi),
{
    r.i8(lo..=hi)
}

/// The result of one ranged `i16` draw from state `s` over `[lo, hi]`.
pub uninterp spec fn wy_i16_pick(s: u64, lo: i16, hi: i16) -> i16;

/// The state after one ranged `i16` draw from state `s` over `[lo, hi]`.
pub uninterp spec fn wy_i16_next(s: u64, lo: i16, hi: i16) -> u64;

/// Relies on turborand's `TurboRand::i16` over an inclusive, non-empty range,
/// as for `u8`.
#[verifier::external_body]
pub fn rng_i16_inclusive(r: &mut Rng, lo: i16, hi: i16) -> (out: i16)
    requires
        lo <= hi,
    ensures
        lo <= out <= hi,
        out == wy_i16_pick(wy_state(*old(r)), lo, hi),
        wy_state(*final(r)) == wy_i16_next(wy_state(*old(r)), lo, hi),
{
    r.i16(lo..=hi)
}

/// The result of one ranged `i32` draw from state `s` over `[lo, hi]`.
pub uninterp spec fn wy_i32_pick(s: u64, lo: i32, hi: i32) -> i32;

/// The state after one ranged `i32` draw from state `s` over `[lo, hi]`.
pub uninterp spec fn wy_i32_next(s: u64, lo: i32, hi: i32) -> u64;

/// Relies on turborand's `TurboRand::i32` over an inclusive, non-empty range,
/// as for `u8`.
#[verifier::external_body]
pub fn rng_i32_inclusive(r: &mut Rng, lo: i32, hi: i32) -> (out: i32)
    requires
        lo <= hi,
    ensures
        lo <= out <= hi,
        out == wy_i32_pick(wy_state(*old(r)), lo, hi),
        wy_state(*final(r)) == wy_i32_next(wy_state(*old(r)), lo, hi),
{
    r.i32(lo..=hi)
}

/// The result of one ranged `i64` draw from state `s` over `[lo, hi]`.
pub uninterp spec fn wy_i64_pick(s: u64, lo: i64, hi: i64) -> i64;

/// The state after one ranged `i64` draw from state `s` over `[lo, hi]`.
pub uninterp spec fn wy_i64_next(s: u64, lo: i64, hi: i64) -> u64;

/// Relies on turborand's `TurboRand::i64` over an inclusive, non-empty range,
/// as for `u8`.
#[verifier::external_body]
pub fn rng_i64_inclusive(r: &mut Rng, lo: i64, hi: i64) -> (out: i64)
    requires
        lo <= hi,
    ensures
        lo <= out <= hi,
        out == wy_i64_pick(wy_state(*old(r)), lo, hi),
        wy_state(*final(r)) == wy_i64_next(wy_state(*old(r)), lo, hi),
{
    r.i64(lo..=hi)
}

/// The result of one ranged `i128` draw from state `s` over `[lo, hi]`.
pub uninterp spec fn wy_i128_pick(s: u64, lo: i128, hi: i128) -> i128;

/// The state after one ranged `i128` draw from state `s` over `[lo, hi]`.
pub uninterp spec fn wy_i128_next(s: u64, lo: i128, hi: i128) -> u64;

/// Relies on turborand's `TurboRand::i128` over an inclusive, non-empty
/// range, as for `u8`.
#[verifier::external_body]
pub fn rng_i128_inclusive(r: &mut Rng, lo: i128, hi: i128) -> (out: i128)
    requires
        lo <= hi,
    ensures
        lo <= out <= hi,
        out == wy_i128_pick(wy_state(*old(r)), lo, hi),
        wy_state(*final(r)) == wy_i128_next(wy_state(*old(r)), lo, hi),
{
    r.i128(lo..=hi)
}

/// Relies on turborand's `TurboRand::bool`: one draw, true when the low byte
/// of the output word is even.
#[verifier::external_body]
pub fn rng_bool(r: &mut Rng) -> (out: bool)
    ensures
        out == (wy_out(wy_state(*old(r))) as u8 % 2 == 0),
        wy_state(*final(r)) == wy_step(wy_state(*old(r))),
{
    r.bool()
}

/// The digit character drawn from state `s` in the given radix.
pub uninterp spec fn wy_digit_pick(s: u64, radix: u8) -> char;

/// The state after one digit draw from state `s` in the given radix.
pub uninterp spec fn wy_digit_next(s: u64, radix: u8) -> u64;

/// Relies on turborand's `TurboRand::digit`: a bounded draw below the radix,
/// rendered as `0`–`9` then `a`–`z`. A zero radix or one above 36 panics, so
/// both are excluded here.
#[verifier::external_body]
pub fn rng_digit(r: &mut Rng, radix: u8) -> (out: char)
    requires
        1 <= radix <= 36,
    ensures
        ('0' <= out && out <= '9') || ('a' <= out && out <= 'z'),
        out == wy_digit_pick(wy_state(*old(r)), radix),
        wy_state(*final(r)) == wy_digit_next(wy_state(*old(r)), radix),
{
    r.digit(radix)
}

/// The letter drawn from state `s` over both cases of the Latin alphabet.
pub uninterp spec fn wy_alphabetic_pick(s: u64) -> char;

/// The state after one alphabetic draw from state `s`.
pub uninterp spec fn wy_alphabetic_next(s: u64) -> u64;

/// Relies on turborand's `TurboRand::alphabetic`: one bounded draw indexing a
/// table of the 52 Latin letters.
#[verifier::external_body]
pub fn rng_alphabetic(r: &mut Rng) -> (out: char)
    ensures
        ('a' <= out && out <= 'z') || ('A' <= out && out <= 'Z'),
        out == wy_alphabetic_pick(wy_state(*old(r))),
        wy_state(*final(r)) == wy_alphabetic_next(wy_state(*old(r))),
{
    r.alphabetic()
}

/// The character drawn from state `s` over Latin letters and decimal digits.
pub uninterp spec fn wy_alphanumeric_pick(s: u64) -> char;

/// The state after one alphanumeric draw from state `s`.
pub uninterp spec fn wy_alphanumeric_next(s: u64) -> u64;

/// Relies on turborand's `TurboRand::alphanumeric`: one bounded draw indexing
/// a table of the 62 Latin letters and decimal digits.
#[verifier::external_body]
pub fn rng_alphanumeric(r: &mut Rng) -> (out: char)
    ensures
        ('a' <= out && out <= 'z') || ('A' <= out && out <= 'Z') || ('0' <= out && out <= '9'),
        out == wy_alphanumeric_pick(wy_state(*old(r))),
        wy_state(*final(r)) == wy_alphanumeric_next(wy_state(*old(r))),
{
    r.alphanumeric()
}

/// The lower-case letter drawn from state `s`.
pub uninterp spec fn wy_lowercase_pick(s: u64) -> char;

/// The state after one lower-case draw from state `s`.
pub uninterp spec fn wy_lowercase_next(s: u64) -> u64;

/// Relies on turborand's `TurboRand::lowercase`: one bounded draw indexing a
/// table of the 26 lower-case Latin letters.
#[verifier::external_body]
pub fn rng_lowercase(r: &mut Rng) -> (out: char)
    ensures
        'a' <= out && out <= 'z',
        out == wy_lowercase_pick(wy_state(*old(r))),
        wy_state(*final(r)) == wy_lowercase_next(wy_state(*old(r))),
{
    r.lowercase()
}

/// The upper-case letter drawn from state `s`.
pub uninterp spec fn wy_uppercase_pick(s: u64) -> char;

/// The state after one upper-case draw from state `s`.
pub uninterp spec fn wy_uppercase_next(s: u64) -> u64;

/// Relies on turborand's `TurboRand::uppercase`: one bounded draw indexing a
/// table of the 26 upper-case Latin letters.
#[verifier::external_body]
pub fn rng_uppercase(r: &mut Rng) -> (out: char)
    ensures
        'A' <= out && out <= 'Z',
        out == wy_uppercase_pick(wy_state(*old(r))),
        wy_state(*final(r)) == wy_uppercase_next(wy_state(*old(r))),
{
    r.uppercase()
}

/// The character drawn from state `s` over the inclusive range `[lo, hi]`.
pub uninterp spec fn wy_char_pick(s: u64, lo: char, hi: char) -> char;

/// The state after one character draw from state `s` over `[lo, hi]`.
pub uninterp spec fn wy_char_next(s: u64, lo: char, hi: char) -> u64;

/// Relies on turborand's `TurboRand::char` over an inclusive, non-empty
/// range: one bounded draw over the scalar values, skipping the surrogate
/// gap, so the result is a character within the bounds.
#[verifier::external_body]
pub fn rng_char_inclusive(r: &mut Rng, lo: char, hi: char) -> (out: char)
    requires
        lo <= hi,
    ensures
        lo <= out && out <= hi,
        out == wy_char_pick(wy_state(*old(r)), lo, hi),
        wy_state(*final(r)) == wy_char_next(wy_state(*old(r)), lo, hi),
{
    r.char(lo..=hi)
}

/// The bytes that fill a buffer of length `n` from state `s`: the
/// little-endian bytes of successive output words, the last word truncated
/// to what the buffer still needs.
pub open spec fn wy_fill_out(s: u64, n: nat) -> Seq<u8>
    decreases n,
{
    if n == 0 {
        Seq::empty()
    } else if n >= 8 {
        vstd::bytes::spec_u64_to_le_bytes(wy_out(s)) + wy_fill_out(wy_step(s), (n - 8) as nat)
    } else {
        vstd::bytes::spec_u64_to_le_bytes(wy_out(s)).take(n as int)
    }
}

/// The state after filling a buffer of length `n` from state `s`: one
/// advance per started block of eight bytes.
pub open spec fn wy_fill_next(s: u64, n: nat) -> u64
    decreases n,
{
    if n == 0 {
        s
    } else if n >= 8 {
        wy_fill_next(wy_step(s), (n - 8) as nat)
    } else {
        wy_step(s)
    }
}

/// Relies on turborand's `TurboCore::fill_bytes` for `Rng`: the buffer is
/// overwritten in eight-byte blocks of little-endian output words, a final
/// partial block taking the leading bytes of one more word.
#[verifier::external_body]
pub fn rng_fill_bytes(r: &mut Rng, buffer: &mut Vec<u8>)
    ensures
        final(buffer)@.len() == old(buffer)@.len(),
        final(buffer)@ == wy_fill_out(wy_state(*old(r)), old(buffer)@.len() as nat),
        wy_state(*final(r)) == wy_fill_next(wy_state(*old(r)), old(buffer)@.len() as nat),
{
    r.fill_bytes(buffer.as_mut_slice());
}

/// The position one sampling draw picks out of `len` elements from state
/// `s`: the only position when there is no choice, else a bounded index
/// draw, the same draw `TurboRand::u64` makes over `[0, len - 1]`.
pub open spec fn wy_sample_index(s: u64, len: nat) -> int {
    if len <= 1 {
        0
    } else {
        wy_u64_pick(s, 0, (len - 1) as u64) as int
    }
}

/// The state after one sampling draw over `len` elements from state `s`:
/// unchanged unless there was a choice to make.
pub open spec fn wy_sample_next(s: u64, len: nat) -> u64 {
    if len <= 1 {
        s
    } else {
        wy_u64_next(s, 0, (len - 1) as u64)
    }
}

/// Relies on turborand's `TurboRand::sample` for `Rng`: an empty slice gives
/// nothing and a one-element slice its only element, both without touching
/// the state; a longer slice costs one bounded index draw over
/// `[0, len - 1]`, the same draw `TurboRand::u64` makes.
#[verifier::external_body]
pub fn rng_sample<'a, T>(r: &mut Rng, list: &'a [T]) -> (out: Option<&'a T>)
    ensures
        wy_state(*final(r)) == wy_sample_next(wy_state(*old(r)), list@.len()),
        out is Some <==> list@.len() > 0,
        out is Some ==> 0 <= wy_sample_index(wy_state(*old(r)), list@.len()) < list@.len(),
        out is Some ==> *out->Some_0 == list@[wy_sample_index(wy_state(*old(r)), list@.len())],
{
    r.sample(list)
}

/// The index permutation a shuffle of `len` elements applies from state `s`:
/// position `i` of the result receives the element at `wy_perm(s, len)[i]`.
pub uninterp spec fn wy_perm(s: u64, len: usize) -> Seq<int>;

/// The state after shuffling `len` elements from state `s`.
pub uninterp spec fn wy_perm_next(s: u64, len: usize) -> u64;

/// Relies on turborand's `TurboRand::shuffle` for `Rng`: a backwards swap
/// pass, one bounded index draw per position, which reorders the slice by an
/// index permutation determined by the state and the length. Slices shorter
/// than two elements are left alone without touching the state.
#[verifier::external_body]
pub fn rng_shuffle<T>(r: &mut Rng, items: &mut Vec<T>)
    ensures
        final(items)@.len() == old(items)@.len(),
        old(items)@.len() < 2 ==> final(items)@ == old(items)@ && wy_state(*final(r)) == wy_state(
            *old(r),
        ),
        old(items)@.len() >= 2 ==> {
            let s = wy_state(*old(r));
            let n = old(items)@.len() as usize;
            &&& crate::perm::is_index_permutation(wy_perm(s, n), n as int)
            &&& final(items)@ == crate::perm::apply_selection(old(items)@, wy_perm(s, n))
            &&& wy_state(*final(r)) == wy_perm_next(s, n)
        },
{
    r.shuffle(items.as_mut_slice());
}

/// The positions selected when sampling `amount` of `len` elements without
/// replacement from state `s`.
pub uninterp spec fn wy_select(s: u64, len: usize, amount: usize) -> Seq<int>;

/// The state after sampling `amount` of `len` elements from state `s`.
pub uninterp spec fn wy_select_next(s: u64, len: usize, amount: usize) -> u64;

/// The positions that sampling `amount` of `len` elements without
/// replacement picks from state `s`: every position in order when the whole
/// slice (or more) is asked for, else the positions the reservoir pass
/// keeps.
pub open spec fn wy_msel(s: u64, len: usize, amount: usize) -> Seq<int> {
    if amount >= len {
        Seq::new(len as nat, |i: int| i)
    } else {
        wy_select(s, len, amount)
    }
}

/// The state after sampling `amount` of `len` elements from state `s`:
/// unchanged when the whole slice is asked for.
pub open spec fn wy_msel_next(s: u64, len: usize, amount: usize) -> u64 {
    if amount >= len {
        s
    } else {
        wy_select_next(s, len, amount)
    }
}

/// Relies on turborand's `TurboRand::sample_multiple` for `Rng`: reservoir
/// sampling that keeps one reference per chosen position, so the result
/// holds distinct positions. Asking for the whole slice or more returns it
/// in order without touching the state; otherwise exactly `amount` distinct
/// positions are chosen by bounded index draws.
#[verifier::external_body]
pub fn rng_sample_multiple<'a, T>(r: &mut Rng, list: &'a [T], amount: usize) -> (out: Vec<&'a T>)
    ensures
        wy_state(*final(r)) == wy_msel_next(wy_state(*old(r)), list@.len() as usize, amount),
        amount < list@.len() ==> wy_state(*final(r)) == wy_select_next(
            wy_state(*old(r)),
            list@.len() as usize,
            amount,
        ),
        out@.len() == wy_msel(wy_state(*old(r)), list@.len() as usize, amount).len(),
        amount < list@.len() ==> out@.len() == wy_select(
            wy_state(*old(r)),
            list@.len() as usize,
            amount,
        ).len(),
        out@.len() == (if amount < list@.len() { amount as int } else { list@.len() as int }),
        out@.len() > 0 ==> crate::perm::is_distinct_selection(
            wy_msel(wy_state(*old(r)), list@.len() as usize, amount),
            list@.len() as int,
        ),
        forall|i: int|
            0 <= i < out@.len() ==> *#[trigger] out@[i] == list@[wy_msel(
                wy_state(*old(r)),
                list@.len() as usize,
                amount,
            )[i]],
{
    r.sample_multiple(list, amount)
}

} // verus!
