//! The cryptographically secure generator kind: [`turborand`]'s
//! ChaCha8-backed [`ChaChaRng`].
//!
//! The cipher state — sixteen state words plus a small output cache — is
//! abstracted as a word sequence named by [`cc_state`]. The block function
//! is the black box here; the contracts only record that seeding, drawing
//! and forking turn states into results and successor states, which is all
//! the holders need for determinism. The stated identities hold for the
//! byte order this crate is compiled for: `turborand` reads seed bytes and
//! writes output bytes through plain word casts.

use vstd::prelude::*;

use turborand::prelude::ChaChaRng;
use turborand::{ForkableCore, GenCore, SeededCore, TurboCore, TurboRand};

verus! {

#[verifier::external_type_specification]
#[verifier::external_body]
pub struct ExChaChaRng(ChaChaRng);

/// The cipher state a secure generator holds, cache included.
pub uninterp spec fn cc_state(r: ChaChaRng) -> Seq<u32>;

/// The cipher state initialised from a forty-byte seed: fixed constants,
/// the seed spread over key and stream words, a zero counter and an empty
/// cache.
pub uninterp spec fn cc_seed_state(seed: Seq<u8>) -> Seq<u32>;

/// Relies on turborand's `ChaChaRng::with_seed`, which packs the forty seed
/// bytes into the initial cipher state deterministically.
#[verifier::external_body]
pub fn chacha_with_seed(seed: [u8; 40]) -> (r: ChaChaRng)
    ensures
        cc_state(r) == cc_seed_state(seed@),
{
    ChaChaRng::with_seed(seed)
}

/// Relies on turborand's `ChaChaRng::new`, which seeds from the thread-local
/// entropy source; nothing is known of the resulting state.
#[verifier::external_body]
pub fn chacha_new() -> ChaChaRng {
    ChaChaRng::new()
}

/// Relies on turborand's `ChaChaRng::reseed`, which reinitialises the cipher
/// state from the seed bytes and empties the cache, discarding the prior
/// state.
#[verifier::external_body]
pub fn chacha_reseed(r: &mut ChaChaRng, seed: [u8; 40])
    ensures
        cc_state(*final(r)) == cc_seed_state(seed@),
{
    r.reseed(seed);
}

/// The forty bytes drawn from cipher state `s` when a seed for another
/// secure generator is requested.
pub uninterp spec fn cc_gen40_pick(s: Seq<u32>) -> Seq<u8>;

/// The cipher state after drawing forty seed bytes from state `s`.
pub uninterp spec fn cc_gen40_next(s: Seq<u32>) -> Seq<u32>;

/// Relies on turborand's `GenCore::gen::<40>` for `ChaChaRng`: forty bytes
/// of keystream, a function of the cipher state alone.
#[verifier::external_body]
pub fn chacha_gen_seed(r: &mut ChaChaRng) -> (out: [u8; 40])
    ensures
        out@ == cc_gen40_pick(cc_state(*old(r))),
        out@.len() == 40,
        cc_state(*final(r)) == cc_gen40_next(cc_state(*old(r))),
{
    r.gen::<40>()
}

/// Relies on turborand's `ForkableCore::fork` for `ChaChaRng`: the child is
/// seeded from forty keystream bytes of the parent, exactly as
/// `with_seed(gen::<40>())` would be.
#[verifier::external_body]
pub fn chacha_fork(r: &mut ChaChaRng) -> (child: ChaChaRng)
    ensures
        cc_state(child) == cc_seed_state(cc_gen40_pick(cc_state(*old(r)))),
        cc_state(*final(r)) == cc_gen40_next(cc_state(*old(r))),
{
    r.fork()
}

/// The word drawn from cipher state `s` by an eight-byte keystream read.
pub uninterp spec fn cc_gen_u64_pick(s: Seq<u32>) -> u64;

/// The cipher state after an eight-byte keystream read from state `s`.
pub uninterp spec fn cc_gen_u64_next(s: Seq<u32>) -> Seq<u32>;

/// Relies on turborand's `GenCore::gen_u64` for `ChaChaRng`: eight keystream
/// bytes read back as one word.
#[verifier::external_body]
pub fn chacha_gen_u64(r: &mut ChaChaRng) -> (out: u64)
    ensures
        out == cc_gen_u64_pick(cc_state(*old(r))),
        cc_state(*final(r)) == cc_gen_u64_next(cc_state(*old(r))),
{
    r.gen_u64()
}

/// The result of one ranged `u32` draw from cipher state `s` over `[lo, hi]`.
pub uninterp spec fn cc_u32_pick(s: Seq<u32>, lo: u32, hi: u32) -> u32;

/// The cipher state after one ranged `u32` draw from state `s` over `[lo, hi]`.
pub uninterp spec fn cc_u32_next(s: Seq<u32>, lo: u32, hi: u32) -> Seq<u32>;

/// Relies on turborand's `TurboRand::u32` for `ChaChaRng` over an inclusive,
/// non-empty range: a widening-multiply bounded draw whose result lies in
/// `[lo, hi]`, with result and successor state functions of the cipher
/// state and the bounds.
#[verifier::external_body]
pub fn chacha_u32_inclusive(r: &mut ChaChaRng, lo: u32, hi: u32) -> (out: u32)
    requires
        lo <= hi,
    ensures
        lo <= out <= hi,
        out == cc_u32_pick(cc_state(*old(r)), lo, hi),
        cc_state(*final(r)) == cc_u32_next(cc_state(*old(r)), lo, hi),
{
    r.u32(lo..=hi)
}

/// The result of one ranged `u64` draw from cipher state `s` over `[lo, hi]`.
pub uninterp spec fn cc_u64_pick(s: Seq<u32>, lo: u64, hi: u64) -> u64;

/// The cipher state after one ranged `u64` draw from state `s` over `[lo, hi]`.
pub uninterp spec fn cc_u64_next(s: Seq<u32>, lo: u64, hi: u64) -> Seq<u32>;

/// Relies on turborand's `TurboRand::u64` for `ChaChaRng` over an inclusive,
/// non-empty range, as for `u32`.
#[verifier::external_body]
pub fn chacha_u64_inclusive(r: &mut ChaChaRng, lo: u64, hi: u64) -> (out: u64)
    requires
        lo <= hi,
    ensures
        lo <= out <= hi,
        out == cc_u64_pick(cc_state(*old(r)), lo, hi),
        cc_state(*final(r)) == cc_u64_next(cc_state(*old(r)), lo, hi),
{
    r.u64(lo..=hi)
}

/// The bytes that fill a buffer of length `n` from cipher state `s`.
pub uninterp spec fn cc_fill_pick(s: Seq<u32>, n: usize) -> Seq<u8>;

/// The cipher state after filling a buffer of length `n` from state `s`.
pub uninterp spec fn cc_fill_next(s: Seq<u32>, n: usize) -> Seq<u32>;

/// Relies on turborand's `TurboCore::fill_bytes` for `ChaChaRng`: the buffer
/// is overwritten with keystream bytes, cache first, a function of the
/// cipher state and the length.
#[verifier::external_body]
pub fn chacha_fill_bytes(r: &mut ChaChaRng, buffer: &mut Vec<u8>)
    ensures
        final(buffer)@.len() == old(buffer)@.len(),
        final(buffer)@ == cc_fill_pick(cc_state(*old(r)), old(buffer)@.len() as usize),
        cc_state(*final(r)) == cc_fill_next(cc_state(*old(r)), old(buffer)@.len() as usize),
{
    r.fill_bytes(buffer.as_mut_slice());
}

/// The position one sampling draw picks out of `len` elements from cipher
/// state `s`: the only position when there is no choice, else a bounded
/// index draw, the same draw `TurboRand::u64` makes over `[0, len - 1]`.
pub open spec fn cc_sample_index(s: Seq<u32>, len: nat) -> int {
    if len <= 1 {
        0
    } else {
        cc_u64_pick(s, 0, (len - 1) as u64) as int
    }
}

/// The cipher state after one sampling draw over `len` elements from state
/// `s`: unchanged unless there was a choice to make.
pub open spec fn cc_sample_next(s: Seq<u32>, len: nat) -> Seq<u32> {
    if len <= 1 {
        s
    } else {
        cc_u64_next(s, 0, (len - 1) as u64)
    }
}

/// Relies on turborand's `TurboRand::sample` for `ChaChaRng`: an empty
/// slice gives nothing and a one-element slice its only element, both
/// without touching the state; a longer slice costs one bounded index draw
/// over `[0, len - 1]`, the same draw `TurboRand::u64` makes.
#[verifier::external_body]
pub fn chacha_sample<'a, T>(r: &mut ChaChaRng, list: &'a [T]) -> (out: Option<&'a T>)
    ensures
        cc_state(*final(r)) == cc_sample_next(cc_state(*old(r)), list@.len()),
        out is Some <==> list@.len() > 0,
        out is Some ==> 0 <= cc_sample_index(cc_state(*old(r)), list@.len()) < list@.len(),
        out is Some ==> *out->Some_0 == list@[cc_sample_index(cc_state(*old(r)), list@.len())],
{
    r.sample(list)
}

/// The index permutation a shuffle of `len` elements applies from cipher
/// state `s`: position `i` of the result receives the element at
/// `cc_perm(s, len)[i]`.
pub uninterp spec fn cc_perm(s: Seq<u32>, len: usize) -> Seq<int>;

/// The cipher state after shuffling `len` elements from state `s`.
pub uninterp spec fn cc_perm_next(s: Seq<u32>, len: usize) -> Seq<u32>;

/// Relies on turborand's `TurboRand::shuffle` for `ChaChaRng`: a swap pass
/// driven by bounded index draws, which reorders the slice by an index
/// permutation determined by the cipher state and the length. Slices
/// shorter than two elements are left alone without touching the state.
#[verifier::external_body]
pub fn chacha_shuffle<T>(r: &mut ChaChaRng, items: &mut Vec<T>)
    ensures
        final(items)@.len() == old(items)@.len(),
        old(items)@.len() < 2 ==> final(items)@ == old(items)@ && cc_state(*final(r)) == cc_state(
            *old(r),
        ),
        old(items)@.len() >= 2 ==> {
            let s = cc_state(*old(r));
            let n = old(items)@.len() as usize;
            &&& crate::perm::is_index_permutation(cc_perm(s, n), n as int)
            &&& final(items)@ == crate::perm::apply_selection(old(items)@, cc_perm(s, n))
            &&& cc_state(*final(r)) == cc_perm_next(s, n)
        },
{
    r.shuffle(items.as_mut_slice());
}

/// The positions selected when sampling `amount` of `len` elements without
/// replacement from cipher state `s`.
pub uninterp spec fn cc_select(s: Seq<u32>, len: usize, amount: usize) -> Seq<int>;

/// The cipher state after sampling `amount` of `len` elements from state
/// `s`.
pub uninterp spec fn cc_select_next(s: Seq<u32>, len: usize, amount: usize) -> Seq<u32>;

/// The positions that sampling `amount` of `len` elements without
/// replacement picks from cipher state `s`: every position in order when
/// the whole slice (or more) is asked for, else the positions the
/// reservoir pass keeps.
pub open spec fn cc_msel(s: Seq<u32>, len: usize, amount: usize) -> Seq<int> {
    if amount >= len {
        Seq::new(len as nat, |i: int| i)
    } else {
        cc_select(s, len, amount)
    }
}

/// The cipher state after sampling `amount` of `len` elements from state
/// `s`: unchanged when the whole slice is asked for.
pub open spec fn cc_msel_next(s: Seq<u32>, len: usize, amount: usize) -> Seq<u32> {
    if amount >= len {
        s
    } else {
        cc_select_next(s, len, amount)
    }
}

/// Relies on turborand's `TurboRand::sample_multiple` for `ChaChaRng`:
/// reservoir sampling that keeps one reference per chosen position, so the
/// result holds distinct positions. Asking for the whole slice or more
/// returns it in order without touching the state; otherwise exactly
/// `amount` distinct positions are chosen by bounded index draws.
#[verifier::external_body]
pub fn chacha_sample_multiple<'a, T>(r: &mut ChaChaRng, list: &'a [T], amount: usize) -> (out: Vec<
    &'a T,
>)
    ensures
        cc_state(*final(r)) == cc_msel_next(cc_state(*old(r)), list@.len() as usize, amount),
        amount < list@.len() ==> cc_state(*final(r)) == cc_select_next(
            cc_state(*old(r)),
            list@.len() as usize,
            amount,
        ),
        out@.len() == cc_msel(cc_state(*old(r)), list@.len() as usize, amount).len(),
        amount < list@.len() ==> out@.len() == cc_select(
            cc_state(*old(r)),
            list@.len() as usize,
            amount,
        ).len(),
        out@.len() == (if amount < list@.len() { amount as int } else { list@.len() as int }),
        out@.len() > 0 ==> crate::perm::is_distinct_selection(
            cc_msel(cc_state(*old(r)), list@.len() as usize, amount),
            list@.len() as int,
        ),
        forall|i: int|
            0 <= i < out@.len() ==> *#[trigger] out@[i] == list@[cc_msel(
                cc_state(*old(r)),
                list@.len() as usize,
                amount,
            )[i]],
{
    r.sample_multiple(list, amount)
}

/// Relies on `ChaChaRng`'s `PartialEq`, which compares the cipher state and
/// the cache — everything [`cc_state`] stands for.
#[verifier::external_body]
pub fn chacha_eq(a: &ChaChaRng, b: &ChaChaRng) -> (out: bool)
    ensures
        out == (cc_state(*a) == cc_state(*b)),
{
    a == b
}

} // verus!
