//! The crate-level laws: determinism of whole operation sequences, and the
//! facts about seeding and forking that hold of every state.
//!
//! A holder's contract pins each operation's result and successor state as
//! a function of the state before the call. The interpreters here lift that
//! to ordered sequences of operations, and the lemmas state the laws over
//! them: equal states — whether from one explicit seed or from a captured
//! and restored state word — drive to equal outputs and equal final states.

use vstd::prelude::*;

use crate::component::chacha::ChaChaRngComponent;
use crate::component::rng::RngComponent;
use crate::source::fast::{
    wy_digit_next, wy_digit_pick, wy_lowercase_next, wy_lowercase_pick, wy_out, wy_seed_state,
    wy_step, wy_u16_next, wy_u16_pick, wy_u32_next, wy_u32_pick, wy_u64_next, wy_u64_pick,
    wy_u8_next, wy_u8_pick, wy_uppercase_next, wy_uppercase_pick, WY_INCREMENT,
};
use crate::source::secure::{
    cc_seed_state, cc_u32_next, cc_u32_pick, cc_u64_next, cc_u64_pick,
};

verus! {

/// One delegated operation on a fast-kind holder, with its inputs.
pub enum FastOp {
    /// A ranged `u8` draw over `[lo, hi]`.
    RangedU8 { lo: u8, hi: u8 },
    /// A ranged `u16` draw over `[lo, hi]`.
    RangedU16 { lo: u16, hi: u16 },
    /// A ranged `u32` draw over `[lo, hi]`.
    RangedU32 { lo: u32, hi: u32 },
    /// A ranged `u64` draw over `[lo, hi]`.
    RangedU64 { lo: u64, hi: u64 },
    /// A uniform boolean draw.
    DrawBool,
    /// A digit draw in the given radix.
    Digit { radix: u8 },
    /// A lower-case letter draw.
    Lowercase,
    /// An upper-case letter draw.
    Uppercase,
    /// Replacing the state word with the given seed.
    Reseed { seed: u64 },
}

/// Whether an operation's inputs are ones the catalogue accepts: non-empty
/// ranges, a radix a digit exists in.
pub open spec fn fast_op_valid(op: FastOp) -> bool {
    match op {
        FastOp::RangedU8 { lo, hi } => lo <= hi,
        FastOp::RangedU16 { lo, hi } => lo <= hi,
        FastOp::RangedU32 { lo, hi } => lo <= hi,
        FastOp::RangedU64 { lo, hi } => lo <= hi,
        FastOp::Digit { radix } => 1 <= radix <= 36,
        _ => true,
    }
}

/// The state after one operation from state `s`.
pub open spec fn fast_op_next(s: u64, op: FastOp) -> u64 {
    match op {
        FastOp::RangedU8 { lo, hi } => wy_u8_next(s, lo, hi),
        FastOp::RangedU16 { lo, hi } => wy_u16_next(s, lo, hi),
        FastOp::RangedU32 { lo, hi } => wy_u32_next(s, lo, hi),
        FastOp::RangedU64 { lo, hi } => wy_u64_next(s, lo, hi),
        FastOp::DrawBool => wy_step(s),
        FastOp::Digit { radix } => wy_digit_next(s, radix),
        FastOp::Lowercase => wy_lowercase_next(s),
        FastOp::Uppercase => wy_uppercase_next(s),
        FastOp::Reseed { seed } => seed,
    }
}

/// One operation's output from state `s`, read back as a word.
pub open spec fn fast_op_word(s: u64, op: FastOp) -> u64 {
    match op {
        FastOp::RangedU8 { lo, hi } => wy_u8_pick(s, lo, hi) as u64,
        FastOp::RangedU16 { lo, hi } => wy_u16_pick(s, lo, hi) as u64,
        FastOp::RangedU32 { lo, hi } => wy_u32_pick(s, lo, hi) as u64,
        FastOp::RangedU64 { lo, hi } => wy_u64_pick(s, lo, hi),
        FastOp::DrawBool => if wy_out(s) as u8 % 2 == 0 {
            1
        } else {
            0
        },
        FastOp::Digit { radix } => wy_digit_pick(s, radix) as u64,
        FastOp::Lowercase => wy_lowercase_pick(s) as u64,
        FastOp::Uppercase => wy_uppercase_pick(s) as u64,
        FastOp::Reseed { .. } => 0,
    }
}

/// The state a fast-kind holder reaches from state `s` after the whole
/// operation sequence.
pub open spec fn fast_final_state(s: u64, ops: Seq<FastOp>) -> u64
    decreases ops.len(),
{
    if ops.len() == 0 {
        s
    } else {
        fast_final_state(fast_op_next(s, ops.first()), ops.drop_first())
    }
}

/// The outputs a fast-kind holder produces from state `s` over the whole
/// operation sequence, one word per operation.
pub open spec fn fast_words(s: u64, ops: Seq<FastOp>) -> Seq<u64>
    decreases ops.len(),
{
    if ops.len() == 0 {
        Seq::empty()
    } else {
        seq![fast_op_word(s, ops.first())] + fast_words(fast_op_next(s, ops.first()), ops.drop_first())
    }
}

/// Appending one operation runs the sequence and then that operation.
proof fn lemma_fast_run_snoc(s: u64, ops: Seq<FastOp>, op: FastOp)
    ensures
        fast_final_state(s, ops.push(op)) == fast_op_next(fast_final_state(s, ops), op),
        fast_words(s, ops.push(op)) == fast_words(s, ops).push(
            fast_op_word(fast_final_state(s, ops), op),
        ),
    decreases ops.len(),
{
    let pushed = ops.push(op);
    if ops.len() == 0 {
        assert(pushed.first() == op);
        assert(pushed.drop_first() =~= Seq::<FastOp>::empty());
        assert(fast_final_state(fast_op_next(s, op), Seq::<FastOp>::empty()) == fast_op_next(
            s,
            op,
        ));
        assert(fast_words(fast_op_next(s, op), Seq::<FastOp>::empty()) =~= Seq::<u64>::empty());
        assert(fast_words(s, pushed) =~= fast_words(s, ops).push(fast_op_word(s, op)));
    } else {
        let s1 = fast_op_next(s, ops.first());
        lemma_fast_run_snoc(s1, ops.drop_first(), op);
        assert(pushed.first() == ops.first());
        assert(pushed.drop_first() =~= ops.drop_first().push(op));
        assert(fast_final_state(s, pushed) == fast_final_state(s1, ops.drop_first().push(op)));
        assert(fast_words(s, pushed) =~= fast_words(s, ops).push(
            fast_op_word(fast_final_state(s, ops), op),
        ));
    }
}

/// Determinism of the fast kind: two holders in equal states — in
/// particular, holders built from the same explicit seed, or a holder and
/// its restored snapshot — driven through the same ordered operation
/// sequence produce identical output sequences and identical final states.
pub proof fn lemma_fast_equal_states_equal_runs(s1: u64, s2: u64, ops: Seq<FastOp>)
    requires
        s1 == s2,
    ensures
        fast_words(s1, ops) == fast_words(s2, ops),
        fast_final_state(s1, ops) == fast_final_state(s2, ops),
{
}

/// Determinism from the seed: the state a holder starts in is a function
/// of its explicit seed alone, so one seed fixes every later output.
pub proof fn lemma_fast_seed_determinism(seed1: u64, seed2: u64, ops: Seq<FastOp>)
    requires
        seed1 == seed2,
    ensures
        fast_words(wy_seed_state(seed1), ops) == fast_words(wy_seed_state(seed2), ops),
        fast_final_state(wy_seed_state(seed1), ops) == fast_final_state(wy_seed_state(seed2), ops),
{
}

/// Distinct explicit seeds, in the range a seed word can distinguish, give
/// distinct starting states: seeding loses no variety below the top bit.
pub proof fn lemma_fast_seed_injective(seed1: u64, seed2: u64)
    requires
        seed1 != seed2,
        seed1 < 0x8000_0000_0000_0000,
        seed2 < 0x8000_0000_0000_0000,
    ensures
        wy_seed_state(seed1) != wy_seed_state(seed2),
{
    assert(seed1 < 0x8000_0000_0000_0000 && seed2 < 0x8000_0000_0000_0000 && seed1 != seed2
        ==> ((seed1 << 1) | 1) != ((seed2 << 1) | 1)) by (bit_vector);
}

/// Explicit seeding always lands on an odd — and so nonzero — state word:
/// the degenerate all-zero state cannot be reached from any seed.
pub proof fn lemma_seed_state_odd(seed: u64)
    ensures
        wy_seed_state(seed) % 2 == 1,
        wy_seed_state(seed) != 0,
{
    assert(((seed << 1) | 1) % 2 == 1 && ((seed << 1) | 1) != 0) by (bit_vector);
}

/// A fork always moves the parent on: the state advance is by an odd,
/// nonzero constant, so the post-fork parent state differs from the
/// pre-fork state, and a holder never forks twice from the same state
/// without noticing.
pub proof fn lemma_fork_advances_parent(s: u64)
    ensures
        wy_step(s) != s,
{
    assert(((s + 0xa076_1d64_78bd_642f) as u64) != s) by (bit_vector);
    assert(wy_step(s) == ((s + WY_INCREMENT) as u64));
}

/// Drive a fast-kind holder through an operation sequence, collecting each
/// operation's output as a word. The contract ties the run to the
/// interpreter: the outputs and the final state are functions of the
/// starting state and the sequence alone, which is the determinism law in
/// executable form.
pub fn run_fast_ops(c: &mut RngComponent, ops: &Vec<FastOp>) -> (outs: Vec<u64>)
    requires
        forall|i: int| 0 <= i < ops@.len() ==> fast_op_valid(#[trigger] ops@[i]),
    ensures
        final(c).state() == fast_final_state(old(c).state(), ops@),
        outs@ == fast_words(old(c).state(), ops@),
{
    let mut outs: Vec<u64> = Vec::new();
    let ghost s0 = c.state();
    let n = ops.len();
    assert(ops@.take(0) =~= Seq::<FastOp>::empty());
    for i in 0..n
        invariant
            n == ops@.len(),
            forall|k: int| 0 <= k < ops@.len() ==> fast_op_valid(#[trigger] ops@[k]),
            c.state() == fast_final_state(s0, ops@.take(i as int)),
            outs@ == fast_words(s0, ops@.take(i as int)),
    {
        let word: u64 = match ops[i] {
            FastOp::RangedU8 { lo, hi } => c.u8_inclusive(lo, hi) as u64,
            FastOp::RangedU16 { lo, hi } => c.u16_inclusive(lo, hi) as u64,
            FastOp::RangedU32 { lo, hi } => c.u32_inclusive(lo, hi) as u64,
            FastOp::RangedU64 { lo, hi } => c.u64_inclusive(lo, hi),
            FastOp::DrawBool => if c.draw_bool() {
                1
            } else {
                0
            },
            FastOp::Digit { radix } => c.digit(radix) as u64,
            FastOp::Lowercase => c.lowercase() as u64,
            FastOp::Uppercase => c.uppercase() as u64,
            FastOp::Reseed { seed } => {
                c.reseed(seed);
                0
            },
        };
        outs.push(word);
        proof {
            lemma_fast_run_snoc(s0, ops@.take(i as int), ops@[i as int]);
            assert(ops@.take(i as int).push(ops@[i as int]) =~= ops@.take(i + 1));
        }
    }
    assert(ops@.take(n as int) =~= ops@);
    outs
}

/// One delegated operation on a secure-kind holder, with its inputs.
pub enum SecureOp {
    /// A ranged `u32` draw over `[lo, hi]`.
    RangedU32 { lo: u32, hi: u32 },
    /// A ranged `u64` draw over `[lo, hi]`.
    RangedU64 { lo: u64, hi: u64 },
    /// Reinitialising from the given forty-byte seed.
    Reseed { seed: [u8; 40] },
}

/// Whether a secure operation's inputs are accepted: non-empty ranges.
pub open spec fn secure_op_valid(op: SecureOp) -> bool {
    match op {
        SecureOp::RangedU32 { lo, hi } => lo <= hi,
        SecureOp::RangedU64 { lo, hi } => lo <= hi,
        SecureOp::Reseed { .. } => true,
    }
}

/// The cipher state after one operation from state `s`.
pub open spec fn secure_op_next(s: Seq<u32>, op: SecureOp) -> Seq<u32> {
    match op {
        SecureOp::RangedU32 { lo, hi } => cc_u32_next(s, lo, hi),
        SecureOp::RangedU64 { lo, hi } => cc_u64_next(s, lo, hi),
        SecureOp::Reseed { seed } => cc_seed_state(seed@),
    }
}

/// One secure operation's output from state `s`, read back as a word.
pub open spec fn secure_op_word(s: Seq<u32>, op: SecureOp) -> u64 {
    match op {
        SecureOp::RangedU32 { lo, hi } => cc_u32_pick(s, lo, hi) as u64,
        SecureOp::RangedU64 { lo, hi } => cc_u64_pick(s, lo, hi),
        SecureOp::Reseed { .. } => 0,
    }
}

/// The cipher state a secure-kind holder reaches from state `s` after the
/// whole operation sequence.
pub open spec fn secure_final_state(s: Seq<u32>, ops: Seq<SecureOp>) -> Seq<u32>
    decreases ops.len(),
{
    if ops.len() == 0 {
        s
    } else {
        secure_final_state(secure_op_next(s, ops.first()), ops.drop_first())
    }
}

/// The outputs a secure-kind holder produces from state `s` over the whole
/// operation sequence, one word per operation.
pub open spec fn secure_words(s: Seq<u32>, ops: Seq<SecureOp>) -> Seq<u64>
    decreases ops.len(),
{
    if ops.len() == 0 {
        Seq::empty()
    } else {
        seq![secure_op_word(s, ops.first())] + secure_words(
            secure_op_next(s, ops.first()),
            ops.drop_first(),
        )
    }
}

/// Appending one operation runs the sequence and then that operation.
proof fn lemma_secure_run_snoc(s: Seq<u32>, ops: Seq<SecureOp>, op: SecureOp)
    ensures
        secure_final_state(s, ops.push(op)) == secure_op_next(secure_final_state(s, ops), op),
        secure_words(s, ops.push(op)) == secure_words(s, ops).push(
            secure_op_word(secure_final_state(s, ops), op),
        ),
    decreases ops.len(),
{
    let pushed = ops.push(op);
    if ops.len() == 0 {
        assert(pushed.first() == op);
        assert(pushed.drop_first() =~= Seq::<SecureOp>::empty());
        assert(secure_final_state(secure_op_next(s, op), Seq::<SecureOp>::empty())
            == secure_op_next(s, op));
        assert(secure_words(secure_op_next(s, op), Seq::<SecureOp>::empty())
            =~= Seq::<u64>::empty());
        assert(secure_words(s, pushed) =~= secure_words(s, ops).push(secure_op_word(s, op)));
    } else {
        let s1 = secure_op_next(s, ops.first());
        lemma_secure_run_snoc(s1, ops.drop_first(), op);
        assert(pushed.first() == ops.first());
        assert(pushed.drop_first() =~= ops.drop_first().push(op));
        assert(secure_final_state(s, pushed) == secure_final_state(
            s1,
            ops.drop_first().push(op),
        ));
        assert(secure_words(s, pushed) =~= secure_words(s, ops).push(
            secure_op_word(secure_final_state(s, ops), op),
        ));
    }
}

/// Determinism of the secure kind: two holders in equal cipher states —
/// in particular, holders built from the same explicit forty-byte seed —
/// driven through the same ordered operation sequence produce identical
/// output sequences and identical final states.
pub proof fn lemma_secure_equal_states_equal_runs(s1: Seq<u32>, s2: Seq<u32>, ops: Seq<SecureOp>)
    requires
        s1 == s2,
    ensures
        secure_words(s1, ops) == secure_words(s2, ops),
        secure_final_state(s1, ops) == secure_final_state(s2, ops),
{
}

/// Drive a secure-kind holder through an operation sequence, collecting
/// each operation's output as a word; the executable form of the secure
/// determinism law.
pub fn run_secure_ops(c: &mut ChaChaRngComponent, ops: &Vec<SecureOp>) -> (outs: Vec<u64>)
    requires
        forall|i: int| 0 <= i < ops@.len() ==> secure_op_valid(#[trigger] ops@[i]),
    ensures
        final(c).state() == secure_final_state(old(c).state(), ops@),
        outs@ == secure_words(old(c).state(), ops@),
{
    let mut outs: Vec<u64> = Vec::new();
    let ghost s0 = c.state();
    let n = ops.len();
    assert(ops@.take(0) =~= Seq::<SecureOp>::empty());
    for i in 0..n
        invariant
            n == ops@.len(),
            forall|k: int| 0 <= k < ops@.len() ==> secure_op_valid(#[trigger] ops@[k]),
            c.state() == secure_final_state(s0, ops@.take(i as int)),
            outs@ == secure_words(s0, ops@.take(i as int)),
    {
        let word: u64 = match ops[i] {
            SecureOp::RangedU32 { lo, hi } => c.u32_inclusive(lo, hi) as u64,
            SecureOp::RangedU64 { lo, hi } => c.u64_inclusive(lo, hi),
            SecureOp::Reseed { seed } => {
                c.reseed(seed);
                0
            },
        };
        outs.push(word);
        proof {
            lemma_secure_run_snoc(s0, ops@.take(i as int), ops@[i as int]);
            assert(ops@.take(i as int).push(ops@[i as int]) =~= ops@.take(i + 1));
        }
    }
    assert(ops@.take(n as int) =~= ops@);
    outs
}

} // verus!
