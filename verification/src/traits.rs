//! The capability traits behind the seeding rule.
//!
//! [`SeedSource`] is the capability every holder grants: handing out one
//! seed word, deterministically in its own model state. [`SecureSeedSource`]
//! is the capability only secure holders grant: handing out a whole
//! forty-byte seed block of keystream. A fast holder can be seeded from any
//! [`SeedSource`]; a secure holder's seed constructors demand
//! [`SecureSeedSource`]. The quality rule of the crate is exactly the gap
//! between the two bounds: no fast holder implements the secure capability,
//! so a construction path from the fast kind to a secure holder does not
//! type-check.

use vstd::prelude::*;

use crate::component::chacha::ChaChaRngComponent;
use crate::component::rng::RngComponent;
use crate::component::secure::SecureRngComponent;
use crate::global::chacha::GlobalChaChaRng;
use crate::global::rng::GlobalRng;
use crate::global::secure::GlobalSecureRng;
use crate::source::fast::{rng_gen_u64, wy_out, wy_step};
use crate::source::secure::{
    cc_gen40_next, cc_gen40_pick, cc_gen_u64_next, cc_gen_u64_pick, chacha_gen_seed,
    chacha_gen_u64,
};

verus! {

/// A source that can originate one machine word of seed material. The model
/// state, the word handed out and the successor state are the implementor's
/// own; what the capability fixes is that both are functions of the model
/// state alone, so seeding stays deterministic whatever the source kind.
pub trait SeedSource: Sized {
    /// The mathematical state of this source.
    type Model;

    /// The model state this source is in.
    spec fn model(&self) -> Self::Model;

    /// The seed word handed out from a given model state.
    spec fn word_of(m: Self::Model) -> u64;

    /// The model state after handing a seed word out.
    spec fn stepped(m: Self::Model) -> Self::Model;

    /// Hand out one seed word, advancing the source.
    fn draw_seed_word(&mut self) -> (out: u64)
        ensures
            out == Self::word_of(old(self).model()),
            final(self).model() == Self::stepped(old(self).model());
}

/// A source whose raw output is fit to seed secure generators: it can
/// originate a whole forty-byte seed block. Only holders of the secure kind
/// implement this; the fast kind cannot offer it, which is what keeps a
/// weak source from ever seeding a strong holder.
pub trait SecureSeedSource: SeedSource {
    /// The cipher state of this source.
    spec fn cipher(&self) -> Seq<u32>;

    /// Hand out a forty-byte seed block, advancing the source.
    fn draw_seed_block(&mut self) -> (out: [u8; 40])
        ensures
            out@ == cc_gen40_pick(old(self).cipher()),
            final(self).cipher() == cc_gen40_next(old(self).cipher());
}

impl SeedSource for GlobalRng {
    type Model = u64;

    open spec fn model(&self) -> u64 {
        self.state()
    }

    open spec fn word_of(m: u64) -> u64 {
        wy_out(m)
    }

    open spec fn stepped(m: u64) -> u64 {
        wy_step(m)
    }

    fn draw_seed_word(&mut self) -> (out: u64)
        ensures
            out == Self::word_of(old(self).model()),
            final(self).model() == Self::stepped(old(self).model()),
    {
        rng_gen_u64(&mut self.0)
    }
}

impl SeedSource for RngComponent {
    type Model = u64;

    open spec fn model(&self) -> u64 {
        self.state()
    }

    open spec fn word_of(m: u64) -> u64 {
        wy_out(m)
    }

    open spec fn stepped(m: u64) -> u64 {
        wy_step(m)
    }

    fn draw_seed_word(&mut self) -> (out: u64)
        ensures
            out == Self::word_of(old(self).model()),
            final(self).model() == Self::stepped(old(self).model()),
    {
        rng_gen_u64(&mut self.0)
    }
}

impl SeedSource for GlobalChaChaRng {
    type Model = Seq<u32>;

    open spec fn model(&self) -> Seq<u32> {
        self.state()
    }

    open spec fn word_of(m: Seq<u32>) -> u64 {
        cc_gen_u64_pick(m)
    }

    open spec fn stepped(m: Seq<u32>) -> Seq<u32> {
        cc_gen_u64_next(m)
    }

    fn draw_seed_word(&mut self) -> (out: u64)
        ensures
            out == Self::word_of(old(self).model()),
            final(self).model() == Self::stepped(old(self).model()),
    {
        chacha_gen_u64(&mut self.0)
    }
}

impl SecureSeedSource for GlobalChaChaRng {
    open spec fn cipher(&self) -> Seq<u32> {
        self.state()
    }

    fn draw_seed_block(&mut self) -> (out: [u8; 40])
        ensures
            out@ == cc_gen40_pick(old(self).cipher()),
            final(self).cipher() == cc_gen40_next(old(self).cipher()),
    {
        chacha_gen_seed(&mut self.0)
    }
}

impl SeedSource for ChaChaRngComponent {
    type Model = Seq<u32>;

    open spec fn model(&self) -> Seq<u32> {
        self.state()
    }

    open spec fn word_of(m: Seq<u32>) -> u64 {
        cc_gen_u64_pick(m)
    }

    open spec fn stepped(m: Seq<u32>) -> Seq<u32> {
        cc_gen_u64_next(m)
    }

    fn draw_seed_word(&mut self) -> (out: u64)
        ensures
            out == Self::word_of(old(self).model()),
            final(self).model() == Self::stepped(old(self).model()),
    {
        chacha_gen_u64(&mut self.0)
    }
}

impl SecureSeedSource for ChaChaRngComponent {
    open spec fn cipher(&self) -> Seq<u32> {
        self.state()
    }

    fn draw_seed_block(&mut self) -> (out: [u8; 40])
        ensures
            out@ == cc_gen40_pick(old(self).cipher()),
            final(self).cipher() == cc_gen40_next(old(self).cipher()),
    {
        chacha_gen_seed(&mut self.0)
    }
}

impl SeedSource for GlobalSecureRng {
    type Model = Seq<u32>;

    open spec fn model(&self) -> Seq<u32> {
        self.state()
    }

    open spec fn word_of(m: Seq<u32>) -> u64 {
        cc_gen_u64_pick(m)
    }

    open spec fn stepped(m: Seq<u32>) -> Seq<u32> {
        cc_gen_u64_next(m)
    }

    fn draw_seed_word(&mut self) -> (out: u64)
        ensures
            out == Self::word_of(old(self).model()),
            final(self).model() == Self::stepped(old(self).model()),
    {
        chacha_gen_u64(&mut self.0)
    }
}

impl SecureSeedSource for GlobalSecureRng {
    open spec fn cipher(&self) -> Seq<u32> {
        self.state()
    }

    fn draw_seed_block(&mut self) -> (out: [u8; 40])
        ensures
            out@ == cc_gen40_pick(old(self).cipher()),
            final(self).cipher() == cc_gen40_next(old(self).cipher()),
    {
        chacha_gen_seed(&mut self.0)
    }
}

impl SeedSource for SecureRngComponent {
    type Model = Seq<u32>;

    open spec fn model(&self) -> Seq<u32> {
        self.state()
    }

    open spec fn word_of(m: Seq<u32>) -> u64 {
        cc_gen_u64_pick(m)
    }

    open spec fn stepped(m: Seq<u32>) -> Seq<u32> {
        cc_gen_u64_next(m)
    }

    fn draw_seed_word(&mut self) -> (out: u64)
        ensures
            out == Self::word_of(old(self).model()),
            final(self).model() == Self::stepped(old(self).model()),
    {
        chacha_gen_u64(&mut self.0)
    }
}

impl SecureSeedSource for SecureRngComponent {
    open spec fn cipher(&self) -> Seq<u32> {
        self.state()
    }

    fn draw_seed_block(&mut self) -> (out: [u8; 40])
        ensures
            out@ == cc_gen40_pick(old(self).cipher()),
            final(self).cipher() == cc_gen40_next(old(self).cipher()),
    {
        chacha_gen_seed(&mut self.0)
    }
}

} // verus!
