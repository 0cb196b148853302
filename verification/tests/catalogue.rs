//! The delegated-operation catalogue: range correctness, shuffling,
//! sampling, character domains, and the startup configuration.

use entity_rng::component::chacha::ChaChaRngComponent;
use entity_rng::component::rng::RngComponent;
use entity_rng::component::secure::SecureRngComponent;
use entity_rng::global::chacha::GlobalChaChaRng;
use entity_rng::global::rng::GlobalRng;
use entity_rng::laws::{run_fast_ops, FastOp};
use entity_rng::plugin::RngPlugin;

#[test]
fn ranged_draws_stay_in_range() {
    let mut rng = RngComponent::with_seed(2024);

    for _ in 0..10_000 {
        let closed = rng.u32_inclusive(17, 23);
        assert!((17..=23).contains(&closed));

        let half_open = rng.u32_range(17, 23);
        assert!((17..23).contains(&half_open));
    }
}

#[test]
fn ranged_draws_stay_in_range_all_widths() {
    let mut rng = RngComponent::with_seed(9);

    for _ in 0..200 {
        assert!((3..=9).contains(&rng.u8_inclusive(3, 9)));
        assert!((100..=900).contains(&rng.u16_inclusive(100, 900)));
        assert!((1..=1_000_000).contains(&rng.u32_inclusive(1, 1_000_000)));
        assert!((5..=u64::MAX / 2).contains(&rng.u64_inclusive(5, u64::MAX / 2)));
        assert!((0..=u128::MAX / 3).contains(&rng.u128_inclusive(0, u128::MAX / 3)));
        assert!((-9..=-3).contains(&rng.i8_inclusive(-9, -3)));
        assert!((-100..=900).contains(&rng.i16_inclusive(-100, 900)));
        assert!((-50..=50).contains(&rng.i32_inclusive(-50, 50)));
        assert!((i64::MIN..=0).contains(&rng.i64_inclusive(i64::MIN, 0)));
        assert!((-7..=7).contains(&rng.i128_inclusive(-7, 7)));
    }
}

#[test]
fn degenerate_range_returns_the_bound() {
    let mut rng = RngComponent::with_seed(4);
    assert_eq!(rng.u32_inclusive(42, 42), 42);
    assert_eq!(rng.i64_inclusive(-8, -8), -8);
    assert_eq!(rng.u32_range(9, 10), 9);
}

#[test]
fn shuffle_is_a_permutation() {
    let mut rng = RngComponent::with_seed(31337);

    let original: Vec<u32> = (0..100).collect();
    let mut shuffled = original.clone();
    rng.shuffle(&mut shuffled);

    assert_eq!(shuffled.len(), original.len());
    assert_ne!(shuffled, original);

    let mut sorted = shuffled.clone();
    sorted.sort_unstable();
    assert_eq!(sorted, original);
}

#[test]
fn shuffle_of_short_slices_is_identity() {
    let mut rng = RngComponent::with_seed(1);

    let mut empty: Vec<u8> = Vec::new();
    rng.shuffle(&mut empty);
    assert!(empty.is_empty());

    let mut single = vec![99u8];
    rng.shuffle(&mut single);
    assert_eq!(single, vec![99u8]);
}

#[test]
fn sample_is_some_exactly_when_nonempty() {
    let mut rng = RngComponent::with_seed(8);

    let nothing: [u32; 0] = [];
    assert_eq!(rng.sample(&nothing), None);

    let one = [7u32];
    assert_eq!(rng.sample(&one), Some(&7));

    let many = [1u32, 2, 3, 4, 5, 6];
    for _ in 0..100 {
        let picked = rng.sample(&many).copied().unwrap();
        assert!(many.contains(&picked));
    }
}

#[test]
fn sample_multiple_without_replacement() {
    let mut rng = RngComponent::with_seed(55);

    let values: Vec<u32> = (0..20).collect();

    // Asking for fewer than there are: exactly that many, all distinct.
    let picked = rng.sample_multiple(&values, 8);
    assert_eq!(picked.len(), 8);
    let mut seen: Vec<u32> = picked.iter().map(|v| **v).collect();
    seen.sort_unstable();
    seen.dedup();
    assert_eq!(seen.len(), 8);

    // Asking for more than there are: the whole slice, no duplicates.
    let everything = rng.sample_multiple(&values, 50);
    assert_eq!(everything.len(), 20);
    let mut all: Vec<u32> = everything.iter().map(|v| **v).collect();
    all.sort_unstable();
    all.dedup();
    assert_eq!(all.len(), 20);

    // Asking for nothing gives nothing.
    assert!(rng.sample_multiple(&values, 0).is_empty());
}

#[test]
fn character_draws_stay_in_their_domains() {
    let mut rng = RngComponent::with_seed(77);

    for _ in 0..500 {
        assert!(rng.digit(10).is_ascii_digit());
        let hex = rng.digit(16);
        assert!(hex.is_ascii_digit() || ('a'..='f').contains(&hex));
        assert!(rng.alphabetic().is_ascii_alphabetic());
        assert!(rng.alphanumeric().is_ascii_alphanumeric());
        assert!(rng.lowercase().is_ascii_lowercase());
        assert!(rng.uppercase().is_ascii_uppercase());
        let c = rng.char_inclusive('m', 'q');
        assert!(('m'..='q').contains(&c));
    }
}

#[test]
fn bool_draws_take_both_values() {
    let mut rng = RngComponent::with_seed(123);
    let mut trues = 0u32;
    let mut falses = 0u32;
    for _ in 0..1000 {
        if rng.draw_bool() {
            trues += 1;
        } else {
            falses += 1;
        }
    }
    assert!(trues > 0 && falses > 0);
}

#[test]
fn run_fast_ops_is_reproducible() {
    let script = vec![
        FastOp::RangedU32 { lo: 0, hi: 10 },
        FastOp::DrawBool,
        FastOp::Digit { radix: 36 },
        FastOp::RangedU64 { lo: 5, hi: 500 },
        FastOp::Reseed { seed: 99 },
        FastOp::RangedU16 { lo: 1, hi: 2 },
        FastOp::Lowercase,
        FastOp::Uppercase,
        FastOp::RangedU8 { lo: 0, hi: 255 },
    ];

    let mut a = RngComponent::with_seed(12345);
    let mut b = RngComponent::with_seed(12345);

    let out_a = run_fast_ops(&mut a, &script);
    let out_b = run_fast_ops(&mut b, &script);

    assert_eq!(out_a, out_b);
    assert_eq!(out_a.len(), script.len());
    assert!(a.state_eq(&b));
}

#[test]
fn plugin_builds_seeded_globals() {
    let plugin = RngPlugin::new().with_rng_seed(12345).with_chacha_seed([1; 40]);

    let built = plugin.build_global_rng();
    let direct = GlobalRng::with_seed(12345);
    assert!(built.state_eq(&direct));
    assert_eq!(built.snapshot(), 24691);

    let built_secure = plugin.build_global_chacha();
    let direct_secure = GlobalChaChaRng::with_seed([1; 40]);
    assert!(built_secure.state_eq(&direct_secure));
}

#[test]
fn generic_seeding_follows_capabilities() {
    // The fast kind accepts seed material of either quality...
    let mut fast_global = GlobalRng::with_seed(77);
    let a = RngComponent::from_source(&mut fast_global);
    let mut secure_global = GlobalChaChaRng::with_seed([7; 40]);
    let _from_secure = RngComponent::from_source(&mut secure_global);

    // ...and the generic path matches the concrete constructor draw for draw.
    let mut fast_global_again = GlobalRng::with_seed(77);
    let b = RngComponent::from_global(&mut fast_global_again);
    assert!(a.state_eq(&b));

    // Secure holders are seeded only through the secure capability.
    let mut secure_global_again = GlobalChaChaRng::with_seed([7; 40]);
    let mut c = ChaChaRngComponent::from_source(&mut secure_global_again);
    let mut d = SecureRngComponent::from_source(&mut c);
    assert!((0..=9).contains(&d.u32_inclusive(0, 9)));
}

#[test]
fn seeding_quality_rule_downward() {
    // The secure kind may seed the fast kind; the opposite construction
    // does not exist in the crate.
    let mut secure = GlobalChaChaRng::with_seed([2; 40]);

    let mut a = RngComponent::from_secure(secure.get_mut());
    let mut b = {
        let mut secure_again = GlobalChaChaRng::with_seed([2; 40]);
        RngComponent::from_secure(secure_again.get_mut())
    };

    for _ in 0..20 {
        assert_eq!(a.u32_inclusive(0, 1000), b.u32_inclusive(0, 1000));
    }
}
