//! Checks that every draw really consumes the generator: repeated draws
//! vary, distinct seeds give distinct streams, and the secure kind behaves
//! like the fast kind under its own operations.

use entity_rng::component::chacha::ChaChaRngComponent;
use entity_rng::component::rng::RngComponent;
use entity_rng::component::secure::SecureRngComponent;
use entity_rng::global::secure::GlobalSecureRng;
use entity_rng::laws::{run_secure_ops, SecureOp};

#[test]
fn draws_depend_on_the_state() {
    let mut rng = RngComponent::with_seed(6);

    let bytes: Vec<u8> = (0..50).map(|_| rng.u8_inclusive(0, 255)).collect();
    assert!(bytes.windows(2).any(|w| w[0] != w[1]));

    let shorts: Vec<u16> = (0..50).map(|_| rng.u16_inclusive(0, u16::MAX)).collect();
    assert!(shorts.windows(2).any(|w| w[0] != w[1]));

    let words: Vec<u32> = (0..50).map(|_| rng.u32_inclusive(0, u32::MAX)).collect();
    assert!(words.windows(2).any(|w| w[0] != w[1]));

    let longs: Vec<u64> = (0..50).map(|_| rng.u64_inclusive(0, u64::MAX)).collect();
    assert!(longs.windows(2).any(|w| w[0] != w[1]));

    let giants: Vec<u128> = (0..50).map(|_| rng.u128_inclusive(0, u128::MAX)).collect();
    assert!(giants.windows(2).any(|w| w[0] != w[1]));

    let signed: Vec<i64> = (0..50).map(|_| rng.i64_inclusive(i64::MIN, i64::MAX)).collect();
    assert!(signed.windows(2).any(|w| w[0] != w[1]));

    let tiny_signed: Vec<i8> = (0..50).map(|_| rng.i8_inclusive(i8::MIN, i8::MAX)).collect();
    assert!(tiny_signed.windows(2).any(|w| w[0] != w[1]));

    let digits: Vec<char> = (0..50).map(|_| rng.digit(36)).collect();
    assert!(digits.windows(2).any(|w| w[0] != w[1]));

    let letters: Vec<char> = (0..50).map(|_| rng.alphabetic()).collect();
    assert!(letters.windows(2).any(|w| w[0] != w[1]));

    let spanned: Vec<char> = (0..50).map(|_| rng.char_inclusive('a', 'z')).collect();
    assert!(spanned.windows(2).any(|w| w[0] != w[1]));
}

#[test]
fn each_draw_advances_the_state() {
    let mut rng = RngComponent::with_seed(21);

    let before = rng.snapshot();
    rng.u32_inclusive(0, 9);
    let after = rng.snapshot();
    assert_ne!(before, after);

    rng.digit(10);
    assert_ne!(after, rng.snapshot());
}

#[test]
fn distinct_seeds_distinct_streams() {
    let mut a = RngComponent::with_seed(1);
    let mut b = RngComponent::with_seed(2);

    assert!(!a.state_eq(&b));

    let stream_a: Vec<u64> = (0..8).map(|_| a.u64_inclusive(0, u64::MAX)).collect();
    let stream_b: Vec<u64> = (0..8).map(|_| b.u64_inclusive(0, u64::MAX)).collect();
    assert_ne!(stream_a, stream_b);
}

#[test]
fn fill_bytes_agrees_with_the_word_draw() {
    // Eight filled bytes are the little-endian form of the one output word
    // an unbounded draw yields from the same state.
    let mut filler = entity_rng::global::rng::GlobalRng::with_seed(33);
    let mut drawer = RngComponent::with_seed(33);

    let mut buffer = vec![0u8; 8];
    filler.fill_bytes(&mut buffer);
    let word = drawer.u64_inclusive(0, u64::MAX);

    assert_eq!(buffer, word.to_le_bytes().to_vec());
    assert_eq!(filler.snapshot(), drawer.snapshot());
}

#[test]
fn fork_child_is_the_output_word() {
    // The forked child's state word is exactly the word the parent would
    // have produced, stored raw, and both parents advance alike.
    let mut forking = RngComponent::with_seed(9);
    let mut drawing = RngComponent::with_seed(9);

    let child = RngComponent(forking.fork());
    let word = drawing.u64_inclusive(0, u64::MAX);

    assert_eq!(child.snapshot(), word);
    assert_eq!(forking.snapshot(), drawing.snapshot());
}

#[test]
fn seeding_stores_the_shifted_word() {
    // A holder derived from a global is seeded with the global's output
    // word, and an explicit seed is stored shifted left once with the low
    // bit set.
    let mut origin = entity_rng::global::rng::GlobalRng::with_seed(55);
    let mut mirror = RngComponent::restore(
        entity_rng::global::rng::GlobalRng::with_seed(55).snapshot(),
    );

    let derived = RngComponent::from_global(&mut origin);
    let word = mirror.u64_inclusive(0, u64::MAX);

    assert_eq!(derived.snapshot(), (word << 1) | 1);
    assert_eq!(origin.snapshot(), mirror.snapshot());
}

#[test]
fn secure_draws_depend_on_the_state() {
    let mut rng = ChaChaRngComponent::with_seed([5; 40]);

    let words: Vec<u32> = (0..50).map(|_| rng.u32_inclusive(0, u32::MAX)).collect();
    assert!(words.windows(2).any(|w| w[0] != w[1]));

    let mut buffer = vec![0u8; 33];
    rng.fill_bytes(&mut buffer);
    assert_eq!(buffer.len(), 33);
    assert_ne!(buffer, vec![0u8; 33]);

    let mut twin = ChaChaRngComponent::with_seed([5; 40]);
    let twin_words: Vec<u32> = (0..50).map(|_| twin.u32_inclusive(0, u32::MAX)).collect();
    let mut twin_buffer = vec![0u8; 33];
    twin.fill_bytes(&mut twin_buffer);
    assert_eq!(words, twin_words);
    assert_eq!(buffer, twin_buffer);
}

#[test]
fn secure_shuffle_is_a_permutation() {
    let mut rng = ChaChaRngComponent::with_seed([11; 40]);

    let original: Vec<u32> = (0..64).collect();
    let mut shuffled = original.clone();
    rng.shuffle(&mut shuffled);

    assert_eq!(shuffled.len(), original.len());
    assert_ne!(shuffled, original);

    let mut sorted = shuffled.clone();
    sorted.sort_unstable();
    assert_eq!(sorted, original);

    let mut twin = ChaChaRngComponent::with_seed([11; 40]);
    let mut shuffled_again = original.clone();
    twin.shuffle(&mut shuffled_again);
    assert_eq!(shuffled, shuffled_again);
}

#[test]
fn secure_sampling_without_replacement() {
    let mut rng = ChaChaRngComponent::with_seed([12; 40]);

    let values: Vec<u32> = (0..30).collect();

    let picked = rng.sample_multiple(&values, 12);
    assert_eq!(picked.len(), 12);
    let mut seen: Vec<u32> = picked.iter().map(|v| **v).collect();
    seen.sort_unstable();
    seen.dedup();
    assert_eq!(seen.len(), 12);

    let everything = rng.sample_multiple(&values, 99);
    assert_eq!(everything.len(), 30);

    let nothing: [u32; 0] = [];
    assert_eq!(rng.sample(&nothing), None);
    let one = [5u32];
    assert_eq!(rng.sample(&one), Some(&5));
    for _ in 0..50 {
        let picked = rng.sample(&values).copied().unwrap();
        assert!(values.contains(&picked));
    }
}

#[test]
fn secure_named_holder_matches_chacha_kind() {
    let mut global = GlobalSecureRng::with_seed([8; 40]);

    let mut a = SecureRngComponent::from_global(&mut global);
    let mut b = {
        let mut again = GlobalSecureRng::with_seed([8; 40]);
        SecureRngComponent::from_global(&mut again)
    };

    assert!(a.state_eq(&b));
    for _ in 0..20 {
        assert_eq!(a.u32_inclusive(0, 1_000_000), b.u32_inclusive(0, 1_000_000));
    }

    a.reseed([4; 40]);
    b.reseed([4; 40]);
    assert!(a.state_eq(&b));
}

#[test]
fn run_secure_ops_is_reproducible() {
    let script = vec![
        SecureOp::RangedU32 { lo: 0, hi: 10 },
        SecureOp::RangedU64 { lo: 100, hi: 10_000 },
        SecureOp::Reseed { seed: [6; 40] },
        SecureOp::RangedU32 { lo: 5, hi: 5 },
        SecureOp::RangedU64 { lo: 0, hi: u64::MAX },
    ];

    let mut a = ChaChaRngComponent::with_seed([1; 40]);
    let mut b = ChaChaRngComponent::with_seed([1; 40]);

    let out_a = run_secure_ops(&mut a, &script);
    let out_b = run_secure_ops(&mut b, &script);

    assert_eq!(out_a, out_b);
    assert_eq!(out_a.len(), script.len());
    assert_eq!(out_a[3], 5);
    assert!(a.state_eq(&b));
}
