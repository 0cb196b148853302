//! Deterministic behaviour of seeded holders: fixed draws from fixed seeds,
//! state capture and restore, and derivation order as the only thing that
//! matters.

use entity_rng::component::chacha::ChaChaRngComponent;
use entity_rng::component::rng::RngComponent;
use entity_rng::global::chacha::GlobalChaChaRng;
use entity_rng::global::rng::GlobalRng;
use turborand::TurboRand;

struct Combatant {
    total: u32,
    max: u32,
    attack_min: u32,
    attack_max: u32,
    hit: f64,
    rng: RngComponent,
}

#[test]
fn deterministic_play_through() {
    let mut global_rng = GlobalRng::with_seed(12345);

    let mut player = Combatant {
        total: 100,
        max: 100,
        attack_min: 5,
        attack_max: 10,
        hit: 0.6,
        rng: RngComponent::from_global(&mut global_rng),
    };
    let buff = (2u32, 6u32, 0.10f64);

    let mut enemies = [
        Combatant {
            total: 20,
            max: 20,
            attack_min: 3,
            attack_max: 6,
            hit: 0.5,
            rng: RngComponent::from_global(&mut global_rng),
        },
        Combatant {
            total: 20,
            max: 20,
            attack_min: 3,
            attack_max: 6,
            hit: 0.5,
            rng: RngComponent::from_global(&mut global_rng),
        },
    ];

    let expected = [(100u32, 20u32, 11u32), (90, 20, 3), (88, 20, 0)];

    for round in expected {
        // The player picks a random enemy and attacks, or misses if unlucky.
        for enemy in enemies.iter_mut() {
            let source = player.rng.get_mut();
            if source.chance(player.hit) {
                let blow = source.u32(player.attack_min..=player.attack_max);
                enemy.total = enemy.total.saturating_sub(blow);
                break;
            }
        }

        // A healing effect lands on the player now and then.
        {
            let source = player.rng.get_mut();
            if source.chance(buff.2) {
                let heal = source.u32(buff.0..=buff.1);
                player.total = player.total.saturating_add(heal).clamp(0, player.max);
            }
        }

        // Each enemy that lands a hit deals randomised damage.
        for enemy in enemies.iter_mut() {
            let source = enemy.rng.get_mut();
            if source.chance(enemy.hit) {
                let blow = source.u32(enemy.attack_min..=enemy.attack_max);
                player.total = player.total.saturating_sub(blow);
            }
        }

        assert_eq!(player.total, round.0);
        assert_eq!(enemies[0].total, round.1);
        assert_eq!(enemies[1].total, round.2);
    }
}

#[test]
fn deterministic_setup() {
    let mut global = GlobalRng::with_seed(23456);

    let mut player = RngComponent::from_global(&mut global);
    let mut enemy_1 = RngComponent::from_global(&mut global);
    let mut enemy_2 = RngComponent::from_global(&mut global);

    assert_eq!(player.u32_inclusive(0, 10), 10);
    assert_eq!(enemy_1.u32_inclusive(0, 10), 1);
    assert_eq!(enemy_2.u32_inclusive(0, 10), 7);
}

#[test]
fn deterministic_secure_setup() {
    let mut global = GlobalChaChaRng::with_seed([1; 40]);

    let mut player = ChaChaRngComponent::from_global(&mut global);
    let mut enemy_1 = ChaChaRngComponent::from_global(&mut global);
    let mut enemy_2 = ChaChaRngComponent::from_global(&mut global);

    assert_eq!(player.u32_inclusive(0, 10), 0);
    assert_eq!(enemy_1.u32_inclusive(0, 10), 6);
    assert_eq!(enemy_2.u32_inclusive(0, 10), 3);
}

#[test]
fn load_rng_setup() {
    let mut rng = RngComponent::restore(24691);

    assert_eq!(rng.u32_range(0, 10), 4);
}

#[test]
fn load_chacha_rng_setup() {
    let mut rng = ChaChaRngComponent::with_seed([7; 40]);

    assert_eq!(rng.u32_range(0, 10), 0);
}

#[test]
fn rng_reflection() {
    let mut val = RngComponent::with_seed(7);

    let word = val.snapshot();
    assert_eq!(word, 15);

    let mut dynamic = RngComponent::restore(word);

    assert!(val.state_eq(&dynamic));

    dynamic.u64_inclusive(0, u64::MAX);

    assert!(!val.state_eq(&dynamic));
}

#[test]
fn chacha_rng_reflection() {
    let mut val = ChaChaRngComponent::with_seed([7; 40]);

    let mut twin = ChaChaRngComponent::with_seed([7; 40]);

    assert!(val.state_eq(&twin));

    twin.u64_inclusive(0, u64::MAX);

    assert!(!val.state_eq(&twin));
}

#[test]
fn snapshot_matches_seeding_rule() {
    // The stored word is the seed shifted left once with the low bit set.
    assert_eq!(RngComponent::with_seed(12345).snapshot(), 24691);
    assert_eq!(GlobalRng::with_seed(12345).snapshot(), 24691);
}

#[test]
fn reseed_discards_prior_state() {
    let mut a = RngComponent::with_seed(1);
    a.u32_inclusive(0, 1000);
    a.reseed(24691);

    // Reseeding stores the word raw, so it matches a restored snapshot.
    let b = RngComponent::restore(24691);
    assert!(a.state_eq(&b));
}

#[test]
fn round_trip_matches_future_draws() {
    let mut original = RngComponent::with_seed(777);
    original.u32_inclusive(0, 99);
    original.u64_inclusive(10, 1_000_000);

    let mut restored = RngComponent::restore(original.snapshot());

    for _ in 0..10 {
        assert_eq!(
            original.u32_inclusive(0, 1_000_000),
            restored.u32_inclusive(0, 1_000_000)
        );
    }
    assert!(original.state_eq(&restored));
}

#[test]
fn fork_independence() {
    let mut parent = RngComponent::with_seed(1000);

    let child_1 = RngComponent(parent.fork());
    let child_2 = RngComponent(parent.fork());

    assert!(!child_1.state_eq(&child_2));
    assert!(!child_1.state_eq(&parent));
    assert!(!child_2.state_eq(&parent));
}

#[test]
fn secure_fork_independence() {
    let mut parent = ChaChaRngComponent::with_seed([9; 40]);

    let child_1 = ChaChaRngComponent(parent.fork());
    let child_2 = ChaChaRngComponent(parent.fork());

    assert!(!child_1.state_eq(&child_2));
    assert!(!child_1.state_eq(&parent));
    assert!(!child_2.state_eq(&parent));
}

#[test]
fn creation_scenario_golden_triplet() {
    // Golden fixture: seed the fast global holder with 12345, derive the
    // player and two enemies in creation order, record each holder's first
    // draw over [0, 10]. The triplet must come out the same on every run.
    let mut global = GlobalRng::with_seed(12345);

    let mut player = RngComponent::from_global(&mut global);
    let mut enemy_1 = RngComponent::from_global(&mut global);
    let mut enemy_2 = RngComponent::from_global(&mut global);

    let triplet = (
        player.u32_inclusive(0, 10),
        enemy_1.u32_inclusive(0, 10),
        enemy_2.u32_inclusive(0, 10),
    );

    assert_eq!(triplet, (4, 6, 2));

    // Re-deriving from the same seed reproduces the triplet exactly.
    let mut global = GlobalRng::with_seed(12345);
    let again = (
        RngComponent::from_global(&mut global).u32_inclusive(0, 10),
        RngComponent::from_global(&mut global).u32_inclusive(0, 10),
        RngComponent::from_global(&mut global).u32_inclusive(0, 10),
    );
    assert_eq!(triplet, again);
}

#[test]
fn equal_seeds_equal_streams() {
    let mut a = RngComponent::with_seed(42);
    let mut b = RngComponent::with_seed(42);

    for _ in 0..50 {
        assert_eq!(a.u8_inclusive(0, 200), b.u8_inclusive(0, 200));
        assert_eq!(a.u16_inclusive(5, 4000), b.u16_inclusive(5, 4000));
        assert_eq!(a.u64_inclusive(0, u64::MAX), b.u64_inclusive(0, u64::MAX));
        assert_eq!(a.i32_inclusive(-50, 50), b.i32_inclusive(-50, 50));
        assert_eq!(a.draw_bool(), b.draw_bool());
        assert_eq!(a.digit(16), b.digit(16));
    }
    assert!(a.state_eq(&b));
}

#[test]
fn equal_seeds_equal_secure_streams() {
    let mut a = ChaChaRngComponent::with_seed([3; 40]);
    let mut b = ChaChaRngComponent::with_seed([3; 40]);

    for _ in 0..50 {
        assert_eq!(a.u32_inclusive(0, 1000), b.u32_inclusive(0, 1000));
        assert_eq!(a.u64_inclusive(7, 900_000), b.u64_inclusive(7, 900_000));
    }
    assert!(a.state_eq(&b));
}

#[test]
fn fill_bytes_is_deterministic() {
    let mut a = GlobalRng::with_seed(5);
    let mut b = GlobalRng::with_seed(5);

    let mut buf_a = vec![0u8; 20];
    let mut buf_b = vec![0u8; 20];
    a.fill_bytes(&mut buf_a);
    b.fill_bytes(&mut buf_b);

    assert_eq!(buf_a, buf_b);
    assert_ne!(buf_a, vec![0u8; 20]);
    assert_eq!(buf_a.len(), 20);
}
