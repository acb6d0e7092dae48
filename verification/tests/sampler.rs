use chaorder::sampler::RangeSampler;
use rand::SeedableRng;

fn seeded(seed: u64) -> rand::rngs::StdRng {
    rand::rngs::StdRng::seed_from_u64(seed)
}

#[test]
fn window_around_example_target() {
    // 'A' is code point 65; a vicinity of 2 gives the window [63, 67].
    assert_eq!(RangeSampler::bounds('A', 2), (63, 67));
}

#[test]
fn window_saturates_at_zero() {
    // A target at code point 0 never underflows: the lower end saturates.
    assert_eq!(RangeSampler::bounds('\u{0}', 5), (0, 5));
    assert_eq!(RangeSampler::bounds('\u{0}', u32::MAX), (0, 0x10FFFF));
}

#[test]
fn window_clamps_at_max_scalar() {
    // A target at the greatest scalar value never overflows past it.
    assert_eq!(RangeSampler::bounds('\u{10FFFF}', 7), (0x10FFF8, 0x10FFFF));
    assert_eq!(RangeSampler::bounds('\u{10FFFF}', u32::MAX), (0, 0x10FFFF));
}

#[test]
fn zero_vicinity_draw_is_the_target() {
    let mut rng = seeded(1);
    for target in ['\u{0}', 'A', '\u{D7FF}', '\u{E000}', '\u{10FFFF}'] {
        for _ in 0..8 {
            assert_eq!(RangeSampler::sample(target, 0, &mut rng), target);
        }
    }
}

#[test]
fn draws_stay_inside_the_window() {
    let mut rng = seeded(2);
    for _ in 0..200 {
        let c = RangeSampler::sample('A', 2, &mut rng);
        assert!((63..=67).contains(&(c as u32)));
    }
}

#[test]
fn draws_are_always_valid_scalars() {
    // Across targets next to every boundary and the widest possible window,
    // the drawn code point is never a surrogate and never beyond the maximum.
    let mut rng = seeded(3);
    for target in ['\u{0}', '\u{D7FF}', '\u{E000}', '\u{10FFFF}'] {
        for vicinity in [0, 1, 2048, 0x10FFFF, u32::MAX] {
            for _ in 0..50 {
                let c = RangeSampler::sample(target, vicinity, &mut rng);
                let v = c as u32;
                assert!(v <= 0x10FFFF);
                assert!(!(0xD800..=0xDFFF).contains(&v));
            }
        }
    }
}

#[test]
fn draws_vary_over_a_wide_window() {
    // A draw that ignored the random source and handed one end of the window
    // back would yield a single value; a wide window must show variety.
    let mut rng = seeded(4);
    let mut distinct = std::collections::BTreeSet::new();
    for _ in 0..100 {
        distinct.insert(RangeSampler::sample('A', 60, &mut rng) as u32);
    }
    assert!(distinct.len() > 5);
}
