use fps_paintball_wildwest::ballistics::{
    mix_seed, next_unit, paintball_fate, spread_samples, trail_budget, trail_over_cap, PaintballFate, MAX_TRAILS,
};

#[test]
fn mix_seed_known_values() {
    // First output of SplitMix64 seeded with 0.
    assert_eq!(mix_seed(0), 0xE220_A839_7B1D_CDAF);
    assert_eq!(mix_seed(0x9E37_79B9_7F4A_7C15_u64.wrapping_mul(0)), 0xE220_A839_7B1D_CDAF);
    assert_ne!(mix_seed(1), mix_seed(2));
}

#[test]
fn next_unit_advances_and_stays_below_one() {
    let mut s = 12345u64;
    let a = next_unit(&mut s);
    assert_eq!(s, mix_seed(12345));
    assert_eq!(a as u64, s >> 40);
    assert!(a < (1 << 24));
    let unit = a as f32 / (1u64 << 24) as f32;
    assert!((0.0..1.0).contains(&unit));
}

#[test]
fn spread_samples_match_the_stream() {
    let seed = 7u64;
    let n = 12usize;
    let samples = spread_samples(seed, n);
    assert_eq!(samples.len(), 12);
    let mut s = mix_seed(seed ^ ((n as u64) << 32));
    for (r, t) in &samples {
        s = mix_seed(s);
        assert_eq!(*r as u64, s >> 40);
        s = mix_seed(s);
        assert_eq!(*t as u64, s >> 40);
        assert!(*r < (1 << 24) && *t < (1 << 24));
    }
    // Deterministic per shot.
    assert_eq!(spread_samples(seed, n), samples);
    assert_ne!(spread_samples(seed + 1, n), samples);
    assert!(spread_samples(seed, 0).is_empty());
    assert_eq!(spread_samples(seed, 1).len(), 1);
}

#[test]
fn paintball_fates() {
    assert_eq!(paintball_fate(false, false), PaintballFate::Fly);
    assert_eq!(paintball_fate(false, true), PaintballFate::Vanish);
    assert_eq!(paintball_fate(true, false), PaintballFate::Splat);
    assert_eq!(paintball_fate(true, true), PaintballFate::Splat);
}

#[test]
fn trail_cap() {
    assert_eq!(MAX_TRAILS, 60);
    assert_eq!(trail_budget(10, 5), (10, 5));
    assert_eq!(trail_budget(58, 12), (48, 12));
    assert_eq!(trail_budget(60, 0), (60, 0));
    assert_eq!(trail_budget(100, 0), (60, 0));
    assert_eq!(trail_budget(30, 200), (0, 60));
    assert_eq!(trail_budget(0, 0), (0, 0));
    for existing in 0..130usize {
        for new in 0..130usize {
            let (keep, spawn) = trail_budget(existing, new);
            assert!(keep + spawn <= 60);
            assert!(keep <= existing && spawn <= new);
            if keep < existing || spawn < new {
                assert_eq!(keep + spawn, 60);
            }
        }
    }
    assert!(!trail_over_cap(1, 48));
    assert!(!trail_over_cap(48, 48));
    assert!(trail_over_cap(49, 48));
}
