use terrain_editor_tools::fixed::{clamp_to_unit, fixed_scale, lerp, sat_add, MICRO};
use noise::{Fbm, NoiseFn, Perlin};
use terrain_editor_tools::noises::{effective_octaves, BaseNoise, Combinator, Noise, NoiseType};

#[test]
fn iterator_lists_every_variant_once() {
    let all = NoiseType::iterator();
    assert_eq!(all.len(), 27);
    for i in 0..all.len() {
        for j in 0..i {
            assert_ne!(all[i], all[j]);
        }
    }
    assert_eq!(all[0], NoiseType::Perlin);
    assert_eq!(all[26], NoiseType::HMSS);
}

#[test]
fn noise_defaults() {
    let n = Noise::new();
    assert_eq!(n.typ, NoiseType::Perlin);
    assert_eq!(n.seed, 1);
    assert_eq!(n.scale, MICRO);
    assert_eq!(n.octaves, 6);
    assert_eq!(n.freq, MICRO);
    assert!(!n.global);
}

#[test]
fn unsupported_octave_counts_fall_back() {
    assert_eq!(effective_octaves(0), 6);
    assert_eq!(effective_octaves(1), 1);
    assert_eq!(effective_octaves(3), 3);
    assert_eq!(effective_octaves(6), 6);
    assert_eq!(effective_octaves(7), 6);
    assert_eq!(effective_octaves(usize::MAX), 6);
}

#[test]
fn saturating_addition() {
    assert_eq!(sat_add(2 * MICRO, MICRO), 3 * MICRO);
    assert_eq!(sat_add(i64::MAX, 1), i64::MAX);
    assert_eq!(sat_add(i64::MIN, -1), i64::MIN);
    assert_eq!(sat_add(-MICRO, MICRO), 0);
}

#[test]
fn fixed_point_scaling_rounds_toward_zero() {
    assert_eq!(fixed_scale(3 * MICRO, MICRO / 2), 3 * MICRO / 2);
    assert_eq!(fixed_scale(-3 * MICRO, MICRO / 2), -3 * MICRO / 2);
    // 0.0000015 * 0.5 truncates to 0 from either side.
    assert_eq!(fixed_scale(1, 500_000), 0);
    assert_eq!(fixed_scale(-1, 500_000), 0);
    assert_eq!(fixed_scale(i64::MAX, 4 * MICRO), i64::MAX);
    assert_eq!(fixed_scale(i64::MAX, -4 * MICRO), i64::MIN);
}

#[test]
fn unit_clamp() {
    assert_eq!(clamp_to_unit(-5), 0);
    assert_eq!(clamp_to_unit(123), 123);
    assert_eq!(clamp_to_unit(MICRO + 1), MICRO);
}

#[test]
fn interpolation_endpoints_and_midpoint() {
    assert_eq!(lerp(0, MICRO, 0, 0, 10 * MICRO), 0);
    assert_eq!(lerp(0, MICRO, 10 * MICRO, 0, 10 * MICRO), MICRO);
    assert_eq!(lerp(0, MICRO, 5 * MICRO, 0, 10 * MICRO), 500_000);
    // Interpolation can run downhill.
    assert_eq!(lerp(MICRO, 0, 5 * MICRO, 0, 10 * MICRO), 500_000);
    // A degenerate band pins the result to the low value.
    assert_eq!(lerp(250_000, 750_000, 3, 3, 3), 250_000);
}

#[test]
fn decomposition_matches_tags() {
    assert_eq!(
        NoiseType::Perlin.decompose(),
        (BaseNoise::Perlin, Combinator::Plain)
    );
    assert_eq!(
        NoiseType::Worley.decompose(),
        (BaseNoise::Worley, Combinator::Plain)
    );
    assert_eq!(
        NoiseType::FBMPerlin.decompose(),
        (BaseNoise::Perlin, Combinator::FractalBrownianMotion)
    );
    assert_eq!(
        NoiseType::RMValue.decompose(),
        (BaseNoise::Value, Combinator::RidgedMulti)
    );
    assert_eq!(
        NoiseType::HMSS.decompose(),
        (BaseNoise::SuperSimplex, Combinator::HybridMulti)
    );
}

#[test]
fn decomposition_never_repeats_a_pairing() {
    let all = NoiseType::iterator();
    for i in 0..all.len() {
        for j in 0..i {
            assert_ne!(all[i].decompose(), all[j].decompose());
        }
    }
}

#[test]
fn host_noise_sampling_is_deterministic() {
    // The noise brushes assume that a layer's field is a pure function of
    // its parameters: rebuilding the evaluator from the same descriptor
    // and sampling the same point must give bit-identical results.
    let n = Noise::new();
    let mut a: Fbm<Perlin> = Fbm::new(n.seed);
    a.octaves = effective_octaves(n.octaves);
    let mut b: Fbm<Perlin> = Fbm::new(n.seed);
    b.octaves = effective_octaves(n.octaves);
    let pa = a.get([0.37, -1.25]);
    let pb = b.get([0.37, -1.25]);
    assert_eq!(pa.to_bits(), pb.to_bits());
    assert_eq!(pa.to_bits(), a.get([0.37, -1.25]).to_bits());
}
