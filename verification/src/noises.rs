//! Noise layer descriptors and the catalogue of supported noise variants.
//!
//! A `Noise` value is plain data: it names one scalar noise field by
//! algorithm tag, seed, coordinate scale, octave count and frequency. The
//! host builds the matching evaluator from an outside noise library and
//! samples it at vertex positions; the brushes then combine the samples.
//! `NoiseType` spans seven base functions and five fractal combinators
//! applied to four of the bases.

use crate::fixed::MICRO;
use vstd::prelude::*;

verus! {

/// How many distinct noise variants the catalogue offers.
pub const NOISE_VARIANT_COUNT: usize = 27;

/// The octave count the fractal evaluators are built with by default.
pub const DEFAULT_OCTAVES: usize = 6;

/// The largest octave count the default evaluator construction supports;
/// counts outside 1..=MAX_OCTAVES fall back to `DEFAULT_OCTAVES`.
pub const MAX_OCTAVES: usize = 6;

/// One algorithm tag: a base noise function, or a fractal combinator
/// (Fractal-Brownian-Motion, Basic-Multi, Billow, Ridged-Multi,
/// Hybrid-Multi) over a base function.
#[derive(Clone, Copy, Debug, PartialEq, Eq, Structural)]
pub enum NoiseType {
    Perlin,
    PerlinSurflet,
    OpenSimplex,
    Value,
    SuperSimplex,
    Worley,
    Simplex,
    FBMPerlin,
    BMPerlin,
    BPerlin,
    RMPerlin,
    HMPerlin,
    FBMPerlinSurflet,
    BMPerlinSurflet,
    BPerlinSurflet,
    RMPerlinSurflet,
    HMPerlinSurflet,
    FBMValue,
    BMValue,
    BValue,
    RMValue,
    HMValue,
    FBMSS,
    BMSS,
    BSS,
    RMSS,
    HMSS,
}

/// Every supported algorithm tag, in catalogue order.
pub open spec fn all_noise_types() -> Seq<NoiseType> {
    seq![
        NoiseType::Perlin,
        NoiseType::PerlinSurflet,
        NoiseType::OpenSimplex,
        NoiseType::Value,
        NoiseType::SuperSimplex,
        NoiseType::Worley,
        NoiseType::Simplex,
        NoiseType::FBMPerlin,
        NoiseType::BMPerlin,
        NoiseType::BPerlin,
        NoiseType::RMPerlin,
        NoiseType::HMPerlin,
        NoiseType::FBMPerlinSurflet,
        NoiseType::BMPerlinSurflet,
        NoiseType::BPerlinSurflet,
        NoiseType::RMPerlinSurflet,
        NoiseType::HMPerlinSurflet,
        NoiseType::FBMValue,
        NoiseType::BMValue,
        NoiseType::BValue,
        NoiseType::RMValue,
        NoiseType::HMValue,
        NoiseType::FBMSS,
        NoiseType::BMSS,
        NoiseType::BSS,
        NoiseType::RMSS,
        NoiseType::HMSS,
    ]
}

impl NoiseType {
    /// The full catalogue of supported variants, for host-side selection.
    pub fn iterator() -> (r: Vec<NoiseType>)
        ensures
            r@ == all_noise_types(),
            r@.len() == NOISE_VARIANT_COUNT,
    {
        let r: Vec<NoiseType> = vec![
            NoiseType::Perlin,
            NoiseType::PerlinSurflet,
            NoiseType::OpenSimplex,
            NoiseType::Value,
            NoiseType::SuperSimplex,
            NoiseType::Worley,
            NoiseType::Simplex,
            NoiseType::FBMPerlin,
            NoiseType::BMPerlin,
            NoiseType::BPerlin,
            NoiseType::RMPerlin,
            NoiseType::HMPerlin,
            NoiseType::FBMPerlinSurflet,
            NoiseType::BMPerlinSurflet,
            NoiseType::BPerlinSurflet,
            NoiseType::RMPerlinSurflet,
            NoiseType::HMPerlinSurflet,
            NoiseType::FBMValue,
            NoiseType::BMValue,
            NoiseType::BValue,
            NoiseType::RMValue,
            NoiseType::HMValue,
            NoiseType::FBMSS,
            NoiseType::BMSS,
            NoiseType::BSS,
            NoiseType::RMSS,
            NoiseType::HMSS,
        ];
        proof {
            assert(r@ =~= all_noise_types());
        }
        r
    }
}

/// One noise layer: an algorithm tag with the parameters that pin its
/// scalar field down. `scale` multiplies the sampled coordinates and `freq`
/// is the combinator frequency, both in fixed point; `octaves` only matters
/// for combinator variants. `global` tells the host which coordinate frame
/// to sample in.
#[derive(Clone, Copy, Debug)]
pub struct Noise {
    pub typ: NoiseType,
    pub seed: u32,
    pub scale: i64,
    pub octaves: usize,
    pub freq: i64,
    pub global: bool,
}

impl Noise {
    /// A layer with the default parameters: Perlin noise, seed 1, unit
    /// scale and frequency, the default octave count.
    pub fn new() -> (r: Noise)
        ensures
            r.typ == NoiseType::Perlin,
            r.seed == 1u32,
            r.scale == MICRO,
            r.octaves == DEFAULT_OCTAVES,
            r.freq == MICRO,
            r.global == false,
    {
        Noise {
            typ: NoiseType::Perlin,
            seed: 1,
            scale: MICRO,
            octaves: DEFAULT_OCTAVES,
            freq: MICRO,
            global: false,
        }
    }
}

/// The octave count actually used when building an evaluator: counts the
/// default construction cannot honour fall back to the default rather than
/// failing.
pub open spec fn effective_octaves_spec(octaves: usize) -> usize {
    if 1 <= octaves <= MAX_OCTAVES {
        octaves
    } else {
        DEFAULT_OCTAVES
    }
}

/// Replace an unsupported octave count by the default one.
pub fn effective_octaves(octaves: usize) -> (r: usize)
    ensures
        r == effective_octaves_spec(octaves),
{
    if 1 <= octaves && octaves <= MAX_OCTAVES {
        octaves
    } else {
        DEFAULT_OCTAVES
    }
}

// The catalogue factors into two orthogonal enumerations: a base function
// and a fractal combinator over it. The decomposition below is what an
// evaluator builder dispatches on; each tag names exactly one pairing.

/// The base noise functions.
#[derive(Clone, Copy, Debug, PartialEq, Eq, Structural)]
pub enum BaseNoise {
    Perlin,
    PerlinSurflet,
    OpenSimplex,
    Value,
    SuperSimplex,
    Worley,
    Simplex,
}

/// The fractal combinators; `Plain` is the bare base function.
#[derive(Clone, Copy, Debug, PartialEq, Eq, Structural)]
pub enum Combinator {
    Plain,
    FractalBrownianMotion,
    BasicMulti,
    Billow,
    RidgedMulti,
    HybridMulti,
}

/// The base function a tag samples.
pub open spec fn base_of(t: NoiseType) -> BaseNoise {
    match t {
        NoiseType::Perlin => BaseNoise::Perlin,
        NoiseType::PerlinSurflet => BaseNoise::PerlinSurflet,
        NoiseType::OpenSimplex => BaseNoise::OpenSimplex,
        NoiseType::Value => BaseNoise::Value,
        NoiseType::SuperSimplex => BaseNoise::SuperSimplex,
        NoiseType::Worley => BaseNoise::Worley,
        NoiseType::Simplex => BaseNoise::Simplex,
        NoiseType::FBMPerlin => BaseNoise::Perlin,
        NoiseType::BMPerlin => BaseNoise::Perlin,
        NoiseType::BPerlin => BaseNoise::Perlin,
        NoiseType::RMPerlin => BaseNoise::Perlin,
        NoiseType::HMPerlin => BaseNoise::Perlin,
        NoiseType::FBMPerlinSurflet => BaseNoise::PerlinSurflet,
        NoiseType::BMPerlinSurflet => BaseNoise::PerlinSurflet,
        NoiseType::BPerlinSurflet => BaseNoise::PerlinSurflet,
        NoiseType::RMPerlinSurflet => BaseNoise::PerlinSurflet,
        NoiseType::HMPerlinSurflet => BaseNoise::PerlinSurflet,
        NoiseType::FBMValue => BaseNoise::Value,
        NoiseType::BMValue => BaseNoise::Value,
        NoiseType::BValue => BaseNoise::Value,
        NoiseType::RMValue => BaseNoise::Value,
        NoiseType::HMValue => BaseNoise::Value,
        NoiseType::FBMSS => BaseNoise::SuperSimplex,
        NoiseType::BMSS => BaseNoise::SuperSimplex,
        NoiseType::BSS => BaseNoise::SuperSimplex,
        NoiseType::RMSS => BaseNoise::SuperSimplex,
        NoiseType::HMSS => BaseNoise::SuperSimplex,
    }
}

/// The combinator a tag wraps its base function in.
pub open spec fn combinator_of(t: NoiseType) -> Combinator {
    match t {
        NoiseType::Perlin => Combinator::Plain,
        NoiseType::PerlinSurflet => Combinator::Plain,
        NoiseType::OpenSimplex => Combinator::Plain,
        NoiseType::Value => Combinator::Plain,
        NoiseType::SuperSimplex => Combinator::Plain,
        NoiseType::Worley => Combinator::Plain,
        NoiseType::Simplex => Combinator::Plain,
        NoiseType::FBMPerlin => Combinator::FractalBrownianMotion,
        NoiseType::BMPerlin => Combinator::BasicMulti,
        NoiseType::BPerlin => Combinator::Billow,
        NoiseType::RMPerlin => Combinator::RidgedMulti,
        NoiseType::HMPerlin => Combinator::HybridMulti,
        NoiseType::FBMPerlinSurflet => Combinator::FractalBrownianMotion,
        NoiseType::BMPerlinSurflet => Combinator::BasicMulti,
        NoiseType::BPerlinSurflet => Combinator::Billow,
        NoiseType::RMPerlinSurflet => Combinator::RidgedMulti,
        NoiseType::HMPerlinSurflet => Combinator::HybridMulti,
        NoiseType::FBMValue => Combinator::FractalBrownianMotion,
        NoiseType::BMValue => Combinator::BasicMulti,
        NoiseType::BValue => Combinator::Billow,
        NoiseType::RMValue => Combinator::RidgedMulti,
        NoiseType::HMValue => Combinator::HybridMulti,
        NoiseType::FBMSS => Combinator::FractalBrownianMotion,
        NoiseType::BMSS => Combinator::BasicMulti,
        NoiseType::BSS => Combinator::Billow,
        NoiseType::RMSS => Combinator::RidgedMulti,
        NoiseType::HMSS => Combinator::HybridMulti,
    }
}

impl NoiseType {
    /// Factor this tag into its base function and combinator.
    pub fn decompose(&self) -> (r: (BaseNoise, Combinator))
        ensures
            r.0 == base_of(*self),
            r.1 == combinator_of(*self),
    {
        match self {
            NoiseType::Perlin => (BaseNoise::Perlin, Combinator::Plain),
            NoiseType::PerlinSurflet => (BaseNoise::PerlinSurflet, Combinator::Plain),
            NoiseType::OpenSimplex => (BaseNoise::OpenSimplex, Combinator::Plain),
            NoiseType::Value => (BaseNoise::Value, Combinator::Plain),
            NoiseType::SuperSimplex => (BaseNoise::SuperSimplex, Combinator::Plain),
            NoiseType::Worley => (BaseNoise::Worley, Combinator::Plain),
            NoiseType::Simplex => (BaseNoise::Simplex, Combinator::Plain),
            NoiseType::FBMPerlin => (BaseNoise::Perlin, Combinator::FractalBrownianMotion),
            NoiseType::BMPerlin => (BaseNoise::Perlin, Combinator::BasicMulti),
            NoiseType::BPerlin => (BaseNoise::Perlin, Combinator::Billow),
            NoiseType::RMPerlin => (BaseNoise::Perlin, Combinator::RidgedMulti),
            NoiseType::HMPerlin => (BaseNoise::Perlin, Combinator::HybridMulti),
            NoiseType::FBMPerlinSurflet => (
                BaseNoise::PerlinSurflet,
                Combinator::FractalBrownianMotion,
            ),
            NoiseType::BMPerlinSurflet => (BaseNoise::PerlinSurflet, Combinator::BasicMulti),
            NoiseType::BPerlinSurflet => (BaseNoise::PerlinSurflet, Combinator::Billow),
            NoiseType::RMPerlinSurflet => (BaseNoise::PerlinSurflet, Combinator::RidgedMulti),
            NoiseType::HMPerlinSurflet => (BaseNoise::PerlinSurflet, Combinator::HybridMulti),
            NoiseType::FBMValue => (BaseNoise::Value, Combinator::FractalBrownianMotion),
            NoiseType::BMValue => (BaseNoise::Value, Combinator::BasicMulti),
            NoiseType::BValue => (BaseNoise::Value, Combinator::Billow),
            NoiseType::RMValue => (BaseNoise::Value, Combinator::RidgedMulti),
            NoiseType::HMValue => (BaseNoise::Value, Combinator::HybridMulti),
            NoiseType::FBMSS => (BaseNoise::SuperSimplex, Combinator::FractalBrownianMotion),
            NoiseType::BMSS => (BaseNoise::SuperSimplex, Combinator::BasicMulti),
            NoiseType::BSS => (BaseNoise::SuperSimplex, Combinator::Billow),
            NoiseType::RMSS => (BaseNoise::SuperSimplex, Combinator::RidgedMulti),
            NoiseType::HMSS => (BaseNoise::SuperSimplex, Combinator::HybridMulti),
        }
    }
}

/// Law: no two tags of the catalogue sample the same base-and-combinator
/// pairing; the enumeration is the cross-product with nothing repeated.
pub proof fn lemma_decomposition_injective(t1: NoiseType, t2: NoiseType)
    requires
        base_of(t1) == base_of(t2),
        combinator_of(t1) == combinator_of(t2),
    ensures
        t1 == t2,
{
}

} // verus!
