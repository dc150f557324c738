//! The fixed fractal-noise configurations that texture the materials.
//! Every real-valued parameter is carried in thousandths (`frequency_milli: 30`
//! is a frequency of 0.030).

use vstd::prelude::*;

verus! {

#[derive(Clone, Copy, Debug, PartialEq, Eq, Structural)]
pub enum NoiseKind {
    Perlin,
    Cellular,
    OpenSimplex2,
}

#[derive(Clone, Copy, Debug, PartialEq, Eq, Structural)]
pub enum FractalMode {
    Single,
    FBm,
    Ridged,
    PingPong,
}

#[derive(Clone, Copy, Debug, PartialEq, Eq, Structural)]
pub enum DistanceFunction {
    EuclideanSq,
    Manhattan,
    Hybrid,
}

#[derive(Clone, Copy, Debug, PartialEq, Eq, Structural)]
pub enum ReturnType {
    Distance,
    Distance2Mul,
    Distance2Div,
    Distance2Sub,
}

/// A complete parameter set of a noise generator. Fields that a preset does
/// not choose hold the generator's defaults (octaves 3, lacunarity 2.0,
/// gain 0.5, weighted strength 0, ping-pong strength 2.0, distance
/// Euclidean squared, return type distance, jitter 1.0).
#[derive(Clone, Copy, Debug, PartialEq, Eq, Structural)]
pub struct NoiseConfig {
    pub kind: NoiseKind,
    pub seed: i32,
    pub frequency_milli: i32,
    pub fractal: FractalMode,
    pub octaves: i32,
    pub lacunarity_milli: i32,
    pub gain_milli: i32,
    pub weighted_strength_milli: i32,
    pub ping_pong_strength_milli: i32,
    pub distance: DistanceFunction,
    pub return_type: ReturnType,
    pub jitter_milli: i32,
}

/// The seven named presets.
#[derive(Clone, Copy, Debug, PartialEq, Eq, Structural)]
pub enum NoisePreset {
    Perlin,
    CellularBacteria,
    CellularBlackHole,
    Camo,
    Variado,
    Grupos,
    CellularPuntas,
}

/// The parameter table of the presets.
pub open spec fn preset_spec(p: NoisePreset) -> NoiseConfig {
    match p {
        NoisePreset::Perlin => NoiseConfig {
            kind: NoiseKind::Perlin, seed: 100, frequency_milli: 30,
            fractal: FractalMode::PingPong, octaves: 9, lacunarity_milli: 1000, gain_milli: 100,
            weighted_strength_milli: 0, ping_pong_strength_milli: 9000,
            distance: DistanceFunction::EuclideanSq, return_type: ReturnType::Distance, jitter_milli: 1000,
        },
        NoisePreset::CellularBacteria => NoiseConfig {
            kind: NoiseKind::Cellular, seed: 1337, frequency_milli: 10,
            fractal: FractalMode::PingPong, octaves: 3, lacunarity_milli: 2000, gain_milli: 1000,
            weighted_strength_milli: 0, ping_pong_strength_milli: 7000,
            distance: DistanceFunction::EuclideanSq, return_type: ReturnType::Distance2Mul, jitter_milli: 1000,
        },
        NoisePreset::CellularBlackHole => NoiseConfig {
            kind: NoiseKind::Perlin, seed: 100, frequency_milli: 30,
            fractal: FractalMode::PingPong, octaves: 9, lacunarity_milli: 1000, gain_milli: 1000,
            weighted_strength_milli: 3000, ping_pong_strength_milli: 10000,
            distance: DistanceFunction::EuclideanSq, return_type: ReturnType::Distance, jitter_milli: 1000,
        },
        NoisePreset::Camo => NoiseConfig {
            kind: NoiseKind::OpenSimplex2, seed: 1337, frequency_milli: 10,
            fractal: FractalMode::Ridged, octaves: 9, lacunarity_milli: 5000, gain_milli: 1000,
            weighted_strength_milli: 7000, ping_pong_strength_milli: 2000,
            distance: DistanceFunction::EuclideanSq, return_type: ReturnType::Distance, jitter_milli: 1000,
        },
        NoisePreset::Variado => NoiseConfig {
            kind: NoiseKind::Cellular, seed: 100, frequency_milli: 30,
            fractal: FractalMode::FBm, octaves: 9, lacunarity_milli: 1000, gain_milli: 1000,
            weighted_strength_milli: 3000, ping_pong_strength_milli: 2000,
            distance: DistanceFunction::EuclideanSq, return_type: ReturnType::Distance2Div, jitter_milli: 1000,
        },
        NoisePreset::Grupos => NoiseConfig {
            kind: NoiseKind::Cellular, seed: 1337, frequency_milli: 30,
            fractal: FractalMode::PingPong, octaves: 3, lacunarity_milli: 2000, gain_milli: 500,
            weighted_strength_milli: 0, ping_pong_strength_milli: 1000,
            distance: DistanceFunction::Hybrid, return_type: ReturnType::Distance2Sub, jitter_milli: 2000,
        },
        NoisePreset::CellularPuntas => NoiseConfig {
            kind: NoiseKind::Cellular, seed: 1337, frequency_milli: 30,
            fractal: FractalMode::Single, octaves: 3, lacunarity_milli: 2000, gain_milli: 500,
            weighted_strength_milli: 0, ping_pong_strength_milli: 2000,
            distance: DistanceFunction::Manhattan, return_type: ReturnType::Distance, jitter_milli: 1000,
        },
    }
}

/// The configuration that starts from the generator's defaults.
fn base_config() -> (c: NoiseConfig)
    ensures
        c == (NoiseConfig {
            kind: NoiseKind::OpenSimplex2, seed: 1337, frequency_milli: 10,
            fractal: FractalMode::Single, octaves: 3, lacunarity_milli: 2000, gain_milli: 500,
            weighted_strength_milli: 0, ping_pong_strength_milli: 2000,
            distance: DistanceFunction::EuclideanSq, return_type: ReturnType::Distance, jitter_milli: 1000,
        }),
{
    NoiseConfig {
        kind: NoiseKind::OpenSimplex2,
        seed: 1337,
        frequency_milli: 10,
        fractal: FractalMode::Single,
        octaves: 3,
        lacunarity_milli: 2000,
        gain_milli: 500,
        weighted_strength_milli: 0,
        ping_pong_strength_milli: 2000,
        distance: DistanceFunction::EuclideanSq,
        return_type: ReturnType::Distance,
        jitter_milli: 1000,
    }
}

/// Gradient noise, ping-pong fractal with a small gain.
pub fn crear_ruido_perlin() -> (c: NoiseConfig)
    ensures
        c == preset_spec(NoisePreset::Perlin),
{
    let mut noise = base_config();
    noise.kind = NoiseKind::Perlin;
    noise.seed = 100;
    noise.frequency_milli = 30;
    noise.fractal = FractalMode::PingPong;
    noise.octaves = 9;
    noise.lacunarity_milli = 1000;
    noise.gain_milli = 100;
    noise.ping_pong_strength_milli = 9000;
    noise
}

/// Cellular noise, distance squared times two, ping-pong fractal.
pub fn crear_ruido_cellular_bacteria() -> (c: NoiseConfig)
    ensures
        c == preset_spec(NoisePreset::CellularBacteria),
{
    let mut noise = base_config();
    noise.kind = NoiseKind::Cellular;
    noise.seed = 1337;
    noise.frequency_milli = 10;
    noise.distance = DistanceFunction::EuclideanSq;
    noise.return_type = ReturnType::Distance2Mul;
    noise.jitter_milli = 1000;
    noise.fractal = FractalMode::PingPong;
    noise.octaves = 3;
    noise.lacunarity_milli = 2000;
    noise.gain_milli = 1000;
    noise.ping_pong_strength_milli = 7000;
    noise
}

/// Gradient noise, ping-pong fractal with weighted octaves.
pub fn crear_ruido_cellular_agujero_negro() -> (c: NoiseConfig)
    ensures
        c == preset_spec(NoisePreset::CellularBlackHole),
{
    let mut noise = base_config();
    noise.kind = NoiseKind::Perlin;
    noise.seed = 100;
    noise.frequency_milli = 30;
    noise.fractal = FractalMode::PingPong;
    noise.octaves = 9;
    noise.lacunarity_milli = 1000;
    noise.gain_milli = 1000;
    noise.weighted_strength_milli = 3000;
    noise.ping_pong_strength_milli = 10000;
    noise
}

/// Simplex-like noise with a ridged fractal.
pub fn crear_ruido_camo() -> (c: NoiseConfig)
    ensures
        c == preset_spec(NoisePreset::Camo),
{
    let mut noise = base_config();
    noise.kind = NoiseKind::OpenSimplex2;
    noise.seed = 1337;
    noise.frequency_milli = 10;
    noise.fractal = FractalMode::Ridged;
    noise.octaves = 9;
    noise.lacunarity_milli = 5000;
    noise.gain_milli = 1000;
    noise.weighted_strength_milli = 7000;
    noise
}

/// Cellular noise, distance squared divided, Brownian-motion fractal.
pub fn crear_ruido_variado() -> (c: NoiseConfig)
    ensures
        c == preset_spec(NoisePreset::Variado),
{
    let mut noise = base_config();
    noise.kind = NoiseKind::Cellular;
    noise.seed = 100;
    noise.frequency_milli = 30;
    noise.fractal = FractalMode::FBm;
    noise.octaves = 9;
    noise.lacunarity_milli = 1000;
    noise.gain_milli = 1000;
    noise.weighted_strength_milli = 3000;
    noise.distance = DistanceFunction::EuclideanSq;
    noise.return_type = ReturnType::Distance2Div;
    noise.jitter_milli = 1000;
    noise
}

/// Cellular noise with the hybrid distance, ping-pong fractal.
pub fn crear_ruido_grupos() -> (c: NoiseConfig)
    ensures
        c == preset_spec(NoisePreset::Grupos),
{
    let mut noise = base_config();
    noise.kind = NoiseKind::Cellular;
    noise.seed = 1337;
    noise.frequency_milli = 30;
    noise.distance = DistanceFunction::Hybrid;
    noise.return_type = ReturnType::Distance2Sub;
    noise.jitter_milli = 2000;
    noise.fractal = FractalMode::PingPong;
    noise.octaves = 3;
    noise.lacunarity_milli = 2000;
    noise.gain_milli = 500;
    noise.ping_pong_strength_milli = 1000;
    noise
}

/// Cellular noise with the Manhattan distance and no fractal.
pub fn crear_ruido_cellular_puntas() -> (c: NoiseConfig)
    ensures
        c == preset_spec(NoisePreset::CellularPuntas),
{
    let mut noise = base_config();
    noise.kind = NoiseKind::Cellular;
    noise.seed = 1337;
    noise.frequency_milli = 30;
    noise.distance = DistanceFunction::Manhattan;
    noise.return_type = ReturnType::Distance;
    noise.jitter_milli = 1000;
    noise
}

/// The configuration of a preset, built afresh.
pub fn noise_config(p: NoisePreset) -> (c: NoiseConfig)
    ensures
        c == preset_spec(p),
{
    match p {
        NoisePreset::Perlin => crear_ruido_perlin(),
        NoisePreset::CellularBacteria => crear_ruido_cellular_bacteria(),
        NoisePreset::CellularBlackHole => crear_ruido_cellular_agujero_negro(),
        NoisePreset::Camo => crear_ruido_camo(),
        NoisePreset::Variado => crear_ruido_variado(),
        NoisePreset::Grupos => crear_ruido_grupos(),
        NoisePreset::CellularPuntas => crear_ruido_cellular_puntas(),
    }
}

} // verus!
