use planet_shaders::noise_preset::{
    crear_ruido_camo, crear_ruido_cellular_agujero_negro, crear_ruido_cellular_bacteria,
    crear_ruido_cellular_puntas, crear_ruido_grupos, crear_ruido_perlin, crear_ruido_variado,
    noise_config, DistanceFunction, FractalMode, NoiseKind, NoisePreset, ReturnType,
};

#[test]
fn perlin_preset_values() {
    let c = crear_ruido_perlin();
    assert_eq!(c.kind, NoiseKind::Perlin);
    assert_eq!(c.seed, 100);
    assert_eq!(c.frequency_milli, 30);
    assert_eq!(c.fractal, FractalMode::PingPong);
    assert_eq!(c.octaves, 9);
    assert_eq!(c.lacunarity_milli, 1000);
    assert_eq!(c.gain_milli, 100);
    assert_eq!(c.ping_pong_strength_milli, 9000);
}

#[test]
fn bacteria_preset_values() {
    let c = crear_ruido_cellular_bacteria();
    assert_eq!(c.kind, NoiseKind::Cellular);
    assert_eq!(c.seed, 1337);
    assert_eq!(c.frequency_milli, 10);
    assert_eq!(c.distance, DistanceFunction::EuclideanSq);
    assert_eq!(c.return_type, ReturnType::Distance2Mul);
    assert_eq!(c.jitter_milli, 1000);
    assert_eq!(c.fractal, FractalMode::PingPong);
    assert_eq!(c.octaves, 3);
    assert_eq!(c.lacunarity_milli, 2000);
    assert_eq!(c.gain_milli, 1000);
    assert_eq!(c.ping_pong_strength_milli, 7000);
}

#[test]
fn black_hole_preset_values() {
    let c = crear_ruido_cellular_agujero_negro();
    assert_eq!(c.kind, NoiseKind::Perlin);
    assert_eq!(c.seed, 100);
    assert_eq!(c.frequency_milli, 30);
    assert_eq!(c.fractal, FractalMode::PingPong);
    assert_eq!(c.octaves, 9);
    assert_eq!(c.gain_milli, 1000);
    assert_eq!(c.weighted_strength_milli, 3000);
    assert_eq!(c.ping_pong_strength_milli, 10000);
}

#[test]
fn camo_preset_values() {
    let c = crear_ruido_camo();
    assert_eq!(c.kind, NoiseKind::OpenSimplex2);
    assert_eq!(c.seed, 1337);
    assert_eq!(c.frequency_milli, 10);
    assert_eq!(c.fractal, FractalMode::Ridged);
    assert_eq!(c.octaves, 9);
    assert_eq!(c.lacunarity_milli, 5000);
    assert_eq!(c.weighted_strength_milli, 7000);
}

#[test]
fn variado_preset_values() {
    let c = crear_ruido_variado();
    assert_eq!(c.kind, NoiseKind::Cellular);
    assert_eq!(c.seed, 100);
    assert_eq!(c.fractal, FractalMode::FBm);
    assert_eq!(c.octaves, 9);
    assert_eq!(c.weighted_strength_milli, 3000);
    assert_eq!(c.return_type, ReturnType::Distance2Div);
}

#[test]
fn grupos_preset_values() {
    let c = crear_ruido_grupos();
    assert_eq!(c.distance, DistanceFunction::Hybrid);
    assert_eq!(c.return_type, ReturnType::Distance2Sub);
    assert_eq!(c.jitter_milli, 2000);
    assert_eq!(c.gain_milli, 500);
    assert_eq!(c.ping_pong_strength_milli, 1000);
}

#[test]
fn puntas_preset_values() {
    let c = crear_ruido_cellular_puntas();
    assert_eq!(c.kind, NoiseKind::Cellular);
    assert_eq!(c.fractal, FractalMode::Single);
    assert_eq!(c.distance, DistanceFunction::Manhattan);
    assert_eq!(c.return_type, ReturnType::Distance);
    assert_eq!(c.frequency_milli, 30);
}

#[test]
fn presets_are_rebuilt_identically() {
    let all = [
        NoisePreset::Perlin,
        NoisePreset::CellularBacteria,
        NoisePreset::CellularBlackHole,
        NoisePreset::Camo,
        NoisePreset::Variado,
        NoisePreset::Grupos,
        NoisePreset::CellularPuntas,
    ];
    for p in all {
        assert_eq!(noise_config(p), noise_config(p));
    }
    assert_eq!(noise_config(NoisePreset::Grupos), crear_ruido_grupos());
    assert_ne!(noise_config(NoisePreset::Perlin), noise_config(NoisePreset::CellularBlackHole));
}
