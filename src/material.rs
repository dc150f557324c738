//! The surface materials: each turns a shading sample into a colour by
//! blending fixed base colours with a factor derived from noise.

use vstd::prelude::*;
use crate::color::{Color, lerp_spec, scale_spec};
use crate::fixed::{
    FX_ONE, floor_div, lemma_div_range, lemma_mul_range, fx_cube, fx_mul, fx_pow_three_halves, fx_square, remap, cube_exec,
    mul_exec, pow_three_halves_exec, remap_exec, square_exec,
};

verus! {

/// The number of octaves summed by the water material.
pub const WATER_OCTAVES: usize = 5;

#[derive(Clone, Copy, Debug, PartialEq, Eq, Structural)]
pub enum Material {
    Craters,
    Ice,
    Volcanic,
    DeepOcean,
    Desert,
    Water,
    Jungle,
    Methane,
    RockyMountain,
    Aurora,
}

/// What a material reads of one rasterized pixel, every value in fixed point
/// (see `FX_ONE`).
#[derive(Clone, Copy, Debug)]
pub struct Sample {
    /// The material's noise at the sample's object-space x, y scaled by
    /// `noise_multiplier`.
    pub noise: i32,
    /// The sine of the sample's object-space y scaled by `wave_multiplier`.
    pub wave: i32,
    /// The water noise at the frequencies of `water_octave_frequency`.
    pub octaves: [i32; 5],
    /// The precomputed diffuse intensity.
    pub intensity: i64,
}

pub open spec fn rgb(r: u8, g: u8, b: u8) -> Color {
    Color { r, g, b }
}

/// The amplitude of water octave `i`, in sixteenths: 30 halved `i` times.
pub open spec fn octave_amplitude(i: nat) -> int
    decreases i,
{
    if i == 0 {
        480
    } else {
        octave_amplitude((i - 1) as nat) / 2
    }
}

/// The weighted sum of the first `k` octave samples, in sixteenths.
pub open spec fn octave_sum(o: Seq<i32>, k: nat) -> int
    decreases k,
{
    if k == 0 || k > o.len() {
        0
    } else {
        octave_sum(o, (k - 1) as nat) + o[k - 1] as int * octave_amplitude((k - 1) as nat)
    }
}

/// The water fractal: a base total of 10 plus each octave sample times its
/// amplitude (30, then halved at every octave), divided by the sum of the
/// amplitudes (58.125). Carried in sixteenths: 160 + sum, over 930.
pub open spec fn water_fractal_spec(o: Seq<i32>) -> int {
    (160 * FX_ONE + octave_sum(o, 5)) / 930
}

pub open spec fn abs_spec(x: int) -> int {
    if x < 0 {
        -x
    } else {
        x
    }
}

/// The colour of material `m` at sample `s`.
pub open spec fn shade_spec(m: Material, s: Sample) -> Color {
    let n = s.noise as int;
    let w = s.wave as int;
    let k = s.intensity as int;
    match m {
        Material::Volcanic => scale_spec(
            lerp_spec(rgb(169, 169, 169), rgb(255, 69, 0), fx_cube(remap(n))),
            k,
        ),
        Material::DeepOcean => scale_spec(lerp_spec(rgb(0, 105, 148), rgb(0, 34, 102), remap(w)), k),
        Material::Desert => scale_spec(
            lerp_spec(rgb(237, 201, 175), rgb(210, 180, 140), fx_square(remap(n))),
            k,
        ),
        Material::Ice => scale_spec(
            lerp_spec(
                rgb(173, 216, 230),
                rgb(224, 255, 255),
                if fx_square(n) > FX_ONE {
                    FX_ONE as int
                } else {
                    fx_square(n)
                },
            ),
            k,
        ),
        Material::Jungle => scale_spec(
            lerp_spec(rgb(34, 139, 34), rgb(50, 205, 50), fx_pow_three_halves(remap(n))),
            k,
        ),
        Material::Methane => scale_spec(
            lerp_spec(rgb(0, 153, 204), rgb(0, 51, 102), fx_cube(remap(n))),
            k,
        ),
        Material::RockyMountain => scale_spec(
            lerp_spec(rgb(139, 69, 19), rgb(255, 250, 250), fx_mul(remap(n), remap(w))),
            k,
        ),
        Material::Aurora => {
            let f = fx_square(remap(n));
            scale_spec(
                lerp_spec(lerp_spec(rgb(0, 255, 127), rgb(75, 0, 130), f), rgb(255, 255, 0), f),
                k,
            )
        },
        Material::Craters => scale_spec(
            lerp_spec(rgb(169, 169, 169), rgb(211, 211, 211), fx_pow_three_halves(fx_square(n))),
            k,
        ),
        Material::Water => {
            let r = water_fractal_spec(s.octaves@);
            let base = lerp_spec(rgb(0, 105, 148), rgb(0, 191, 255), remap(r));
            scale_spec(lerp_spec(base, rgb(173, 216, 230), abs_spec(r)), k)
        },
    }
}

/// The water fractal of five octave samples (fixed point).
pub fn ruido_fractal(octaves: &[i32; 5]) -> (r: i64)
    ensures
        r == water_fractal_spec(octaves@),
        -0x80_0000_0000 <= r <= 0x80_0000_0000,
{
    let mut total: i128 = 160 * FX_ONE as i128;
    let mut amplitude: i128 = 480;
    let mut i: usize = 0;
    while i < WATER_OCTAVES
        invariant
            0 <= i <= 5,
            octaves@.len() == 5,
            amplitude == octave_amplitude(i as nat),
            0 <= amplitude <= 480,
            total == 160 * FX_ONE + octave_sum(octaves@, i as nat),
            -(i * 0x100_0000_0000) <= total - 160 * FX_ONE <= i * 0x100_0000_0000,
        decreases 5 - i,
    {
        let sample: i32 = octaves[i];
        proof {
            lemma_mul_range(sample as int, amplitude as int, 0x8000_0000, 480);
        }
        total = total + sample as i128 * amplitude;
        amplitude = amplitude / 2;
        i = i + 1;
    }
    proof {
        assert(-0x80_0000_0000 * 930 <= total <= 0x80_0000_0000 * 930);
    }
    let q = floor_div(total, 930);
    proof {
        lemma_div_range(total as int, 930, -0x80_0000_0000, 0x80_0000_0000);
    }
    q as i64
}

/// Fiery rock: grey toward magma by the cube of the remapped noise.
pub fn volcanico_shader(s: &Sample) -> (c: Color)
    ensures
        c == shade_spec(Material::Volcanic, *s),
{
    let color_roca = Color::new(169, 169, 169);
    let color_magma = Color::new(255, 69, 0);
    let factor = cube_exec(remap_exec(s.noise as i64));
    color_roca.lerp(&color_magma, factor).scale(s.intensity)
}

/// Deep ocean: surface blue toward depth blue by the remapped wave.
pub fn oceano_profundo_shader(s: &Sample) -> (c: Color)
    ensures
        c == shade_spec(Material::DeepOcean, *s),
{
    let color_superficie = Color::new(0, 105, 148);
    let color_profundidad = Color::new(0, 34, 102);
    let profundidad = remap_exec(s.wave as i64);
    color_superficie.lerp(&color_profundidad, profundidad).scale(s.intensity)
}

/// Desert: light toward dark sand by the square of the remapped noise.
pub fn desierto_shader(s: &Sample) -> (c: Color)
    ensures
        c == shade_spec(Material::Desert, *s),
{
    let arena_clara = Color::new(237, 201, 175);
    let arena_oscura = Color::new(210, 180, 140);
    let factor = square_exec(remap_exec(s.noise as i64));
    arena_clara.lerp(&arena_oscura, factor).scale(s.intensity)
}

/// Ice: pale blue toward crack white by the squared noise, at most 1.
pub fn hielo_shader(s: &Sample) -> (c: Color)
    ensures
        c == shade_spec(Material::Ice, *s),
{
    let hielo = Color::new(173, 216, 230);
    let grieta = Color::new(224, 255, 255);
    let sq = square_exec(s.noise as i64);
    let factor = if sq > FX_ONE {
        FX_ONE
    } else {
        sq
    };
    hielo.lerp(&grieta, factor).scale(s.intensity)
}

/// Jungle: dark toward light green by the remapped noise to the power 1.5.
pub fn jungla_shader(s: &Sample) -> (c: Color)
    ensures
        c == shade_spec(Material::Jungle, *s),
{
    let verde_oscuro = Color::new(34, 139, 34);
    let verde_claro = Color::new(50, 205, 50);
    let factor = pow_three_halves_exec(remap_exec(s.noise as i64));
    verde_oscuro.lerp(&verde_claro, factor).scale(s.intensity)
}

/// Methane: gas blue toward dark blue by the cube of the remapped noise.
pub fn metano_shader(s: &Sample) -> (c: Color)
    ensures
        c == shade_spec(Material::Methane, *s),
{
    let azul_gas = Color::new(0, 153, 204);
    let azul_oscuro = Color::new(0, 51, 102);
    let factor = cube_exec(remap_exec(s.noise as i64));
    azul_gas.lerp(&azul_oscuro, factor).scale(s.intensity)
}

/// Rocky mountains: rock toward snow by the remapped noise times the
/// remapped wave (the height band).
pub fn rocoso_montanoso_shader(s: &Sample) -> (c: Color)
    ensures
        c == shade_spec(Material::RockyMountain, *s),
{
    let roca = Color::new(139, 69, 19);
    let nieve = Color::new(255, 250, 250);
    let altura = remap_exec(s.wave as i64);
    let factor = mul_exec(remap_exec(s.noise as i64), altura);
    roca.lerp(&nieve, factor).scale(s.intensity)
}

/// Aurora: green toward purple, then toward yellow, both by the square of
/// the remapped noise.
pub fn aurora_shader(s: &Sample) -> (c: Color)
    ensures
        c == shade_spec(Material::Aurora, *s),
{
    let verde = Color::new(0, 255, 127);
    let morado = Color::new(75, 0, 130);
    let amarillo = Color::new(255, 255, 0);
    let factor = square_exec(remap_exec(s.noise as i64));
    verde.lerp(&morado, factor).lerp(&amarillo, factor).scale(s.intensity)
}

/// Craters: dark toward light grey by the squared noise to the power 1.5.
pub fn crateres_shader(s: &Sample) -> (c: Color)
    ensures
        c == shade_spec(Material::Craters, *s),
{
    let gris_oscuro = Color::new(169, 169, 169);
    let gris_claro = Color::new(211, 211, 211);
    let factor = pow_three_halves_exec(square_exec(s.noise as i64));
    gris_oscuro.lerp(&gris_claro, factor).scale(s.intensity)
}

/// Open water: two blues blended by the remapped water fractal, then toward
/// a highlight by its absolute value.
pub fn shader_agua(s: &Sample) -> (c: Color)
    ensures
        c == shade_spec(Material::Water, *s),
{
    let agua_1 = Color::new(0, 105, 148);
    let agua_2 = Color::new(0, 191, 255);
    let color_h = Color::new(173, 216, 230);
    let ruido = ruido_fractal(&s.octaves);
    let olas = remap_exec(ruido);
    let base_color = agua_1.lerp(&agua_2, olas);
    let magnitude = if ruido < 0 {
        -ruido
    } else {
        ruido
    };
    base_color.lerp(&color_h, magnitude).scale(s.intensity)
}

/// The colour of material `m` at sample `s`.
pub fn shade(m: Material, s: &Sample) -> (c: Color)
    ensures
        c == shade_spec(m, *s),
{
    match m {
        Material::Craters => crateres_shader(s),
        Material::Ice => hielo_shader(s),
        Material::Volcanic => volcanico_shader(s),
        Material::DeepOcean => oceano_profundo_shader(s),
        Material::Desert => desierto_shader(s),
        Material::Water => shader_agua(s),
        Material::Jungle => jungla_shader(s),
        Material::Methane => metano_shader(s),
        Material::RockyMountain => rocoso_montanoso_shader(s),
        Material::Aurora => aurora_shader(s),
    }
}

/// The factor by which a material scales the object-space x, y before it
/// samples its noise (water samples its own octaves instead, deep ocean none).
pub open spec fn noise_multiplier_spec(m: Material) -> int {
    match m {
        Material::Volcanic => 10,
        Material::Desert => 5,
        Material::Ice => 15,
        Material::Jungle => 20,
        Material::Methane => 1,
        Material::RockyMountain => 10,
        Material::Aurora => 5,
        Material::Craters => 15,
        Material::Water => 0,
        Material::DeepOcean => 0,
    }
}

pub fn noise_multiplier(m: Material) -> (k: u32)
    ensures
        k == noise_multiplier_spec(m),
{
    match m {
        Material::Volcanic => 10,
        Material::Desert => 5,
        Material::Ice => 15,
        Material::Jungle => 20,
        Material::Methane => 1,
        Material::RockyMountain => 10,
        Material::Aurora => 5,
        Material::Craters => 15,
        Material::Water => 0,
        Material::DeepOcean => 0,
    }
}

/// The factor by which a material scales the object-space y before it takes
/// the sine for `Sample::wave`; 0 where the material reads no wave.
pub fn wave_multiplier(m: Material) -> (k: u32)
    ensures
        k == (match m {
            Material::DeepOcean => 5int,
            Material::RockyMountain => 3int,
            _ => 0int,
        }),
{
    match m {
        Material::DeepOcean => 5,
        Material::RockyMountain => 3,
        _ => 0,
    }
}

/// The coordinate scale of water octave `i`: 20, doubled at every octave.
pub fn water_octave_frequency(i: usize) -> (f: u32)
    requires
        i < WATER_OCTAVES,
    ensures
        f == 20 * vstd::arithmetic::power2::pow2(i as nat),
{
    let mut f: u32 = 20;
    let mut j: usize = 0;
    proof {
        vstd::arithmetic::power2::lemma2_to64();
    }
    while j < i
        invariant
            j <= i < 5,
            f == 20 * vstd::arithmetic::power2::pow2(j as nat),
        decreases i - j,
    {
        proof {
            vstd::arithmetic::power2::lemma2_to64();
            vstd::arithmetic::power2::lemma_pow2_unfold((j + 1) as nat);
        }
        f = f * 2;
        j = j + 1;
    }
    f
}

} // verus!
