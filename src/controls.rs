//! The viewer's input decisions: which material the digit keys select, and
//! which camera operations the movement keys ask for, in order.

use vstd::prelude::*;
use crate::material::Material;
use crate::noise_preset::NoisePreset;

verus! {

/// What a material key selects: the material, the noise preset it samples,
/// and whether the model is drawn tilted (a quarter turn about x) rather
/// than upright.
#[derive(Clone, Copy, Debug, PartialEq, Eq, Structural)]
pub struct Selection {
    pub material: Material,
    pub preset: NoisePreset,
    pub tilted: bool,
}

pub open spec fn selection_spec(key: u32) -> Selection {
    if key == 1 {
        Selection { material: Material::Ice, preset: NoisePreset::Perlin, tilted: false }
    } else if key == 2 {
        Selection { material: Material::Volcanic, preset: NoisePreset::CellularPuntas, tilted: false }
    } else if key == 3 {
        Selection { material: Material::DeepOcean, preset: NoisePreset::Perlin, tilted: false }
    } else if key == 4 {
        Selection { material: Material::Desert, preset: NoisePreset::Grupos, tilted: false }
    } else if key == 5 {
        Selection { material: Material::Water, preset: NoisePreset::Perlin, tilted: false }
    } else if key == 6 {
        Selection { material: Material::Jungle, preset: NoisePreset::CellularBacteria, tilted: false }
    } else if key == 7 {
        Selection { material: Material::Methane, preset: NoisePreset::Camo, tilted: false }
    } else if key == 8 {
        Selection {
            material: Material::RockyMountain,
            preset: NoisePreset::CellularBlackHole,
            tilted: false,
        }
    } else if key == 9 {
        Selection { material: Material::Aurora, preset: NoisePreset::Variado, tilted: true }
    } else {
        Selection { material: Material::Craters, preset: NoisePreset::Perlin, tilted: false }
    }
}

/// The material, preset and model pose bound to a material key; any key
/// outside `1 ..= 9` selects the craters.
pub fn select_material(key: u32) -> (s: Selection)
    ensures
        s == selection_spec(key),
{
    let (material, preset) = match key {
        1 => (Material::Ice, NoisePreset::Perlin),
        2 => (Material::Volcanic, NoisePreset::CellularPuntas),
        3 => (Material::DeepOcean, NoisePreset::Perlin),
        4 => (Material::Desert, NoisePreset::Grupos),
        5 => (Material::Water, NoisePreset::Perlin),
        6 => (Material::Jungle, NoisePreset::CellularBacteria),
        7 => (Material::Methane, NoisePreset::Camo),
        8 => (Material::RockyMountain, NoisePreset::CellularBlackHole),
        9 => (Material::Aurora, NoisePreset::Variado),
        _ => (Material::Craters, NoisePreset::Perlin),
    };
    Selection { material, preset, tilted: key == 9 }
}

/// The highest digit in `1 ..= k` whose key is down, or 0 if none is.
pub open spec fn highest_down(down: Seq<bool>, k: int) -> int
    decreases k,
{
    if k <= 0 {
        0
    } else if down[k] {
        k
    } else {
        highest_down(down, k - 1)
    }
}

/// The material key after one poll: digit keys are read 1 to 9 and then 0,
/// and the last one read that is down wins; with none down the key stays.
pub open spec fn next_key_spec(current: u32, down: Seq<bool>) -> u32 {
    if down[0] {
        0
    } else if highest_down(down, 9) > 0 {
        highest_down(down, 9) as u32
    } else {
        current
    }
}

/// The material key after a poll of the digit keys; `down[d]` tells whether
/// digit `d` is held.
pub fn next_key(current: u32, down: &[bool; 10]) -> (k: u32)
    ensures
        k == next_key_spec(current, down@),
{
    let mut key = current;
    let mut d: usize = 1;
    while d <= 9
        invariant
            1 <= d <= 10,
            down@.len() == 10,
            highest_down(down@, d - 1) > 0 ==> key == highest_down(down@, d - 1),
            highest_down(down@, d - 1) == 0 ==> key == current,
            0 <= highest_down(down@, d - 1) < d,
        decreases 10 - d,
    {
        if down[d] {
            key = d as u32;
        }
        d = d + 1;
    }
    if down[0] {
        key = 0;
    }
    key
}

/// The movement keys held during one poll.
#[derive(Clone, Copy, Debug, PartialEq, Eq, Structural)]
pub struct Keys {
    pub left: bool,
    pub right: bool,
    pub w: bool,
    pub s: bool,
    pub a: bool,
    pub d: bool,
    pub q: bool,
    pub e: bool,
    pub up: bool,
    pub down: bool,
}

/// One camera operation. Orbit steps are turns of pi/50, pan steps are
/// units of input direction, zoom steps are 0.1 toward the target.
#[derive(Clone, Copy, Debug, PartialEq, Eq, Structural)]
pub enum CameraAction {
    Orbit { yaw: i32, pitch: i32 },
    Pan { x: i32, y: i32 },
    Zoom { steps: i32 },
}

pub open spec fn when(held: bool, a: CameraAction) -> Seq<CameraAction> {
    if held {
        seq![a]
    } else {
        seq![]
    }
}

pub open spec fn pan_x(k: Keys) -> int {
    (if k.d { 1int } else { 0int }) - (if k.a { 1int } else { 0int })
}

pub open spec fn pan_y(k: Keys) -> int {
    (if k.q { 1int } else { 0int }) - (if k.e { 1int } else { 0int })
}

/// The camera operations of one poll, in the order they are applied: orbit
/// left, right, up (W), down (S); then one pan by the net A/D and Q/E
/// direction, if it is not zero; then zoom in (Up) and out (Down).
pub open spec fn actions_spec(k: Keys) -> Seq<CameraAction> {
    when(k.left, CameraAction::Orbit { yaw: 1, pitch: 0 })
        + when(k.right, CameraAction::Orbit { yaw: -1i32, pitch: 0 })
        + when(k.w, CameraAction::Orbit { yaw: 0, pitch: -1i32 })
        + when(k.s, CameraAction::Orbit { yaw: 0, pitch: 1 })
        + when(
            pan_x(k) != 0 || pan_y(k) != 0,
            CameraAction::Pan { x: pan_x(k) as i32, y: pan_y(k) as i32 },
        )
        + when(k.up, CameraAction::Zoom { steps: 1 })
        + when(k.down, CameraAction::Zoom { steps: -1i32 })
}

fn push_when(v: &mut Vec<CameraAction>, held: bool, a: CameraAction)
    ensures
        final(v)@ == old(v)@ + when(held, a),
{
    if held {
        v.push(a);
    } else {
        assert(old(v)@ + when(held, a) =~= old(v)@);
    }
}

/// The camera operations asked for by the held movement keys.
pub fn camera_actions(k: &Keys) -> (r: Vec<CameraAction>)
    ensures
        r@ == actions_spec(*k),
{
    let mut r: Vec<CameraAction> = Vec::new();
    push_when(&mut r, k.left, CameraAction::Orbit { yaw: 1, pitch: 0 });
    push_when(&mut r, k.right, CameraAction::Orbit { yaw: -1, pitch: 0 });
    push_when(&mut r, k.w, CameraAction::Orbit { yaw: 0, pitch: -1 });
    push_when(&mut r, k.s, CameraAction::Orbit { yaw: 0, pitch: 1 });
    let mut x: i32 = 0;
    let mut y: i32 = 0;
    if k.a {
        x = x - 1;
    }
    if k.d {
        x = x + 1;
    }
    if k.q {
        y = y + 1;
    }
    if k.e {
        y = y - 1;
    }
    push_when(&mut r, x != 0 || y != 0, CameraAction::Pan { x, y });
    push_when(&mut r, k.up, CameraAction::Zoom { steps: 1 });
    push_when(&mut r, k.down, CameraAction::Zoom { steps: -1 });
    proof {
        assert(r@ =~= actions_spec(*k));
    }
    r
}

} // verus!
