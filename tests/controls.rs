use planet_shaders::controls::{camera_actions, next_key, select_material, CameraAction, Keys};
use planet_shaders::frame::triangle_starts;
use planet_shaders::material::Material;
use planet_shaders::noise_preset::NoisePreset;

fn no_keys() -> Keys {
    Keys { left: false, right: false, w: false, s: false, a: false, d: false, q: false, e: false, up: false, down: false }
}

#[test]
fn material_keys() {
    let expected = [
        (0, Material::Craters, NoisePreset::Perlin),
        (1, Material::Ice, NoisePreset::Perlin),
        (2, Material::Volcanic, NoisePreset::CellularPuntas),
        (3, Material::DeepOcean, NoisePreset::Perlin),
        (4, Material::Desert, NoisePreset::Grupos),
        (5, Material::Water, NoisePreset::Perlin),
        (6, Material::Jungle, NoisePreset::CellularBacteria),
        (7, Material::Methane, NoisePreset::Camo),
        (8, Material::RockyMountain, NoisePreset::CellularBlackHole),
        (9, Material::Aurora, NoisePreset::Variado),
        (42, Material::Craters, NoisePreset::Perlin),
    ];
    for (key, m, p) in expected {
        let s = select_material(key);
        assert_eq!(s.material, m);
        assert_eq!(s.preset, p);
        assert_eq!(s.tilted, key == 9);
    }
}

#[test]
fn digit_keys_last_read_wins() {
    let mut down = [false; 10];
    assert_eq!(next_key(1, &down), 1);
    down[3] = true;
    assert_eq!(next_key(1, &down), 3);
    down[7] = true;
    assert_eq!(next_key(1, &down), 7);
    down[0] = true;
    assert_eq!(next_key(1, &down), 0);
    let mut only_nine = [false; 10];
    only_nine[9] = true;
    assert_eq!(next_key(0, &only_nine), 9);
}

#[test]
fn no_keys_no_actions() {
    assert!(camera_actions(&no_keys()).is_empty());
}

#[test]
fn actions_in_order() {
    let mut k = no_keys();
    k.left = true;
    k.s = true;
    k.d = true;
    k.e = true;
    k.down = true;
    assert_eq!(
        camera_actions(&k),
        vec![
            CameraAction::Orbit { yaw: 1, pitch: 0 },
            CameraAction::Orbit { yaw: 0, pitch: 1 },
            CameraAction::Pan { x: 1, y: -1 },
            CameraAction::Zoom { steps: -1 },
        ]
    );
}

#[test]
fn opposite_pan_keys_cancel() {
    let mut k = no_keys();
    k.a = true;
    k.d = true;
    k.up = true;
    k.right = true;
    k.w = true;
    assert_eq!(
        camera_actions(&k),
        vec![
            CameraAction::Orbit { yaw: -1, pitch: 0 },
            CameraAction::Orbit { yaw: 0, pitch: -1 },
            CameraAction::Zoom { steps: 1 },
        ]
    );
    let mut q = no_keys();
    q.q = true;
    assert_eq!(camera_actions(&q), vec![CameraAction::Pan { x: 0, y: 1 }]);
}

#[test]
fn triangles_from_flat_list() {
    assert_eq!(triangle_starts(0), Vec::<usize>::new());
    assert_eq!(triangle_starts(2), Vec::<usize>::new());
    assert_eq!(triangle_starts(3), vec![0]);
    assert_eq!(triangle_starts(8), vec![0, 3]);
    assert_eq!(triangle_starts(9), vec![0, 3, 6]);
}
