use diorama::catalog::{
    lighting, material_catalog, MaterialParams, Rgb, DIRT, GLASS, GRASS, LAMP, MATERIAL_COUNT, METAL,
    STONE, WATER,
};
use diorama::layout::{diorama_layout, Cm3, Placement, RUNS, RUN_COUNT};

fn at(x: i32, y: i32, z: i32) -> Cm3 {
    Cm3 { x, y, z }
}

#[test]
fn layout_has_terrain_then_runs() {
    let l = diorama_layout();
    assert_eq!(l.len(), 175);
    let runs: usize = RUNS.iter().map(|r| r[6] as usize).sum();
    assert_eq!(l.len(), 81 + runs);
    assert_eq!(RUN_COUNT, RUNS.len());
}

#[test]
fn layout_known_entries() {
    let l = diorama_layout();
    assert_eq!(
        l[0],
        Placement { center: at(-400, -75, -400), half: at(50, 25, 50), yaw_mrad: 0, material: DIRT }
    );
    assert_eq!(
        l[40],
        Placement { center: at(0, -75, 0), half: at(50, 25, 50), yaw_mrad: 0, material: GRASS }
    );
    assert_eq!(
        l[81],
        Placement { center: at(0, -50, 0), half: at(35, 40, 35), yaw_mrad: 0, material: STONE }
    );
    assert_eq!(l[85].center, at(0, 110, 0));
    assert_eq!(
        l[86],
        Placement { center: at(0, 150, 0), half: at(25, 15, 25), yaw_mrad: 0, material: METAL }
    );
    assert_eq!(l[138].yaw_mrad, 300);
    assert_eq!(l[139].yaw_mrad, -300);
    assert_eq!(
        l[174],
        Placement { center: at(60, -20, -250), half: at(6, 6, 6), yaw_mrad: 0, material: LAMP }
    );
}

#[test]
fn layout_materials_and_sizes_are_valid() {
    let l = diorama_layout();
    assert!(l.iter().all(|p| p.material < MATERIAL_COUNT));
    assert!(l.iter().all(|p| p.half.x > 0 && p.half.y > 0 && p.half.z > 0));
    assert_eq!(l.iter().filter(|p| p.material == GRASS).count(), 39);
    assert_eq!(l.iter().filter(|p| p.material == LAMP).count(), 12);
}

#[test]
fn layout_is_identical_on_every_call() {
    assert_eq!(diorama_layout(), diorama_layout());
}

#[test]
fn catalog_in_index_order() {
    let c = material_catalog();
    assert_eq!(c.len(), MATERIAL_COUNT);
    for (i, m) in c.iter().enumerate() {
        assert_eq!(m.texture_id, i);
        assert!(m.albedo <= 1000 && m.specular <= 1000);
        assert!(m.transparency <= 1000 && m.reflectivity <= 1000);
        assert!(m.ior >= 1000);
    }
    assert_eq!(
        c[GLASS],
        MaterialParams {
            texture_id: GLASS,
            albedo: 50,
            specular: 900,
            shininess: 128,
            transparency: 850,
            reflectivity: 100,
            ior: 1520,
        }
    );
    assert_eq!(c[METAL].reflectivity, 800);
    assert_eq!(c[WATER].ior, 1330);
    assert_eq!(c[GRASS].shininess, 32);
}

#[test]
fn lighting_by_mode() {
    let day = lighting(false);
    let night = lighting(true);
    assert_ne!(day, night);
    assert_eq!(day.light_pos, at(500, 600, -300));
    assert_eq!(day.light_color, Rgb { r: 1000, g: 950, b: 850 });
    assert_eq!(day.ambient, 150);
    assert_eq!(night.light_pos, at(-800, 1200, 500));
    assert_eq!(night.ambient, 80);
    assert_eq!(night.ambient_color, Rgb { r: 150, g: 200, b: 350 });
    assert_eq!(lighting(true), night);
}
