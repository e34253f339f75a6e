use diorama::catalog::{terrain_material, DIRT, GRASS, MATERIAL_COUNT};
use diorama::face::{select_face, Face};
use diorama::frame::Frame;
use diorama::hash::{cell_id2, cell_id3, lattice_noise_bits, star_bits, xorshift32};
use diorama::shading::{secondary_rays, SecondaryRays, PRIMARY_DEPTH};
use diorama::texture::{checker_odd, CpuImage, TextureAtlas};

#[test]
fn xorshift_known_values() {
    assert_eq!(xorshift32(0), 0);
    assert_eq!(xorshift32(1), 270369);
    assert_eq!(xorshift32(u32::MAX), 253983);
}

#[test]
fn xorshift_is_deterministic() {
    for n in [0u32, 1, 7, 123456789, u32::MAX] {
        assert_eq!(xorshift32(n), xorshift32(n));
    }
}

#[test]
fn cell_ids_wrap_instead_of_overflowing() {
    assert_eq!(cell_id2(1, 1), 88192194);
    assert_eq!(cell_id2(100, 0), 3090642004);
    assert_eq!(cell_id2(-3, 7), 4208584368);
    assert_eq!(cell_id3(1, 2, 3), 147163718);
    assert_eq!(cell_id3(-5, 10, -20), 2114828717);
    assert_eq!(cell_id2(i32::MAX, i32::MIN), cell_id2(i32::MAX, i32::MIN));
}

#[test]
fn noise_and_star_bits() {
    assert_eq!(lattice_noise_bits(3, 4), 2060480361);
    assert_eq!(lattice_noise_bits(3, 4), xorshift32(cell_id2(3, 4)));
    assert_eq!(star_bits(1, 2, 3), (2284832384, 2796532575));
}

#[test]
fn checker_parity() {
    assert!(!checker_odd(0, 0));
    assert!(checker_odd(1, 0));
    assert!(checker_odd(0, -1));
    assert!(!checker_odd(-1, -1));
    assert!(!checker_odd(i32::MAX, i32::MAX));
    assert!(checker_odd(i32::MIN, -1));
    assert!(checker_odd(i32::MAX, i32::MIN));
}

fn two_by_two() -> CpuImage {
    let bytes: Vec<u8> = (0u8..16).collect();
    CpuImage::from_rgba(2, 2, bytes).expect("sizes agree")
}

#[test]
fn image_constructor_checks_sizes() {
    assert!(CpuImage::from_rgba(2, 2, vec![0u8; 16]).is_some());
    assert!(CpuImage::from_rgba(2, 2, vec![0u8; 15]).is_none());
    assert!(CpuImage::from_rgba(-1, 2, vec![]).is_none());
    assert!(CpuImage::from_rgba(0, 0, vec![]).is_some());
}

#[test]
fn texel_reads_row_major() {
    let img = two_by_two();
    assert_eq!(img.texel(0, 0), (0, 1, 2));
    assert_eq!(img.texel(1, 0), (4, 5, 6));
    assert_eq!(img.texel(0, 1), (8, 9, 10));
    assert_eq!(img.texel(1, 1), (12, 13, 14));
}

#[test]
fn atlas_lookup_reports_missing_ids() {
    let atlas = TextureAtlas { images: vec![two_by_two()] };
    assert_eq!(atlas.get(0).map(|i| i.texel(1, 1)), Some((12, 13, 14)));
    assert!(atlas.get(1).is_none());
    let empty = TextureAtlas { images: vec![] };
    assert!(empty.get(0).is_none());
}

#[test]
fn face_priority_order() {
    assert_eq!(select_face(true, true, true, true, true), Face::PosX);
    assert_eq!(select_face(false, true, true, false, true), Face::NegX);
    assert_eq!(select_face(false, false, true, true, true), Face::PosY);
    assert_eq!(select_face(false, false, false, true, true), Face::NegY);
    assert_eq!(select_face(false, false, false, false, true), Face::PosZ);
    assert_eq!(select_face(false, false, false, false, false), Face::NegZ);
}

#[test]
fn face_normals_and_uv_axes() {
    assert_eq!(Face::PosZ.normal(), (0, 0, 1));
    assert_eq!(Face::NegX.normal(), (-1, 0, 0));
    assert_eq!(Face::NegY.normal(), (0, -1, 0));
    assert_eq!(Face::PosX.uv_axes(), (2, 1));
    assert_eq!(Face::NegY.uv_axes(), (0, 2));
    assert_eq!(Face::PosZ.uv_axes(), (0, 1));
    assert_eq!(Face::NegZ.axis(), 2);
}

#[test]
fn budget_zero_casts_nothing() {
    let none = SecondaryRays { reflect: None, refract: None };
    assert_eq!(secondary_rays(0, true, true), none);
    assert_eq!(secondary_rays(3, false, false), none);
}

#[test]
fn secondary_rays_lower_the_budget() {
    assert_eq!(
        secondary_rays(5, true, true),
        SecondaryRays { reflect: Some(4), refract: Some(4) }
    );
    assert_eq!(
        secondary_rays(1, false, true),
        SecondaryRays { reflect: None, refract: Some(0) }
    );
}

#[test]
fn mirror_chain_makes_budget_many_calls() {
    for d in 0..=PRIMARY_DEPTH {
        let mut calls = 0u32;
        let mut budget = d;
        while let Some(child) = secondary_rays(budget, true, false).reflect {
            calls += 1;
            budget = child;
        }
        assert_eq!(calls, d);
        assert_eq!(budget, 0);
    }
    assert_eq!(PRIMARY_DEPTH, 5);
}

#[test]
fn new_frame_is_zeroed() {
    let f = Frame::new(3, 2);
    assert_eq!(f.bytes().len(), 24);
    assert!(f.bytes().iter().all(|&b| b == 0));
}

#[test]
fn set_pixel_writes_one_opaque_pixel() {
    let mut f = Frame::new(3, 2);
    f.set_pixel(2, 1, 10, 20, 30);
    let b = f.bytes();
    assert_eq!(&b[20..24], &[10, 20, 30, 255]);
    assert!(b[..20].iter().all(|&x| x == 0));
    f.set_pixel_at(0, 1, 2, 3);
    assert_eq!(&f.bytes()[0..4], &[1, 2, 3, 255]);
}

#[test]
fn terrain_is_grass_inside_radius() {
    assert_eq!(terrain_material(0, 0), GRASS);
    assert_eq!(terrain_material(3, 1), GRASS);
    assert_eq!(terrain_material(2, 2), GRASS);
    assert_eq!(terrain_material(3, 2), DIRT);
    assert_eq!(terrain_material(-4, 0), DIRT);
    assert_eq!(terrain_material(i32::MIN, i32::MAX), DIRT);
    for z in -4..=4 {
        for x in -4..=4 {
            assert!(terrain_material(x, z) < MATERIAL_COUNT);
        }
    }
}
