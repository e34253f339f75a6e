use vstd::prelude::*;
use crate::layout::Cm3;

verus! {

/// Positions of the diorama's materials in the scene's material sequence;
/// primitives refer to a material by one of these indices.
pub const GRASS: usize = 0;

pub const DIRT: usize = 1;

pub const STONE: usize = 2;

pub const METAL: usize = 3;

pub const GLASS: usize = 4;

pub const WATER: usize = 5;

pub const LAMP: usize = 6;

/// Length of the material sequence; every index above is below it.
pub const MATERIAL_COUNT: usize = 7;

/// The diorama's materials, in index order. Columns: albedo, specular
/// coefficient, shininess exponent, transparency, reflectivity, index of
/// refraction. All but the shininess are in thousandths.
pub const MATERIALS: [[u16; 6]; 7] = [
    // grass
    [850, 150, 32, 0, 0, 1000],
    // dirt
    [900, 50, 8, 0, 0, 1000],
    // stone
    [800, 100, 16, 0, 0, 1000],
    // metal
    [100, 900, 128, 0, 800, 1000],
    // glass
    [50, 900, 128, 850, 100, 1520],
    // water
    [200, 500, 64, 700, 150, 1330],
    // lamp
    [300, 800, 96, 350, 200, 1520],
];

/// Surface parameters of one material. `texture_id` is the bitmap id its
/// colour is read from; coefficients are in thousandths, so 1000 is 1.
#[derive(Clone, Copy, Debug, PartialEq, Eq, Structural)]
pub struct MaterialParams {
    pub texture_id: usize,
    pub albedo: u16,
    pub specular: u16,
    pub shininess: u16,
    pub transparency: u16,
    pub reflectivity: u16,
    pub ior: u16,
}

/// Material `i` of the catalog; its bitmap id is its own index.
pub open spec fn material_spec(i: int) -> MaterialParams {
    let m = MATERIALS@[i]@;
    MaterialParams {
        texture_id: i as usize,
        albedo: m[0],
        specular: m[1],
        shininess: m[2],
        transparency: m[3],
        reflectivity: m[4],
        ior: m[5],
    }
}

/// The material sequence of the diorama, in index order.
pub fn material_catalog() -> (r: Vec<MaterialParams>)
    ensures
        r@.len() == MATERIAL_COUNT,
        forall|i: int| 0 <= i < MATERIAL_COUNT ==> r@[i] == material_spec(i),
{
    let mut v: Vec<MaterialParams> = Vec::new();
    let mut i: usize = 0;
    while i < MATERIAL_COUNT
        invariant
            i <= MATERIAL_COUNT,
            v@.len() == i,
            forall|j: int| 0 <= j < i ==> v@[j] == material_spec(j),
        decreases MATERIAL_COUNT - i,
    {
        let m = &MATERIALS[i];
        v.push(
            MaterialParams {
                texture_id: i,
                albedo: m[0],
                specular: m[1],
                shininess: m[2],
                transparency: m[3],
                reflectivity: m[4],
                ior: m[5],
            },
        );
        i = i + 1;
    }
    v
}

/// Albedo, specular coefficient, transparency and reflectivity of every
/// material of the catalog lie in `[0, 1]`; the index of refraction is at
/// least 1.
pub proof fn lemma_catalog_coefficients_in_range()
    ensures
        forall|i: int|
            0 <= i < MATERIAL_COUNT ==> {
                let m = #[trigger] material_spec(i);
                &&& m.albedo <= 1000
                &&& m.specular <= 1000
                &&& m.transparency <= 1000
                &&& m.reflectivity <= 1000
                &&& m.ior >= 1000
            },
{
}

/// Light of one mode: light position in hundredths of a scene unit; light
/// colour, ambient intensity and ambient tint in thousandths. Columns of
/// `LIGHTING`: position `x, y, z`, colour `r, g, b`, intensity, tint `r, g, b`.
pub const LIGHTING: [[i32; 10]; 2] = [
    // day: warm sun
    [500, 600, -300, 1000, 950, 850, 150, 1000, 1000, 1000],
    // night: cold moonlight from high up, dim blue ambient
    [-800, 1200, 500, 600, 700, 1000, 80, 150, 200, 350],
];

/// A colour in thousandths per channel.
#[derive(Clone, Copy, Debug, PartialEq, Eq, Structural)]
pub struct Rgb {
    pub r: i32,
    pub g: i32,
    pub b: i32,
}

/// The point light and ambient term of the diorama.
#[derive(Clone, Copy, Debug, PartialEq, Eq, Structural)]
pub struct Lighting {
    pub light_pos: Cm3,
    pub light_color: Rgb,
    pub ambient: i32,
    pub ambient_color: Rgb,
}

pub open spec fn lighting_spec(is_night: bool) -> Lighting {
    let l = if is_night {
        LIGHTING@[1]@
    } else {
        LIGHTING@[0]@
    };
    Lighting {
        light_pos: Cm3 { x: l[0], y: l[1], z: l[2] },
        light_color: Rgb { r: l[3], g: l[4], b: l[5] },
        ambient: l[6],
        ambient_color: Rgb { r: l[7], g: l[8], b: l[9] },
    }
}

/// Day or night lighting.
pub fn lighting(is_night: bool) -> (r: Lighting)
    ensures
        r == lighting_spec(is_night),
{
    let l = if is_night {
        &LIGHTING[1]
    } else {
        &LIGHTING[0]
    };
    Lighting {
        light_pos: Cm3 { x: l[0], y: l[1], z: l[2] },
        light_color: Rgb { r: l[3], g: l[4], b: l[5] },
        ambient: l[6],
        ambient_color: Rgb { r: l[7], g: l[8], b: l[9] },
    }
}

/// Material of the terrain tile at grid cell `(x, z)`: grass where
/// `x² + z² < 12`, dirt elsewhere.
pub fn terrain_material(x: i32, z: i32) -> (r: usize)
    ensures
        r == (if x * x + z * z < 12 {
            GRASS
        } else {
            DIRT
        }),
        r < MATERIAL_COUNT,
{
    let (xl, zl) = (x as i128, z as i128);
    assert(0 <= xl * xl <= 0x4000_0000_0000_0000) by (nonlinear_arith)
        requires
            -0x8000_0000 <= xl <= 0x7fff_ffff,
    ;
    assert(0 <= zl * zl <= 0x4000_0000_0000_0000) by (nonlinear_arith)
        requires
            -0x8000_0000 <= zl <= 0x7fff_ffff,
    ;
    if xl * xl + zl * zl < 12 {
        GRASS
    } else {
        DIRT
    }
}

} // verus!
