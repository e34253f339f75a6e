use vstd::prelude::*;
use crate::catalog::{terrain_material, DIRT, GRASS, MATERIAL_COUNT};

verus! {

/// Number of rows of `RUNS`.
pub const RUN_COUNT: usize = 65;

/// The diorama after its terrain, as runs of cuboids in scene order. Lengths
/// are in hundredths of a scene unit, angles in thousandths of a radian. Each
/// row reads: start centre `x, y, z`; step between consecutive centres
/// `dx, dy, dz`; number of cuboids; half-extents `hx, hy, hz`; turn about the
/// vertical axis; material index (0 grass, 1 dirt, 2 stone, 3 metal,
/// 4 glass, 5 water, 6 lamp).
pub const RUNS: [[i16; 12]; 65] = [
    // central keep and its metal crown
    [0, -50, 0, 0, 40, 0, 5, 35, 40, 35, 0, 2],
    [0, 150, 0, 0, 0, 0, 1, 25, 15, 25, 0, 3],
    // walls
    [-150, -30, 0, 0, 0, 0, 1, 15, 35, 100, 0, 2],
    [150, -30, 0, 0, 0, 0, 1, 15, 35, 100, 0, 2],
    [-150, 5, 0, 0, 0, 0, 1, 15, 35, 100, 0, 2],
    [150, 5, 0, 0, 0, 0, 1, 15, 35, 100, 0, 2],
    [-150, 40, 0, 0, 0, 0, 1, 15, 35, 100, 0, 2],
    [150, 40, 0, 0, 0, 0, 1, 15, 35, 100, 0, 2],
    [0, -30, -150, 0, 0, 0, 1, 80, 35, 15, 0, 2],
    [0, -30, 150, 0, 0, 0, 1, 80, 35, 15, 0, 2],
    [0, 5, -150, 0, 0, 0, 1, 80, 35, 15, 0, 2],
    [0, 5, 150, 0, 0, 0, 1, 80, 35, 15, 0, 2],
    // corner towers with metal roofs
    [-150, 0, -150, 0, 35, 0, 3, 25, 35, 25, 0, 2],
    [-150, 105, -150, 0, 0, 0, 1, 20, 10, 20, 0, 3],
    [150, 0, -150, 0, 35, 0, 3, 25, 35, 25, 0, 2],
    [150, 105, -150, 0, 0, 0, 1, 20, 10, 20, 0, 3],
    [-150, 0, 150, 0, 35, 0, 3, 25, 35, 25, 0, 2],
    [-150, 105, 150, 0, 0, 0, 1, 20, 10, 20, 0, 3],
    [150, 0, 150, 0, 35, 0, 3, 25, 35, 25, 0, 2],
    [150, 105, 150, 0, 0, 0, 1, 20, 10, 20, 0, 3],
    // left building with glass windows
    [-300, -30, 100, 0, 40, 0, 4, 40, 40, 60, 0, 2],
    [-260, 30, 100, 0, 0, 0, 1, 8, 25, 40, 0, 4],
    [-260, 90, 100, 0, 0, 0, 1, 8, 25, 40, 0, 4],
    // right building with metal trim
    [300, -30, -100, 0, 40, 0, 3, 50, 40, 50, 0, 2],
    [300, 90, -100, 0, 0, 0, 1, 30, 10, 30, 0, 3],
    // fountain
    [0, -40, 250, 0, 0, 0, 1, 60, 15, 60, 0, 2],
    [0, -35, 250, 0, 0, 0, 1, 50, 12, 50, 0, 5],
    [0, -10, 250, 0, 0, 0, 1, 10, 20, 10, 0, 2],
    [0, 10, 250, 0, 0, 0, 1, 15, 5, 15, 0, 3],
    // bridge and its railings
    [-100, -45, -280, 50, 0, 0, 4, 25, 8, 30, 0, 2],
    [-100, -25, -260, 50, 0, 0, 5, 4, 15, 4, 0, 3],
    // ornaments
    [-250, -35, -200, 0, 0, 0, 1, 18, 18, 18, 0, 3],
    [250, -35, 200, 0, 0, 0, 1, 18, 18, 18, 0, 3],
    // crystals, turned a little
    [-100, -30, -80, 0, 0, 0, 1, 12, 20, 12, 300, 6],
    [100, -30, 80, 0, 0, 0, 1, 12, 20, 12, -300, 6],
    // pillars at the outer corners
    [-350, -50, -300, 0, 0, 0, 1, 15, 30, 15, 0, 2],
    [-350, -20, -300, 0, 0, 0, 1, 15, 30, 15, 0, 2],
    [-350, 10, -300, 0, 0, 0, 1, 12, 12, 12, 0, 3],
    [350, -50, -300, 0, 0, 0, 1, 15, 30, 15, 0, 2],
    [350, -20, -300, 0, 0, 0, 1, 15, 30, 15, 0, 2],
    [350, 10, -300, 0, 0, 0, 1, 12, 12, 12, 0, 3],
    [-350, -50, 300, 0, 0, 0, 1, 15, 30, 15, 0, 2],
    [-350, -20, 300, 0, 0, 0, 1, 15, 30, 15, 0, 2],
    [-350, 10, 300, 0, 0, 0, 1, 12, 12, 12, 0, 3],
    [350, -50, 300, 0, 0, 0, 1, 15, 30, 15, 0, 2],
    [350, -20, 300, 0, 0, 0, 1, 15, 30, 15, 0, 2],
    [350, 10, 300, 0, 0, 0, 1, 12, 12, 12, 0, 3],
    // path to the entrance
    [0, -48, -350, 0, 0, 50, 6, 40, 5, 20, 0, 2],
    // raised gardens and a small pond
    [-200, -45, 50, 0, 0, 0, 1, 30, 8, 30, 0, 0],
    [200, -45, -50, 0, 0, 0, 1, 30, 8, 30, 0, 0],
    [-300, -45, -150, 0, 0, 0, 1, 40, 8, 40, 0, 5],
    // torches on the corner towers
    [-150, 105, -150, 0, 0, 0, 1, 5, 15, 5, 0, 3],
    [-150, 120, -150, 0, 0, 0, 1, 10, 10, 10, 0, 6],
    [150, 105, -150, 0, 0, 0, 1, 5, 15, 5, 0, 3],
    [150, 120, -150, 0, 0, 0, 1, 10, 10, 10, 0, 6],
    [-150, 105, 150, 0, 0, 0, 1, 5, 15, 5, 0, 3],
    [-150, 120, 150, 0, 0, 0, 1, 10, 10, 10, 0, 6],
    [150, 105, 150, 0, 0, 0, 1, 5, 15, 5, 0, 3],
    [150, 120, 150, 0, 0, 0, 1, 10, 10, 10, 0, 6],
    // lamps around the keep
    [50, 130, 0, 0, 0, 0, 1, 8, 8, 8, 0, 6],
    [0, 130, 50, 0, 0, 0, 1, 8, 8, 8, 0, 6],
    [-50, 130, 0, 0, 0, 0, 1, 8, 8, 8, 0, 6],
    [0, 130, -50, 0, 0, 0, 1, 8, 8, 8, 0, 6],
    // lanterns along the path
    [-60, -20, -250, 0, 0, 0, 1, 6, 6, 6, 0, 6],
    [60, -20, -250, 0, 0, 0, 1, 6, 6, 6, 0, 6],
];

/// An integer triple `(x, y, z)`, in hundredths of a scene unit.
#[derive(Clone, Copy, Debug, PartialEq, Eq, Structural)]
pub struct Cm3 {
    pub x: i32,
    pub y: i32,
    pub z: i32,
}

/// A cuboid of the diorama before the scene is turned: centre and
/// half-extents in hundredths of a scene unit, its own turn about the
/// vertical axis in thousandths of a radian, and the index of its material.
#[derive(Clone, Copy, Debug, PartialEq, Eq, Structural)]
pub struct Placement {
    pub center: Cm3,
    pub half: Cm3,
    pub yaw_mrad: i32,
    pub material: usize,
}

/// The terrain tile at grid cell `(x, z)`.
pub open spec fn tile(x: int, z: int) -> Placement {
    Placement {
        center: Cm3 { x: (x * 100) as i32, y: -75i32, z: (z * 100) as i32 },
        half: Cm3 { x: 50i32, y: 25i32, z: 50i32 },
        yaw_mrad: 0i32,
        material: if x * x + z * z < 12 {
            GRASS
        } else {
            DIRT
        },
    }
}

/// Row `r` of the terrain: nine tiles from `x = -4` to `x = 4` at `z = r - 4`.
pub open spec fn terrain_row(r: int) -> Seq<Placement> {
    Seq::new(9, |c: int| tile(c - 4, r - 4))
}

/// The first `n` rows of the terrain, row `z = -4` first.
pub open spec fn terrain_rows(n: nat) -> Seq<Placement>
    decreases n,
{
    if n == 0 {
        Seq::empty()
    } else {
        terrain_rows((n - 1) as nat) + terrain_row(n - 1)
    }
}

/// How many cuboids row `k` of `RUNS` stands for.
pub open spec fn run_len(k: int) -> nat {
    let c = RUNS@[k]@[6];
    if c > 0 {
        c as nat
    } else {
        0
    }
}

/// Cuboid `i` of run `k`.
pub open spec fn run_item(k: int, i: int) -> Placement {
    let r = RUNS@[k]@;
    Placement {
        center: Cm3 {
            x: (r[0] + i * r[3]) as i32,
            y: (r[1] + i * r[4]) as i32,
            z: (r[2] + i * r[5]) as i32,
        },
        half: Cm3 { x: r[7] as i32, y: r[8] as i32, z: r[9] as i32 },
        yaw_mrad: r[10] as i32,
        material: r[11] as usize,
    }
}

pub open spec fn run_items(k: int) -> Seq<Placement> {
    Seq::new(run_len(k), |i: int| run_item(k, i))
}

/// The cuboids of the first `k` runs, in order.
pub open spec fn runs_upto(k: nat) -> Seq<Placement>
    decreases k,
{
    if k == 0 {
        Seq::empty()
    } else {
        runs_upto((k - 1) as nat) + run_items(k - 1)
    }
}

/// The whole diorama: the 9 by 9 terrain grid, then every run of `RUNS`.
pub open spec fn layout_spec() -> Seq<Placement> {
    terrain_rows(9) + runs_upto(RUN_COUNT as nat)
}

/// A placement the renderer can use: a valid index into the material
/// sequence and positive half-extents.
pub open spec fn placement_ok(p: Placement) -> bool {
    &&& p.material < MATERIAL_COUNT
    &&& p.half.x > 0
    &&& p.half.y > 0
    &&& p.half.z > 0
}

/// Every row of `RUNS` names an existing material and positive half-extents.
pub open spec fn run_row_ok(k: int) -> bool {
    let r = RUNS@[k]@;
    &&& 0 <= r[11] < MATERIAL_COUNT
    &&& r[7] > 0
    &&& r[8] > 0
    &&& r[9] > 0
}

proof fn lemma_terrain_rows_ok(n: nat)
    ensures
        forall|i: int| 0 <= i < terrain_rows(n).len() ==> placement_ok(#[trigger] terrain_rows(n)[i]),
    decreases n,
{
    if n > 0 {
        lemma_terrain_rows_ok((n - 1) as nat);
        let prev = terrain_rows((n - 1) as nat);
        let row = terrain_row(n - 1);
        assert forall|i: int| 0 <= i < terrain_rows(n).len() implies placement_ok(
            #[trigger] terrain_rows(n)[i],
        ) by {
            if i >= prev.len() {
                assert(terrain_rows(n)[i] == row[i - prev.len()]);
            }
        }
    }
}

proof fn lemma_runs_ok(k: nat)
    requires
        k <= RUN_COUNT,
        forall|j: int| 0 <= j < k ==> run_row_ok(j),
    ensures
        forall|i: int| 0 <= i < runs_upto(k).len() ==> placement_ok(#[trigger] runs_upto(k)[i]),
    decreases k,
{
    if k > 0 {
        lemma_runs_ok((k - 1) as nat);
        let prev = runs_upto((k - 1) as nat);
        let items = run_items(k - 1);
        assert(run_row_ok(k - 1));
        assert forall|i: int| 0 <= i < runs_upto(k).len() implies placement_ok(
            #[trigger] runs_upto(k)[i],
        ) by {
            if i >= prev.len() {
                assert(runs_upto(k)[i] == items[i - prev.len()]);
            }
        }
    }
}

/// Every cuboid of the diorama refers by index to one of the scene's
/// materials and has positive half-extents, so a renderer can look up the
/// material of any primitive it hits.
pub proof fn lemma_layout_placements_ok()
    ensures
        forall|i: int| 0 <= i < layout_spec().len() ==> placement_ok(#[trigger] layout_spec()[i]),
{
    assert(forall|k: int| 0 <= k < RUN_COUNT ==> run_row_ok(k));
    lemma_terrain_rows_ok(9);
    lemma_runs_ok(RUN_COUNT as nat);
    let t = terrain_rows(9);
    let u = runs_upto(RUN_COUNT as nat);
    assert forall|i: int| 0 <= i < layout_spec().len() implies placement_ok(
        #[trigger] layout_spec()[i],
    ) by {
        if i < t.len() {
            assert(layout_spec()[i] == t[i]);
        } else {
            assert(layout_spec()[i] == u[i - t.len()]);
        }
    }
}

/// Builds the diorama's cuboids. The result is fixed: it depends on nothing,
/// so every call yields the same placements.
pub fn diorama_layout() -> (r: Vec<Placement>)
    ensures
        r@ == layout_spec(),
{
    let mut v: Vec<Placement> = Vec::new();
    let mut z: i32 = -4;
    while z <= 4
        invariant
            -4 <= z <= 5,
            v@ == terrain_rows((z + 4) as nat),
        decreases 5 - z,
    {
        let mut x: i32 = -4;
        while x <= 4
            invariant
                -4 <= x <= 5,
                -4 <= z <= 4,
                v@ == terrain_rows((z + 4) as nat) + terrain_row(z + 4).take(x + 4),
            decreases 5 - x,
        {
            let p = Placement {
                center: Cm3 { x: x * 100, y: -75, z: z * 100 },
                half: Cm3 { x: 50, y: 25, z: 50 },
                yaw_mrad: 0,
                material: terrain_material(x, z),
            };
            v.push(p);
            proof {
                assert(terrain_row(z + 4)[x + 4] == tile(x as int, z as int));
                assert(terrain_row(z + 4).take(x + 5) =~= terrain_row(z + 4).take(x + 4).push(p));
            }
            x = x + 1;
        }
        assert(terrain_row(z + 4).take(9) =~= terrain_row(z + 4));
        z = z + 1;
    }
    let mut k: usize = 0;
    while k < RUN_COUNT
        invariant
            k <= RUN_COUNT,
            v@ == terrain_rows(9) + runs_upto(k as nat),
        decreases RUN_COUNT - k,
    {
        let count = RUNS[k][6];
        let n: usize = if count > 0 {
            count as usize
        } else {
            0
        };
        assert(n == run_len(k as int));
        let mut i: usize = 0;
        while i < n
            invariant
                k < RUN_COUNT,
                i <= n,
                n == run_len(k as int),
                n <= 32767,
                v@ == terrain_rows(9) + runs_upto(k as nat) + run_items(k as int).take(i as int),
            decreases n - i,
        {
            let row = &RUNS[k];
            let ii = i as i32;
            let (sx, sy, sz) = (row[0] as i32, row[1] as i32, row[2] as i32);
            let (dx, dy, dz) = (row[3] as i32, row[4] as i32, row[5] as i32);
            assert(-0x4000_0000 <= ii * dx <= 0x4000_0000) by (nonlinear_arith)
                requires
                    0 <= ii <= 32767,
                    -32768 <= dx <= 32767,
            ;
            assert(-0x4000_0000 <= ii * dy <= 0x4000_0000) by (nonlinear_arith)
                requires
                    0 <= ii <= 32767,
                    -32768 <= dy <= 32767,
            ;
            assert(-0x4000_0000 <= ii * dz <= 0x4000_0000) by (nonlinear_arith)
                requires
                    0 <= ii <= 32767,
                    -32768 <= dz <= 32767,
            ;
            let p = Placement {
                center: Cm3 { x: sx + ii * dx, y: sy + ii * dy, z: sz + ii * dz },
                half: Cm3 { x: row[7] as i32, y: row[8] as i32, z: row[9] as i32 },
                yaw_mrad: row[10] as i32,
                material: row[11] as usize,
            };
            v.push(p);
            proof {
                assert(run_items(k as int)[i as int] == p);
                assert(run_items(k as int).take(i + 1) =~= run_items(k as int).take(i as int).push(
                    p,
                ));
            }
            i = i + 1;
        }
        assert(run_items(k as int).take(n as int) =~= run_items(k as int));
        k = k + 1;
    }
    v
}

} // verus!
