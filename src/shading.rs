use vstd::prelude::*;

verus! {

/// Recursion budget given to a primary camera ray.
pub const PRIMARY_DEPTH: u32 = 5;

/// The secondary rays a hit spawns, each with the recursion budget it is
/// traced with; `None` where that ray is not cast.
#[derive(Clone, Copy, Debug, PartialEq, Eq, Structural)]
pub struct SecondaryRays {
    pub reflect: Option<u32>,
    pub refract: Option<u32>,
}

/// What the shader casts after the direct lighting of a hit traced with
/// `depth` left: nothing at a budget of zero; otherwise a reflected ray
/// where the material reflects and a refracted ray where it is transparent,
/// each with one level less.
pub open spec fn secondary_rays_spec(depth: u32, reflective: bool, transparent: bool) -> SecondaryRays {
    if depth == 0 {
        SecondaryRays { reflect: None, refract: None }
    } else {
        SecondaryRays {
            reflect: if reflective {
                Some((depth - 1) as u32)
            } else {
                None
            },
            refract: if transparent {
                Some((depth - 1) as u32)
            } else {
                None
            },
        }
    }
}

/// Decides which secondary rays a hit spawns. `reflective` says that the
/// material's reflectivity is positive, `transparent` that its transparency
/// is; a refracted ray is only cast where refraction has a solution.
pub fn secondary_rays(depth: u32, reflective: bool, transparent: bool) -> (r: SecondaryRays)
    ensures
        r == secondary_rays_spec(depth, reflective, transparent),
{
    if depth == 0 {
        return SecondaryRays { reflect: None, refract: None };
    }
    let child = depth - 1;
    SecondaryRays {
        reflect: if reflective {
            Some(child)
        } else {
            None
        },
        refract: if transparent {
            Some(child)
        } else {
            None
        },
    }
}

/// Number of nested trace calls made by following the reflected ray of a
/// purely reflective material (reflective, not transparent) from a hit
/// traced with budget `depth`, in a scene where every ray hits such a
/// material. Only a strictly smaller budget is followed.
pub open spec fn reflective_recursion_count(depth: u32) -> nat
    decreases depth,
{
    match secondary_rays_spec(depth, true, false).reflect {
        Some(child) => if child < depth {
            1 + reflective_recursion_count(child)
        } else {
            0
        },
        None => 0,
    }
}

/// A purely reflective material traced with budget `d` makes exactly `d`
/// nested reflective calls: each call lowers the budget by one, a call with
/// budget zero casts no secondary ray, and none casts a refracted ray.
pub proof fn lemma_reflective_recursion_depth(d: u32)
    ensures
        reflective_recursion_count(d) == d,
        secondary_rays_spec(d, true, false).refract is None,
        d == 0 ==> secondary_rays_spec(d, true, false).reflect is None,
        d > 0 ==> secondary_rays_spec(d, true, false).reflect == Some((d - 1) as u32),
    decreases d,
{
    if d > 0 {
        lemma_reflective_recursion_depth((d - 1) as u32);
    }
}

} // verus!
