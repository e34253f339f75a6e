use vstd::prelude::*;

verus! {

/// One of the six faces of a cuboid, named by its outward normal in the
/// cuboid's local frame.
#[derive(Clone, Copy, Debug, PartialEq, Eq, Structural)]
pub enum Face {
    PosX,
    NegX,
    PosY,
    NegY,
    PosZ,
    NegZ,
}

/// The face reported for a local hit point, given for each of the first five
/// faces, in the fixed priority order `+x, -x, +y, -y, +z`, whether the point
/// lies on that face's plane (within the caller's tolerance). The first face
/// whose plane holds the point wins; `-z` is what remains.
pub open spec fn face_by_priority(
    pos_x: bool,
    neg_x: bool,
    pos_y: bool,
    neg_y: bool,
    pos_z: bool,
) -> Face {
    if pos_x {
        Face::PosX
    } else if neg_x {
        Face::NegX
    } else if pos_y {
        Face::PosY
    } else if neg_y {
        Face::NegY
    } else if pos_z {
        Face::PosZ
    } else {
        Face::NegZ
    }
}

/// Picks the hit face by the fixed priority order; this also settles points
/// on edges and corners, which lie on several planes at once.
pub fn select_face(pos_x: bool, neg_x: bool, pos_y: bool, neg_y: bool, pos_z: bool) -> (r: Face)
    ensures
        r == face_by_priority(pos_x, neg_x, pos_y, neg_y, pos_z),
{
    if pos_x {
        Face::PosX
    } else if neg_x {
        Face::NegX
    } else if pos_y {
        Face::PosY
    } else if neg_y {
        Face::NegY
    } else if pos_z {
        Face::PosZ
    } else {
        Face::NegZ
    }
}

impl Face {
    /// Index of the axis the face is perpendicular to: 0 for x, 1 for y, 2 for z.
    pub open spec fn axis_spec(self) -> int {
        match self {
            Face::PosX | Face::NegX => 0,
            Face::PosY | Face::NegY => 1,
            Face::PosZ | Face::NegZ => 2,
        }
    }

    /// +1 for a face looking down the positive axis, -1 otherwise.
    pub open spec fn sign_spec(self) -> int {
        match self {
            Face::PosX | Face::PosY | Face::PosZ => 1,
            Face::NegX | Face::NegY | Face::NegZ => -1,
        }
    }

    /// Component `k` of the outward unit normal.
    pub open spec fn normal_component(self, k: int) -> int {
        if k == self.axis_spec() {
            self.sign_spec()
        } else {
            0
        }
    }

    /// The two local axes whose coordinates become the surface coordinate
    /// pair `(u, v)`: `(z, y)` on x faces, `(x, z)` on y faces, `(x, y)` on z faces.
    pub open spec fn uv_axes_spec(self) -> (int, int) {
        match self {
            Face::PosX | Face::NegX => (2, 1),
            Face::PosY | Face::NegY => (0, 2),
            Face::PosZ | Face::NegZ => (0, 1),
        }
    }

    pub fn axis(self) -> (r: usize)
        ensures
            r == self.axis_spec(),
    {
        match self {
            Face::PosX | Face::NegX => 0,
            Face::PosY | Face::NegY => 1,
            Face::PosZ | Face::NegZ => 2,
        }
    }

    /// The outward unit normal as an integer vector.
    pub fn normal(self) -> (r: (i32, i32, i32))
        ensures
            r.0 == self.normal_component(0),
            r.1 == self.normal_component(1),
            r.2 == self.normal_component(2),
    {
        match self {
            Face::PosX => (1, 0, 0),
            Face::NegX => (-1, 0, 0),
            Face::PosY => (0, 1, 0),
            Face::NegY => (0, -1, 0),
            Face::PosZ => (0, 0, 1),
            Face::NegZ => (0, 0, -1),
        }
    }

    pub fn uv_axes(self) -> (r: (usize, usize))
        ensures
            r.0 == self.uv_axes_spec().0,
            r.1 == self.uv_axes_spec().1,
    {
        match self {
            Face::PosX | Face::NegX => (2, 1),
            Face::PosY | Face::NegY => (0, 2),
            Face::PosZ | Face::NegZ => (0, 1),
        }
    }
}

/// The surface coordinates of every face run along the two axes that lie in
/// the face's plane: they are two different axes, neither of them the
/// normal's, and the normal has length one along its own axis.
pub proof fn lemma_uv_axes_lie_in_face(f: Face)
    ensures
        0 <= f.uv_axes_spec().0 < 3,
        0 <= f.uv_axes_spec().1 < 3,
        f.uv_axes_spec().0 != f.uv_axes_spec().1,
        f.uv_axes_spec().0 != f.axis_spec(),
        f.uv_axes_spec().1 != f.axis_spec(),
        f.normal_component(f.uv_axes_spec().0) == 0,
        f.normal_component(f.uv_axes_spec().1) == 0,
        f.normal_component(f.axis_spec()) * f.normal_component(f.axis_spec()) == 1,
{
}

} // verus!
