//! The axis-aligned cube: where it stands, and how a ray is decided to meet it.
//!
//! A ray meets a cube by the slab method. The program computes, in binary32,
//! the ray parameter at which the ray crosses each of the cube's six bounding
//! planes; `Planes::hit_parameter` reduces those six numbers to the parameter
//! of the hit, or to a miss. From the hit point the program then computes its
//! offset from each of the six planes, and `Planes::select_face` names the
//! face that was struck.
use vstd::prelude::*;
use crate::material::Material;
use crate::scalar::Scalar;

verus! {

/// The tolerance within which a hit point counts as lying on a bounding
/// plane: the binary32 number nearest to one ten-thousandth.
pub const FACE_TOLERANCE_BITS: u32 = 0x38d1_b717;

#[derive(Clone, Copy, Debug, PartialEq, Eq, Structural)]
pub enum Axis {
    X,
    Y,
    Z,
}

/// Whether a vector is one of the two unit vectors along an axis.
pub open spec fn is_unit_along(v: (int, int, int), axis: Axis) -> bool {
    match axis {
        Axis::X => (v.0 == 1 || v.0 == -1) && v.1 == 0 && v.2 == 0,
        Axis::Y => v.0 == 0 && (v.1 == 1 || v.1 == -1) && v.2 == 0,
        Axis::Z => v.0 == 0 && v.1 == 0 && (v.2 == 1 || v.2 == -1),
    }
}

/// The six faces of an axis-aligned cube, in the order in which a hit point
/// is tested against them.
#[derive(Clone, Copy, Debug, PartialEq, Eq, Structural)]
pub enum Face {
    XMin,
    XMax,
    YMin,
    YMax,
    ZMin,
    ZMax,
}

impl Face {
    /// The place of the face in the test order.
    pub open spec fn spec_order(self) -> int {
        match self {
            Face::XMin => 0,
            Face::XMax => 1,
            Face::YMin => 2,
            Face::YMax => 3,
            Face::ZMin => 4,
            Face::ZMax => 5,
        }
    }

    /// The axis to which the face is perpendicular.
    pub open spec fn spec_axis(self) -> Axis {
        match self {
            Face::XMin | Face::XMax => Axis::X,
            Face::YMin | Face::YMax => Axis::Y,
            Face::ZMin | Face::ZMax => Axis::Z,
        }
    }

    /// The unit vector that points out of the cube through the face.
    pub open spec fn spec_normal(self) -> (int, int, int) {
        match self {
            Face::XMin => (-1, 0, 0),
            Face::XMax => (1, 0, 0),
            Face::YMin => (0, -1, 0),
            Face::YMax => (0, 1, 0),
            Face::ZMin => (0, 0, -1),
            Face::ZMax => (0, 0, 1),
        }
    }

    pub fn order(self) -> (i: usize)
        ensures
            i == self.spec_order(),
            i < 6,
    {
        match self {
            Face::XMin => 0,
            Face::XMax => 1,
            Face::YMin => 2,
            Face::YMax => 3,
            Face::ZMin => 4,
            Face::ZMax => 5,
        }
    }

    pub fn axis(self) -> (a: Axis)
        ensures
            a == self.spec_axis(),
    {
        match self {
            Face::XMin | Face::XMax => Axis::X,
            Face::YMin | Face::YMax => Axis::Y,
            Face::ZMin | Face::ZMax => Axis::Z,
        }
    }

    /// The outward normal of the face: a unit vector along the face's axis,
    /// towards the side on which the face lies.
    pub fn normal(self) -> (n: (i8, i8, i8))
        ensures
            (n.0 as int, n.1 as int, n.2 as int) == self.spec_normal(),
            is_unit_along(self.spec_normal(), self.spec_axis()),
            n.0 + n.1 + n.2 == if self.spec_order() % 2 == 0 {
                -1int
            } else {
                1int
            },
    {
        match self {
            Face::XMin => (-1, 0, 0),
            Face::XMax => (1, 0, 0),
            Face::YMin => (0, -1, 0),
            Face::YMax => (0, 1, 0),
            Face::ZMin => (0, 0, -1),
            Face::ZMax => (0, 0, 1),
        }
    }
}

/// The outward normal of a struck face, or the zero vector where no face was
/// found.
pub open spec fn spec_normal_of(face: Option<Face>) -> (int, int, int) {
    match face {
        Some(f) => f.spec_normal(),
        None => (0, 0, 0),
    }
}

pub fn normal_of(face: Option<Face>) -> (n: (i8, i8, i8))
    ensures
        (n.0 as int, n.1 as int, n.2 as int) == spec_normal_of(face),
{
    match face {
        Some(f) => f.normal(),
        None => (0, 0, 0),
    }
}

/// The two axes that span a face, in the order (u, v) of its texture
/// coordinates. A hit without a face is mapped like a hit on a Z face.
pub open spec fn spec_uv_axes(face: Option<Face>) -> (Axis, Axis) {
    match face {
        Some(f) => match f.spec_axis() {
            Axis::X => (Axis::Z, Axis::Y),
            Axis::Y => (Axis::X, Axis::Z),
            Axis::Z => (Axis::X, Axis::Y),
        },
        None => (Axis::X, Axis::Y),
    }
}

pub fn uv_axes(face: Option<Face>) -> (axes: (Axis, Axis))
    ensures
        axes == spec_uv_axes(face),
        axes.0 != axes.1,
        face matches Some(f) ==> axes.0 != f.spec_axis() && axes.1 != f.spec_axis(),
{
    match face {
        Some(f) => match f.axis() {
            Axis::X => (Axis::Z, Axis::Y),
            Axis::Y => (Axis::X, Axis::Z),
            Axis::Z => (Axis::X, Axis::Y),
        },
        None => (Axis::X, Axis::Y),
    }
}

/// One number for each of the six bounding planes of a cube.
#[derive(Clone, Copy, Debug, PartialEq, Eq, Structural)]
pub struct Planes {
    pub x_min: Scalar,
    pub x_max: Scalar,
    pub y_min: Scalar,
    pub y_max: Scalar,
    pub z_min: Scalar,
    pub z_max: Scalar,
}

impl Planes {
    /// The number that belongs to the plane of `face`.
    pub open spec fn at(self, face: Face) -> Scalar {
        match face {
            Face::XMin => self.x_min,
            Face::XMax => self.x_max,
            Face::YMin => self.y_min,
            Face::YMax => self.y_max,
            Face::ZMin => self.z_min,
            Face::ZMax => self.z_max,
        }
    }

    /// Whether one of the six numbers is a NaN.
    pub open spec fn has_nan(self) -> bool {
        ||| self.x_min.is_nan()
        ||| self.x_max.is_nan()
        ||| self.y_min.is_nan()
        ||| self.y_max.is_nan()
        ||| self.z_min.is_nan()
        ||| self.z_max.is_nan()
    }

    /// The first of the two planes of an axis.
    pub open spec fn low(self, axis: Axis) -> Scalar {
        match axis {
            Axis::X => self.x_min,
            Axis::Y => self.y_min,
            Axis::Z => self.z_min,
        }
    }

    /// The second of the two planes of an axis.
    pub open spec fn high(self, axis: Axis) -> Scalar {
        match axis {
            Axis::X => self.x_max,
            Axis::Y => self.y_max,
            Axis::Z => self.z_max,
        }
    }

    /// The rank of the parameter at which the ray enters the slab of an axis.
    pub open spec fn near_rank(self, axis: Axis) -> int {
        if self.low(axis).rank() <= self.high(axis).rank() {
            self.low(axis).rank()
        } else {
            self.high(axis).rank()
        }
    }

    /// The rank of the parameter at which the ray leaves the slab of an axis.
    pub open spec fn far_rank(self, axis: Axis) -> int {
        if self.low(axis).rank() <= self.high(axis).rank() {
            self.high(axis).rank()
        } else {
            self.low(axis).rank()
        }
    }

    /// Whether the ray is inside the slab of an axis at the parameter of the
    /// given rank, its two planes included.
    pub open spec fn within_slab(self, axis: Axis, rank: int) -> bool {
        self.near_rank(axis) <= rank <= self.far_rank(axis)
    }

    /// Whether the ray is inside the slab of an axis at the parameter of the
    /// given rank, and on neither of its planes.
    pub open spec fn strictly_within_slab(self, axis: Axis, rank: int) -> bool {
        self.near_rank(axis) < rank < self.far_rank(axis)
    }

    /// Whether the three slabs have a ray parameter in common.
    pub open spec fn slabs_overlap(self) -> bool {
        forall|a: Axis, b: Axis| self.near_rank(a) <= self.far_rank(b)
    }

    /// Read as ray parameters: where the ray enters the slab of an axis.
    pub open spec fn near(self, axis: Axis) -> Scalar {
        match axis {
            Axis::X => self.x_min.min(self.x_max),
            Axis::Y => self.y_min.min(self.y_max),
            Axis::Z => self.z_min.min(self.z_max),
        }
    }

    /// Read as ray parameters: where the ray leaves the slab of an axis.
    pub open spec fn far(self, axis: Axis) -> Scalar {
        match axis {
            Axis::X => self.x_min.max(self.x_max),
            Axis::Y => self.y_min.max(self.y_max),
            Axis::Z => self.z_min.max(self.z_max),
        }
    }

    /// The parameter at which the ray has entered all three slabs.
    pub open spec fn entry(self) -> Scalar {
        self.near(Axis::X).max(self.near(Axis::Y)).max(self.near(Axis::Z))
    }

    /// The parameter at which the ray leaves the first of the three slabs.
    pub open spec fn exit(self) -> Scalar {
        self.far(Axis::X).min(self.far(Axis::Y)).min(self.far(Axis::Z))
    }

    /// The parameter of the hit: none where the cube lies behind the ray or
    /// the slabs have no parameter in common, the entry where that lies ahead
    /// of the ray's origin, else the exit.
    pub open spec fn spec_hit_parameter(self) -> Option<Scalar> {
        if self.exit().lt(Scalar::zero()) || self.entry().gt(self.exit()) {
            None
        } else if self.entry().gt(Scalar::zero()) {
            Some(self.entry())
        } else {
            Some(self.exit())
        }
    }

    /// Read as offsets of a point from the planes: whether the point lies on
    /// the plane of `face`, within the tolerance.
    pub open spec fn touches(self, face: Face) -> bool {
        self.at(face).abs().lt(Scalar { bits: FACE_TOLERANCE_BITS })
    }

    /// The parameter of the hit, by the slab method. Of six parameters
    /// without a NaN the ray hits exactly when the three slabs have a
    /// parameter in common and none of them ends behind the ray's origin; the
    /// parameter of the hit then lies within all three slabs and not behind
    /// the origin.
    #[verifier::when_used_as_spec(spec_hit_parameter)]
    pub fn hit_parameter(self) -> (hit: Option<Scalar>)
        ensures
            hit == self.spec_hit_parameter(),
            !self.has_nan() ==> (hit is Some <==> self.slabs_overlap() && forall|a: Axis|
                self.far_rank(a) >= 0),
            !self.has_nan() ==> (hit matches Some(t) ==> !t.is_nan() && t.rank() >= 0 && forall|
                a: Axis,
            |
                self.within_slab(a, t.rank())),
    {
        proof {
            if !self.has_nan() {
                lemma_hit_iff_slabs_meet(self);
            }
        }
        let near_x: Scalar = self.x_min.min(self.x_max);
        let near_y: Scalar = self.y_min.min(self.y_max);
        let near_z: Scalar = self.z_min.min(self.z_max);
        let far_x: Scalar = self.x_min.max(self.x_max);
        let far_y: Scalar = self.y_min.max(self.y_max);
        let far_z: Scalar = self.z_min.max(self.z_max);
        let entry: Scalar = near_x.max(near_y).max(near_z);
        let exit: Scalar = far_x.min(far_y).min(far_z);
        if exit.lt(Scalar::zero()) {
            return None;
        }
        if entry.gt(exit) {
            return None;
        }
        if entry.gt(Scalar::zero()) {
            Some(entry)
        } else {
            Some(exit)
        }
    }

    /// The face on whose plane the hit point lies. Where the point lies on
    /// several planes at once, on an edge or a corner, the face that comes
    /// first in the test order is taken.
    pub fn select_face(self) -> (face: Option<Face>)
        ensures
            face matches Some(f) ==> self.touches(f) && forall|g: Face|
                g.spec_order() < f.spec_order() ==> !self.touches(g),
            face is None ==> forall|g: Face| !self.touches(g),
    {
        let tolerance: Scalar = Scalar::from_bits(FACE_TOLERANCE_BITS);
        if self.x_min.abs().lt(tolerance) {
            Some(Face::XMin)
        } else if self.x_max.abs().lt(tolerance) {
            Some(Face::XMax)
        } else if self.y_min.abs().lt(tolerance) {
            Some(Face::YMin)
        } else if self.y_max.abs().lt(tolerance) {
            Some(Face::YMax)
        } else if self.z_min.abs().lt(tolerance) {
            Some(Face::ZMin)
        } else if self.z_max.abs().lt(tolerance) {
            Some(Face::ZMax)
        } else {
            None
        }
    }
}

/// Of six ray parameters without a NaN, the entry is the last of the three
/// slab entries and the exit the first of the three slab exits.
pub proof fn lemma_entry_exit(p: Planes)
    requires
        !p.has_nan(),
    ensures
        !p.entry().is_nan(),
        !p.exit().is_nan(),
        forall|a: Axis| p.near_rank(a) <= p.entry().rank(),
        exists|a: Axis| p.near_rank(a) == p.entry().rank(),
        forall|a: Axis| p.exit().rank() <= p.far_rank(a),
        exists|a: Axis| p.far_rank(a) == p.exit().rank(),
{
    assert(p.near(Axis::X).rank() == p.near_rank(Axis::X));
    assert(p.near(Axis::Y).rank() == p.near_rank(Axis::Y));
    assert(p.near(Axis::Z).rank() == p.near_rank(Axis::Z));
    assert(p.far(Axis::X).rank() == p.far_rank(Axis::X));
    assert(p.far(Axis::Y).rank() == p.far_rank(Axis::Y));
    assert(p.far(Axis::Z).rank() == p.far_rank(Axis::Z));
    assert forall|a: Axis| p.near_rank(a) <= p.entry().rank() by {
        match a {
            Axis::X => {},
            Axis::Y => {},
            Axis::Z => {},
        }
    }
    assert forall|a: Axis| p.exit().rank() <= p.far_rank(a) by {
        match a {
            Axis::X => {},
            Axis::Y => {},
            Axis::Z => {},
        }
    }
    assert(p.near_rank(Axis::X) == p.entry().rank() || p.near_rank(Axis::Y) == p.entry().rank()
        || p.near_rank(Axis::Z) == p.entry().rank());
    assert(p.far_rank(Axis::X) == p.exit().rank() || p.far_rank(Axis::Y) == p.exit().rank()
        || p.far_rank(Axis::Z) == p.exit().rank());
}

/// The slab method, for six ray parameters without a NaN: the ray hits
/// exactly when the three slabs have a parameter in common and none of them
/// ends behind the ray's origin. The parameter of the hit is then not
/// negative and lies within all three slabs.
pub proof fn lemma_hit_iff_slabs_meet(p: Planes)
    requires
        !p.has_nan(),
    ensures
        p.spec_hit_parameter() is Some <==> p.slabs_overlap() && forall|a: Axis|
            p.far_rank(a) >= 0,
        p.spec_hit_parameter() matches Some(t) ==> !t.is_nan() && t.rank() >= 0 && forall|a: Axis|
            p.within_slab(a, t.rank()),
{
    lemma_entry_exit(p);
    let near = choose|a: Axis| p.near_rank(a) == p.entry().rank();
    let far = choose|a: Axis| p.far_rank(a) == p.exit().rank();
    if p.spec_hit_parameter() is Some {
        assert forall|a: Axis, b: Axis| p.near_rank(a) <= p.far_rank(b) by {
            assert(p.near_rank(a) <= p.entry().rank());
            assert(p.exit().rank() <= p.far_rank(b));
        }
        assert forall|a: Axis| p.far_rank(a) >= 0 by {
            assert(p.exit().rank() <= p.far_rank(a));
        }
    }
    if p.slabs_overlap() && (forall|a: Axis| p.far_rank(a) >= 0) {
        assert(p.near_rank(near) <= p.far_rank(far));
        assert(p.far_rank(far) >= 0);
    }
}

/// A cube that lies behind the ray on some axis is missed.
pub proof fn lemma_miss_behind(p: Planes, axis: Axis)
    requires
        !p.has_nan(),
        p.far_rank(axis) < 0,
    ensures
        p.spec_hit_parameter() is None,
{
    lemma_hit_iff_slabs_meet(p);
}

/// A ray that leaves the slab of one axis before it enters the slab of
/// another misses the cube.
pub proof fn lemma_miss_disjoint(p: Planes, entered: Axis, left: Axis)
    requires
        !p.has_nan(),
        p.near_rank(entered) > p.far_rank(left),
    ensures
        p.spec_hit_parameter() is None,
{
    lemma_hit_iff_slabs_meet(p);
}

/// A ray that runs parallel to the planes of an axis, outside the slab
/// between them, misses the cube: both of its parameters for that axis are
/// then the same infinity, and the ray moves along some other axis, whose
/// slab it leaves at a finite parameter.
pub proof fn lemma_miss_parallel_outside(p: Planes, parallel: Axis, moving: Axis)
    requires
        !p.has_nan(),
        p.low(parallel).magnitude() == Scalar::infinity().magnitude(),
        p.high(parallel).magnitude() == Scalar::infinity().magnitude(),
        p.low(parallel).sign_negative() == p.high(parallel).sign_negative(),
        p.far_rank(moving) < Scalar::infinity().rank(),
    ensures
        p.spec_hit_parameter() is None,
{
    if p.low(parallel).sign_negative() {
        lemma_miss_behind(p, parallel);
    } else {
        lemma_miss_disjoint(p, parallel, moving);
    }
}

/// A ray that starts strictly inside the cube hits it where it leaves: every
/// slab is entered behind the origin and left ahead of it, and the hit is the
/// exit, the first of the three slab exits.
pub proof fn lemma_inside_hits_exit(p: Planes)
    requires
        !p.has_nan(),
        forall|a: Axis| p.strictly_within_slab(a, 0),
    ensures
        p.spec_hit_parameter() == Some(p.exit()),
        p.entry().rank() < 0 < p.exit().rank(),
        forall|a: Axis| p.exit().rank() <= p.far_rank(a),
        exists|a: Axis| p.far_rank(a) == p.exit().rank(),
{
    lemma_entry_exit(p);
    let near = choose|a: Axis| p.near_rank(a) == p.entry().rank();
    let far = choose|a: Axis| p.far_rank(a) == p.exit().rank();
    assert(p.strictly_within_slab(near, 0));
    assert(p.strictly_within_slab(far, 0));
}

/// A ray that starts outside the cube and passes through it hits it where it
/// enters: if some parameter `through` lies within all three slabs and the
/// slab of some axis begins ahead of the origin, the hit is the entry, the
/// last of the three slab entries.
pub proof fn lemma_outside_hits_entry(p: Planes, through: int, outside: Axis)
    requires
        !p.has_nan(),
        forall|a: Axis| p.within_slab(a, through),
        0 < p.near_rank(outside),
    ensures
        p.spec_hit_parameter() == Some(p.entry()),
        0 < p.entry().rank() <= through,
        forall|a: Axis| p.near_rank(a) <= p.entry().rank(),
        exists|a: Axis| p.near_rank(a) == p.entry().rank(),
{
    lemma_entry_exit(p);
    let near = choose|a: Axis| p.near_rank(a) == p.entry().rank();
    let far = choose|a: Axis| p.far_rank(a) == p.exit().rank();
    assert(p.within_slab(near, through));
    assert(p.within_slab(far, through));
    assert(p.near_rank(outside) <= p.entry().rank());
}

/// A point of the diorama, in quarter world units.
#[derive(Clone, Copy, Debug, PartialEq, Eq, Structural)]
pub struct Position {
    pub x: i64,
    pub y: i64,
    pub z: i64,
}

/// An axis-aligned cube: its centre and the length of its edges, both in
/// quarter world units, and its material.
#[derive(Clone, Copy, Debug, PartialEq, Eq, Structural)]
pub struct Cube {
    pub center: Position,
    pub size: i64,
    pub material: Material,
}

} // verus!
