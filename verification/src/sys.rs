//! Rectangles, quads and transforms.

use crate::graphics::NumDefault;
use crate::math::{Matrix, Scalar, HALF_BITS, NEG_HALF_BITS};
use crate::vertex::{Vert2DColor, Vert2DPosition, Vert2DTextureCoord, Vertex2D};
use vstd::prelude::*;
use vstd::std_specs::ops::AddSpec;

verus! {

/// An axis-aligned rectangle given by its top-left corner and its size.
pub struct Rect<T: NumDefault> {
    pub x: T,
    pub y: T,
    pub w: T,
    pub h: T,
}

impl<T: NumDefault> Rect<T> {
    pub fn new(x: T, y: T, w: T, h: T) -> (r: Self)
        ensures
            r.x == x,
            r.y == y,
            r.w == w,
            r.h == h,
    {
        Rect { x, y, w, h }
    }

    /// The coordinate of the bottom edge: `y + h`.
    pub fn bottom(&self) -> (b: T)
        requires
            self.y.add_req(self.h),
        ensures
            T::obeys_add_spec() ==> b == self.y.add_spec(self.h),
    {
        self.y + self.h
    }

    /// The coordinate of the right edge: `x + w`.
    pub fn right(&self) -> (r: T)
        requires
            self.x.add_req(self.w),
        ensures
            T::obeys_add_spec() ==> r == self.x.add_spec(self.w),
    {
        self.x + self.w
    }
}

impl<T: NumDefault> Default for Rect<T> {
    /// The rectangle whose four fields hold the default value of `T`.
    fn default() -> (r: Self)
        ensures
            call_ensures(T::default, (), r.x),
            r.y == r.x,
            r.w == r.x,
            r.h == r.x,
    {
        let default = T::default();
        Rect { x: default, y: default, w: default, h: default }
    }
}

pub type Recti = Rect<i32>;

pub type Rectui = Rect<u32>;

/// The corner of the unit quad at (`x`, `y`) with texture coordinate
/// (`u`, `v`), in white.
pub open spec fn corner(x: Scalar, y: Scalar, u: Scalar, v: Scalar) -> Vertex2D {
    Vertex2D {
        position: Vert2DPosition { x, y, z: Scalar::spec_zero() },
        text_coord: Vert2DTextureCoord { u, v },
        color: Vert2DColor::spec_white(),
    }
}

/// The four corners of the quad of side one about the origin, as a
/// triangle strip: top left, bottom left, top right, bottom right. The
/// texture coordinates run from zero at the left and at the bottom to one
/// at the right and at the top.
pub open spec fn unit_quad() -> Seq<Vertex2D> {
    let lo = Scalar { bits: NEG_HALF_BITS };
    let hi = Scalar { bits: HALF_BITS };
    let zero = Scalar::spec_zero();
    let one = Scalar::spec_one();
    seq![
        corner(lo, hi, zero, one),
        corner(lo, lo, zero, zero),
        corner(hi, hi, one, one),
        corner(hi, lo, one, zero),
    ]
}

/// Four vertices that are drawn as one quad.
pub struct Quad {
    pub verts: [Vertex2D; 4],
}

impl Quad {
    /// The corners of the quad of side one about the origin.
    pub fn default_verts() -> (verts: [Vertex2D; 4])
        ensures
            verts@ == unit_quad(),
    {
        let lo = Scalar::from_bits(NEG_HALF_BITS);
        let hi = Scalar::from_bits(HALF_BITS);
        let zero = Scalar::zero();
        let one = Scalar::one();
        let white = Vert2DColor::white();
        let result = [
            Vertex2D {
                position: Vert2DPosition { x: lo, y: hi, z: zero },
                text_coord: Vert2DTextureCoord { u: zero, v: one },
                color: white,
            },
            Vertex2D {
                position: Vert2DPosition { x: lo, y: lo, z: zero },
                text_coord: Vert2DTextureCoord { u: zero, v: zero },
                color: white,
            },
            Vertex2D {
                position: Vert2DPosition { x: hi, y: hi, z: zero },
                text_coord: Vert2DTextureCoord { u: one, v: one },
                color: white,
            },
            Vertex2D {
                position: Vert2DPosition { x: hi, y: lo, z: zero },
                text_coord: Vert2DTextureCoord { u: one, v: zero },
                color: white,
            },
        ];
        assert(result@ =~= unit_quad());
        result
    }

    /// The quad of the first four of `verts`.
    pub fn with_verts(verts: &[Vertex2D]) -> (q: Self)
        requires
            verts@.len() >= 4,
        ensures
            q.verts@ == verts@.take(4),
    {
        let vs = [verts[0], verts[1], verts[2], verts[3]];
        assert(vs@ =~= verts@.take(4));
        Quad { verts: vs }
    }
}

impl Default for Quad {
    fn default() -> (q: Self)
        ensures
            q.verts@ == unit_quad(),
    {
        Quad { verts: Self::default_verts() }
    }
}

/// A model matrix: how the vertices of what is drawn are placed in the
/// world.
pub struct Transform(pub Matrix);

impl Transform {
    pub fn new(mat: &Matrix) -> (t: Self)
        ensures
            t.0 == *mat,
    {
        Transform(*mat)
    }

    /// The transform that moves by (`x`, `y`, `z`); the offset stands in
    /// the last column of the rows.
    pub fn from_position(position: (Scalar, Scalar, Scalar)) -> (t: Self)
        ensures
            t.0 == Matrix::spec_from_rows(
                Scalar::spec_one(), Scalar::spec_zero(), Scalar::spec_zero(), position.0,
                Scalar::spec_zero(), Scalar::spec_one(), Scalar::spec_zero(), position.1,
                Scalar::spec_zero(), Scalar::spec_zero(), Scalar::spec_one(), position.2,
                Scalar::spec_zero(), Scalar::spec_zero(), Scalar::spec_zero(), Scalar::spec_one(),
            ),
    {
        let (x, y, z) = position;
        let o = Scalar::one();
        let n = Scalar::zero();
        let model = Matrix::from_rows(o, n, n, x, n, o, n, y, n, n, o, z, n, n, n, o);
        Transform(model)
    }

    /// The transform that scales by `x` and `y` in the plane.
    pub fn from_scale(scale: (Scalar, Scalar)) -> (t: Self)
        ensures
            t.0 == Matrix::spec_from_rows(
                scale.0, Scalar::spec_zero(), Scalar::spec_zero(), Scalar::spec_zero(),
                Scalar::spec_zero(), scale.1, Scalar::spec_zero(), Scalar::spec_zero(),
                Scalar::spec_zero(), Scalar::spec_zero(), Scalar::spec_one(), Scalar::spec_zero(),
                Scalar::spec_zero(), Scalar::spec_zero(), Scalar::spec_zero(), Scalar::spec_one(),
            ),
    {
        let (x, y) = scale;
        let o = Scalar::one();
        let n = Scalar::zero();
        let model = Matrix::from_rows(x, n, n, n, n, y, n, n, n, n, o, n, n, n, n, o);
        Transform(model)
    }

    pub fn model(&self) -> (m: &Matrix)
        ensures
            *m == self.0,
    {
        &self.0
    }
}

impl Default for Transform {
    /// The transform that leaves everything where it is.
    fn default() -> (t: Self)
        ensures
            t.0 == Matrix::spec_identity(),
    {
        Transform(Matrix::identity())
    }
}

} // verus!
