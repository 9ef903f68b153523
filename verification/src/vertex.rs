//! Vertices of a position, a texture coordinate and a colour, and the
//! memory that holds them for the device.

use crate::math::Scalar;
use vstd::prelude::*;

verus! {

/// The number of 32-bit words in one vertex.
pub const VERTEX2D_WORDS: usize = 9;

/// The number of bytes in one vertex.
pub const VERTEX2D_SIZE: usize = 36;

/// The byte at which the texture coordinate of a vertex starts.
pub const TEXT_COORD_OFFSET: usize = 12;

/// The byte at which the colour of a vertex starts.
pub const COLOR_OFFSET: usize = 20;

#[derive(Copy, Clone, Debug, PartialEq, Eq, Structural)]
pub struct Vert2DPosition {
    pub x: Scalar,
    pub y: Scalar,
    pub z: Scalar,
}

#[derive(Copy, Clone, Debug, PartialEq, Eq, Structural)]
pub struct Vert2DTextureCoord {
    pub u: Scalar,
    pub v: Scalar,
}

#[derive(Copy, Clone, Debug, PartialEq, Eq, Structural)]
pub struct Vert2DColor {
    pub r: Scalar,
    pub g: Scalar,
    pub b: Scalar,
    pub a: Scalar,
}

/// A vertex as the device reads it: a position, a texture coordinate and a
/// colour, nine scalars with nothing between them.
#[derive(Copy, Clone, Debug, PartialEq, Eq, Structural)]
pub struct Vertex2D {
    pub position: Vert2DPosition,
    pub text_coord: Vert2DTextureCoord,
    pub color: Vert2DColor,
}

impl Vert2DColor {
    pub open spec fn spec_white() -> Vert2DColor {
        Vert2DColor {
            r: Scalar::spec_one(),
            g: Scalar::spec_one(),
            b: Scalar::spec_one(),
            a: Scalar::spec_one(),
        }
    }

    /// Opaque white: all four components one.
    #[verifier::when_used_as_spec(spec_white)]
    pub fn white() -> (c: Vert2DColor)
        ensures
            c == Self::spec_white(),
    {
        Vert2DColor { r: Scalar::one(), g: Scalar::one(), b: Scalar::one(), a: Scalar::one() }
    }
}

impl Vertex2D {
    pub open spec fn spec_new() -> Vertex2D {
        Vertex2D {
            position: Vert2DPosition {
                x: Scalar::spec_zero(),
                y: Scalar::spec_zero(),
                z: Scalar::spec_zero(),
            },
            text_coord: Vert2DTextureCoord { u: Scalar::spec_zero(), v: Scalar::spec_zero() },
            color: Vert2DColor {
                r: Scalar::spec_zero(),
                g: Scalar::spec_zero(),
                b: Scalar::spec_zero(),
                a: Scalar::spec_zero(),
            },
        }
    }

    /// The vertex whose nine scalars are zero.
    #[verifier::when_used_as_spec(spec_new)]
    pub fn new() -> (v: Vertex2D)
        ensures
            v == Self::spec_new(),
    {
        let z = Scalar::zero();
        Vertex2D {
            position: Vert2DPosition { x: z, y: z, z: z },
            text_coord: Vert2DTextureCoord { u: z, v: z },
            color: Vert2DColor { r: z, g: z, b: z, a: z },
        }
    }

    /// The nine words of the vertex in the order in which the device reads
    /// them.
    pub open spec fn words(self) -> Seq<u32> {
        seq![
            self.position.x.bits,
            self.position.y.bits,
            self.position.z.bits,
            self.text_coord.u.bits,
            self.text_coord.v.bits,
            self.color.r.bits,
            self.color.g.bits,
            self.color.b.bits,
            self.color.a.bits,
        ]
    }

    /// The nine scalars of the vertex in the order in which the device
    /// reads them.
    pub fn as_slice(&self) -> (s: [Scalar; 9])
        ensures
            s@.len() == 9,
            forall|i: int| 0 <= i < 9 ==> (#[trigger] s@[i]).bits == self.words()[i],
    {
        [
            self.position.x,
            self.position.y,
            self.position.z,
            self.text_coord.u,
            self.text_coord.v,
            self.color.r,
            self.color.g,
            self.color.b,
            self.color.a,
        ]
    }
}

impl Default for Vertex2D {
    fn default() -> (v: Vertex2D)
        ensures
            v == Vertex2D::spec_new(),
    {
        Vertex2D::new()
    }
}

/// The vertices `verts` with the colour of each replaced by `color`.
pub open spec fn with_color(verts: Seq<Vertex2D>, color: Vert2DColor) -> Seq<Vertex2D> {
    Seq::new(
        verts.len(),
        |i: int|
            Vertex2D { position: verts[i].position, text_coord: verts[i].text_coord, color },
    )
}

/// Gives every vertex the colour `color` and leaves the rest of it as it
/// is.
pub fn set_color(verts: &mut Vec<Vertex2D>, color: Vert2DColor)
    ensures
        final(verts)@ == with_color(old(verts)@, color),
{
    let mut i: usize = 0;
    while i < verts.len()
        invariant
            i <= verts@.len(),
            verts@.len() == old(verts)@.len(),
            forall|j: int| 0 <= j < i ==> #[trigger] verts@[j] == with_color(old(verts)@, color)[j],
            forall|j: int| i <= j < verts@.len() ==> #[trigger] verts@[j] == old(verts)@[j],
        decreases verts@.len() - i,
    {
        let v = verts[i];
        verts[i] = Vertex2D { position: v.position, text_coord: v.text_coord, color };
        i = i + 1;
    }
    assert(verts@ =~= with_color(old(verts)@, color));
}

/// The words of a run of vertices, one vertex after the other.
pub open spec fn vertex_words(verts: Seq<Vertex2D>) -> Seq<u32> {
    Seq::new(
        9 * verts.len(),
        |i: int| verts[i / 9].words()[i % 9],
    )
}

/// The memory that holds `verts` as the device reads it.
pub fn vertex_data(verts: &[Vertex2D]) -> (words: Vec<u32>)
    ensures
        words@ == vertex_words(verts@),
{
    let mut words: Vec<u32> = Vec::new();
    let mut i: usize = 0;
    while i < verts.len()
        invariant
            i <= verts@.len(),
            words@.len() == 9 * i,
            forall|j: int| 0 <= j < 9 * i ==> #[trigger] words@[j] == verts@[j / 9].words()[j % 9],
        decreases verts@.len() - i,
    {
        let v = verts[i];
        let ghost before = words@;
        words.push(v.position.x.to_bits());
        words.push(v.position.y.to_bits());
        words.push(v.position.z.to_bits());
        words.push(v.text_coord.u.to_bits());
        words.push(v.text_coord.v.to_bits());
        words.push(v.color.r.to_bits());
        words.push(v.color.g.to_bits());
        words.push(v.color.b.to_bits());
        words.push(v.color.a.to_bits());
        assert(words@ =~= before + v.words());
        assert forall|j: int| 0 <= j < 9 * (i + 1) implies #[trigger] words@[j] == verts@[j
            / 9].words()[j % 9] by {
            if j >= 9 * i {
                assert(j / 9 == i && j % 9 == j - 9 * i);
                assert(words@[j] == v.words()[j - 9 * i]);
            } else {
                assert(words@[j] == before[j]);
            }
        }
        i = i + 1;
    }
    assert(words@ =~= vertex_words(verts@));
    words
}

} // verus!
