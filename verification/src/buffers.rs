//! Buffers of vertices and indices, render buffers, framebuffers and vertex
//! arrays, and the layout of the vertices in a buffer.

use crate::graphics::Texture;
use crate::opengl::gl::{self, Blob, BlobView, Gl, GlCall};
use crate::opengl::{
    gl_bind_array_buffer, gl_bind_vertex_array, gl_delete_buffer, gl_unbind_element_buffer,
};
use crate::vertex::{
    vertex_data, vertex_words, Vertex2D, COLOR_OFFSET, TEXT_COORD_OFFSET, VERTEX2D_SIZE,
};
use vstd::prelude::*;
use vstd::slice::slice_to_vec;

verus! {

/// The type of one component of a vertex attribute or a texel.
#[derive(Debug, Copy, Clone, PartialEq, Eq, Structural)]
pub enum DataType {
    Byte,
    Short,
    Int,
    Float,
}

impl DataType {
    /// The driver's number for the type.
    pub open spec fn spec_code(self) -> u32 {
        match self {
            DataType::Byte => gl::BYTE,
            DataType::Short => gl::SHORT,
            DataType::Int => gl::INT,
            DataType::Float => gl::FLOAT,
        }
    }

    #[verifier::when_used_as_spec(spec_code)]
    pub fn code(self) -> (code: u32)
        ensures
            code == self.spec_code(),
    {
        match self {
            DataType::Byte => gl::BYTE,
            DataType::Short => gl::SHORT,
            DataType::Int => gl::INT,
            DataType::Float => gl::FLOAT,
        }
    }
}

/// The kind of primitive that a draw call assembles from the vertices.
#[derive(Debug, Copy, Clone, PartialEq, Eq, Structural)]
pub enum DrawPrimitive {
    Points,
    Lines,
    LineLoop,
    LineStrip,
    Triangles,
    TriangleStrip,
    Quads,
}

impl DrawPrimitive {
    /// The driver's number for the primitive.
    pub open spec fn spec_code(self) -> u32 {
        match self {
            DrawPrimitive::Points => gl::POINTS,
            DrawPrimitive::Lines => gl::LINES,
            DrawPrimitive::LineLoop => gl::LINE_LOOP,
            DrawPrimitive::LineStrip => gl::LINE_STRIP,
            DrawPrimitive::Triangles => gl::TRIANGLES,
            DrawPrimitive::TriangleStrip => gl::TRIANGLE_STRIP,
            DrawPrimitive::Quads => gl::QUADS,
        }
    }

    #[verifier::when_used_as_spec(spec_code)]
    pub fn code(self) -> (code: u32)
        ensures
            code == self.spec_code(),
    {
        match self {
            DrawPrimitive::Points => gl::POINTS,
            DrawPrimitive::Lines => gl::LINES,
            DrawPrimitive::LineLoop => gl::LINE_LOOP,
            DrawPrimitive::LineStrip => gl::LINE_STRIP,
            DrawPrimitive::Triangles => gl::TRIANGLES,
            DrawPrimitive::TriangleStrip => gl::TRIANGLE_STRIP,
            DrawPrimitive::Quads => gl::QUADS,
        }
    }
}

/// How often the contents of a buffer are expected to change.
#[derive(Debug, Copy, Clone, PartialEq, Eq, Structural)]
pub enum DrawUsage {
    Static,
    Dynamic,
    Stream,
}

impl DrawUsage {
    /// The driver's number for the usage hint.
    pub open spec fn spec_code(self) -> u32 {
        match self {
            DrawUsage::Static => gl::STATIC_DRAW,
            DrawUsage::Dynamic => gl::DYNAMIC_DRAW,
            DrawUsage::Stream => gl::STREAM_DRAW,
        }
    }

    #[verifier::when_used_as_spec(spec_code)]
    pub fn code(self) -> (code: u32)
        ensures
            code == self.spec_code(),
    {
        match self {
            DrawUsage::Static => gl::STATIC_DRAW,
            DrawUsage::Dynamic => gl::DYNAMIC_DRAW,
            DrawUsage::Stream => gl::STREAM_DRAW,
        }
    }
}

/// What the client may do with a mapped buffer.
#[derive(Debug, Copy, Clone, PartialEq, Eq, Structural)]
pub enum BufferAccess {
    ReadOnly,
    WriteOnly,
    ReadWrite,
}

impl BufferAccess {
    /// The driver's number for the access mode.
    pub open spec fn spec_code(self) -> u32 {
        match self {
            BufferAccess::ReadOnly => gl::READ_ONLY,
            BufferAccess::WriteOnly => gl::WRITE_ONLY,
            BufferAccess::ReadWrite => gl::READ_WRITE,
        }
    }

    #[verifier::when_used_as_spec(spec_code)]
    pub fn code(self) -> (code: u32)
        ensures
            code == self.spec_code(),
    {
        match self {
            BufferAccess::ReadOnly => gl::READ_ONLY,
            BufferAccess::WriteOnly => gl::WRITE_ONLY,
            BufferAccess::ReadWrite => gl::READ_WRITE,
        }
    }
}

/// One attribute of a vertex: where it lies in the vertex and how the driver
/// is to read it.
#[derive(Debug, Copy, Clone, PartialEq, Eq, Structural)]
pub struct VertexAttribute {
    pub buffer_index: u32,
    pub elem_count: u32,
    pub is_instanced: bool,
    pub dtype: DataType,
    pub offset: usize,
    pub stride: usize,
}

impl Default for VertexAttribute {
    fn default() -> (attr: Self)
        ensures
            attr == (VertexAttribute {
                buffer_index: 0,
                elem_count: 0,
                is_instanced: false,
                dtype: DataType::Float,
                offset: 0,
                stride: 0,
            }),
    {
        VertexAttribute {
            buffer_index: 0,
            elem_count: 0,
            is_instanced: false,
            dtype: DataType::Float,
            offset: 0,
            stride: 0,
        }
    }
}

/// The indices of `quads` whole quads where each group of six positions
/// stands for one quad: position `6 * q + k` holds vertex `4 * q + k`.
/// Positions past the last whole group keep what `before` holds.
pub open spec fn quad_indices(before: Seq<u32>) -> Seq<u32> {
    Seq::new(
        before.len(),
        |j: int|
            if j < 6 * (before.len() as int / 6) {
                (4 * (j / 6) + j % 6) as u32
            } else {
                before[j]
            },
    )
}

/// Overwrites every whole group of six indices with the numbers of one
/// quad's vertices.
pub fn fill_quad_indices(indices: &mut Vec<u32>)
    requires
        4 * (old(indices)@.len() / 6) + 1 <= u32::MAX,
    ensures
        final(indices)@ == quad_indices(old(indices)@),
{
    let quads: usize = indices.len() / 6;
    let mut i: usize = 0;
    while i < quads
        invariant
            6 * quads <= old(indices)@.len() <= usize::MAX,
            4 * quads + 1 <= u32::MAX,
            i <= quads,
            indices@.len() == old(indices)@.len(),
            forall|j: int|
                0 <= j < 6 * i ==> #[trigger] indices@[j] == (4 * (j / 6) + j % 6) as u32,
            forall|j: int|
                6 * i <= j < indices@.len() ==> #[trigger] indices@[j] == old(indices)@[j],
        decreases quads - i,
    {
        let quad_index: usize = i * 6;
        let vert_index: u32 = (i * 4) as u32;
        indices[quad_index] = vert_index;
        indices[quad_index + 1] = vert_index + 1;
        indices[quad_index + 2] = vert_index + 2;
        indices[quad_index + 3] = vert_index + 3;
        indices[quad_index + 4] = vert_index + 4;
        indices[quad_index + 5] = vert_index + 5;
        assert(indices@.len() == old(indices)@.len());
        assert forall|j: int| 0 <= j < 6 * (i + 1) implies #[trigger] indices@[j] == (4 * (j / 6)
            + j % 6) as u32 by {
            if j >= 6 * i {
                assert(j / 6 == i && j % 6 == j - 6 * i);
            }
        }
        i = i + 1;
    }
    assert(indices@ =~= quad_indices(old(indices)@));
}

/// A buffer of vertex indices on the device.
pub struct ElementBuffer {
    /// The driver's name for the buffer.
    pub id: u32,
    /// The number of indices in the buffer.
    pub count: u32,
}

impl ElementBuffer {
    /// The upload of `indices` into the buffer named `id`: bind it, then
    /// hand over four bytes for each index that is counted. The count is
    /// kept in 32 bits.
    pub open spec fn upload_calls(id: u32, indices: Seq<u32>, usage: DrawUsage) -> Seq<
        GlCall<BlobView>,
    > {
        seq![
            GlCall::BindBuffer { target: gl::ELEMENT_ARRAY_BUFFER, buffer: id },
            GlCall::BufferData {
                target: gl::ELEMENT_ARRAY_BUFFER,
                size: (4 * (indices.len() as u32)) as isize,
                data: Some(BlobView::Words(indices)),
                usage: usage.spec_code(),
            },
        ]
    }

    /// Fills the fresh buffer `id` with `indices`, for static use.
    pub fn new(gl: &mut Gl, id: u32, indicies: &[u32]) -> (eb: Self)
        requires
            4 * (indicies@.len() as u32) <= u32::MAX,
            4 * indicies@.len() <= isize::MAX,
        ensures
            eb.id == id,
            eb.count == indicies@.len() as u32,
            final(gl)@ == old(gl)@ + Self::upload_calls(id, indicies@, DrawUsage::Static),
    {
        ElementBuffer::new_with_draw(gl, id, indicies, DrawUsage::Static)
    }

    /// Fills the fresh buffer `id` with `indices`.
    pub fn new_with_draw(gl: &mut Gl, id: u32, indicies: &[u32], usage: DrawUsage) -> (eb: Self)
        requires
            4 * (indicies@.len() as u32) <= u32::MAX,
            4 * indicies@.len() <= isize::MAX,
        ensures
            eb.id == id,
            eb.count == indicies@.len() as u32,
            final(gl)@ == old(gl)@ + Self::upload_calls(id, indicies@, usage),
    {
        let len: usize = indicies.len();
        let eb = ElementBuffer { id, count: #[verifier::truncate] (len as u32) };
        assert(len as u32 <= len) by (bit_vector);
        eb.apply(gl);
        let size: u32 = eb.count * 4;
        gl.push(
            GlCall::BufferData {
                target: gl::ELEMENT_ARRAY_BUFFER,
                size: size as isize,
                data: Some(Blob::Words(slice_to_vec(indicies))),
                usage: usage.code(),
            },
        );
        assert(gl@ =~= old(gl)@ + Self::upload_calls(id, indicies@, usage));
        eb
    }

    /// A buffer of two indices, zero and `count`, in the fresh buffer `id`.
    /// Whole groups of six indices would be numbered as quads; two indices
    /// hold none.
    pub fn new_quad(gl: &mut Gl, id: u32, count: u32) -> (eb: Self)
        ensures
            eb.id == id,
            eb.count == 2,
            final(gl)@ == old(gl)@ + Self::upload_calls(id, seq![0u32, count], DrawUsage::Static),
    {
        let mut indicies: Vec<u32> = Vec::new();
        indicies.push(0);
        indicies.push(count);
        fill_quad_indices(&mut indicies);
        assert(indicies@ =~= seq![0u32, count]);
        ElementBuffer::new(gl, id, indicies.as_slice())
    }

    /// Makes the buffer the current element buffer.
    pub fn apply(&self, gl: &mut Gl)
        ensures
            final(gl)@ == old(gl)@.push(
                GlCall::BindBuffer { target: gl::ELEMENT_ARRAY_BUFFER, buffer: self.id },
            ),
    {
        gl.push(GlCall::BindBuffer { target: gl::ELEMENT_ARRAY_BUFFER, buffer: self.id });
    }

    /// Leaves no element buffer current.
    pub fn unbind(&self, gl: &mut Gl)
        ensures
            final(gl)@ == old(gl)@.push(
                GlCall::BindBuffer { target: gl::ELEMENT_ARRAY_BUFFER, buffer: 0 },
            ),
    {
        gl_unbind_element_buffer(gl);
    }

    /// Gives the buffer back to the driver.
    pub fn delete(self, gl: &mut Gl)
        ensures
            final(gl)@ == old(gl)@.push(GlCall::DeleteBuffers { buffer: self.id }),
    {
        gl_delete_buffer(gl, self.id);
    }
}

/// Storage for depth and stencil values on the device.
pub struct RenderBuffer {
    /// The driver's name for the buffer.
    pub id: u32,
}

impl RenderBuffer {
    /// Gives the fresh buffer `id` storage of `width` by `height` values of
    /// 24 bits of depth and 8 of stencil.
    pub fn new(gl: &mut Gl, id: u32, width: i32, height: i32) -> (rb: Self)
        ensures
            rb.id == id,
            final(gl)@ == old(gl)@ + seq![
                GlCall::<BlobView>::BindRenderbuffer { target: gl::RENDERBUFFER, renderbuffer: id },
                GlCall::<BlobView>::RenderbufferStorage {
                    target: gl::RENDERBUFFER,
                    internal_format: gl::DEPTH24_STENCIL8,
                    width,
                    height,
                },
            ],
    {
        let rb = RenderBuffer { id };
        rb.apply(gl);
        gl.push(
            GlCall::RenderbufferStorage {
                target: gl::RENDERBUFFER,
                internal_format: gl::DEPTH24_STENCIL8,
                width,
                height,
            },
        );
        assert(gl@ =~= old(gl)@ + seq![
            GlCall::<BlobView>::BindRenderbuffer { target: gl::RENDERBUFFER, renderbuffer: id },
            GlCall::<BlobView>::RenderbufferStorage {
                target: gl::RENDERBUFFER,
                internal_format: gl::DEPTH24_STENCIL8,
                width,
                height,
            },
        ]);
        rb
    }

    /// Binds the buffer.
    pub fn apply(&self, gl: &mut Gl)
        ensures
            final(gl)@ == old(gl)@.push(
                GlCall::BindRenderbuffer { target: gl::RENDERBUFFER, renderbuffer: self.id },
            ),
    {
        gl.push(GlCall::BindRenderbuffer { target: gl::RENDERBUFFER, renderbuffer: self.id });
    }

    /// Gives the buffer back to the driver.
    pub fn delete(self, gl: &mut Gl)
        ensures
            final(gl)@ == old(gl)@.push(GlCall::DeleteRenderbuffers { renderbuffer: self.id }),
    {
        gl.push(GlCall::DeleteRenderbuffers { renderbuffer: self.id });
    }
}

/// A target to draw into other than the window.
pub struct FrameBuffer {
    /// The driver's name for the framebuffer.
    pub id: u32,
}

impl FrameBuffer {
    /// Wraps the fresh framebuffer `id` and makes it the current target.
    pub fn new(gl: &mut Gl, id: u32) -> (fb: Self)
        ensures
            fb.id == id,
            final(gl)@ == old(gl)@.push(
                GlCall::BindFramebuffer { target: gl::FRAMEBUFFER, framebuffer: id },
            ),
    {
        let fb = FrameBuffer { id };
        FrameBuffer::apply(&fb, gl);
        fb
    }

    /// Makes `fb` the current target.
    pub fn apply(fb: &FrameBuffer, gl: &mut Gl)
        ensures
            final(gl)@ == old(gl)@.push(
                GlCall::BindFramebuffer { target: gl::FRAMEBUFFER, framebuffer: fb.id },
            ),
    {
        gl.push(GlCall::BindFramebuffer { target: gl::FRAMEBUFFER, framebuffer: fb.id });
    }

    /// Makes the window the current target again.
    pub fn unbind(gl: &mut Gl)
        ensures
            final(gl)@ == old(gl)@.push(
                GlCall::BindFramebuffer { target: gl::FRAMEBUFFER, framebuffer: 0 },
            ),
    {
        gl.push(GlCall::BindFramebuffer { target: gl::FRAMEBUFFER, framebuffer: 0 });
    }

    /// Attaches `rb` as the depth and stencil storage of the framebuffer.
    pub fn attach_render_buffer(&self, gl: &mut Gl, rb: &RenderBuffer)
        ensures
            final(gl)@ == old(gl)@ + seq![
                GlCall::<BlobView>::BindFramebuffer {
                    target: gl::FRAMEBUFFER,
                    framebuffer: self.id,
                },
                GlCall::<BlobView>::FramebufferRenderbuffer {
                    target: gl::FRAMEBUFFER,
                    attachment: gl::DEPTH_STENCIL_ATTACHMENT,
                    renderbuffer_target: gl::RENDERBUFFER,
                    renderbuffer: rb.id,
                },
            ],
    {
        FrameBuffer::apply(self, gl);
        gl.push(
            GlCall::FramebufferRenderbuffer {
                target: gl::FRAMEBUFFER,
                attachment: gl::DEPTH_STENCIL_ATTACHMENT,
                renderbuffer_target: gl::RENDERBUFFER,
                renderbuffer: rb.id,
            },
        );
        assert(gl@ =~= old(gl)@ + seq![
            GlCall::<BlobView>::BindFramebuffer { target: gl::FRAMEBUFFER, framebuffer: self.id },
            GlCall::<BlobView>::FramebufferRenderbuffer {
                target: gl::FRAMEBUFFER,
                attachment: gl::DEPTH_STENCIL_ATTACHMENT,
                renderbuffer_target: gl::RENDERBUFFER,
                renderbuffer: rb.id,
            },
        ]);
    }

    /// The calls that attach the texture named `texture` as colour
    /// attachment number `attachment_num` of the framebuffer.
    pub open spec fn attach_texture_calls(self, texture: u32, attachment_num: u32) -> Seq<
        GlCall<BlobView>,
    > {
        seq![
            GlCall::BindFramebuffer { target: gl::FRAMEBUFFER, framebuffer: self.id },
            GlCall::FramebufferTexture2D {
                target: gl::FRAMEBUFFER,
                attachment: (gl::COLOR_ATTACHMENT0 + attachment_num) as u32,
                texture_target: gl::TEXTURE_2D,
                texture,
                level: 0,
            },
        ]
    }

    /// Attaches `texture` as the first colour attachment.
    pub fn attach_texture(&self, gl: &mut Gl, texture: &Texture)
        ensures
            final(gl)@ == old(gl)@ + self.attach_texture_calls(texture.id, 0),
    {
        self.attach_texture_n(gl, texture, 0);
    }

    /// Attaches `texture` as colour attachment number `attachment_num`.
    pub fn attach_texture_n(&self, gl: &mut Gl, texture: &Texture, attachment_num: u32)
        requires
            gl::COLOR_ATTACHMENT0 + attachment_num <= u32::MAX,
        ensures
            final(gl)@ == old(gl)@ + self.attach_texture_calls(texture.id, attachment_num),
    {
        FrameBuffer::apply(self, gl);
        gl.push(
            GlCall::FramebufferTexture2D {
                target: gl::FRAMEBUFFER,
                attachment: gl::COLOR_ATTACHMENT0 + attachment_num,
                texture_target: gl::TEXTURE_2D,
                texture: texture.id(),
                level: 0,
            },
        );
        assert(gl@ =~= old(gl)@ + self.attach_texture_calls(texture.id, attachment_num));
    }

    /// Gives the framebuffer back to the driver.
    pub fn delete(self, gl: &mut Gl)
        ensures
            final(gl)@ == old(gl)@.push(GlCall::DeleteFramebuffers { framebuffer: self.id }),
    {
        gl.push(GlCall::DeleteFramebuffers { framebuffer: self.id });
    }
}

/// The layout of a vertex of a position, a texture coordinate and a colour:
/// attributes 0, 1 and 2 with three, two and four scalars, one after the
/// other in a vertex of 36 bytes.
pub open spec fn vertex2d_layout() -> Seq<VertexAttribute> {
    seq![
        VertexAttribute {
            buffer_index: 0,
            elem_count: 3,
            dtype: DataType::Float,
            stride: VERTEX2D_SIZE,
            offset: 0,
            is_instanced: false,
        },
        VertexAttribute {
            buffer_index: 1,
            elem_count: 2,
            dtype: DataType::Float,
            stride: VERTEX2D_SIZE,
            offset: TEXT_COORD_OFFSET,
            is_instanced: false,
        },
        VertexAttribute {
            buffer_index: 2,
            elem_count: 4,
            dtype: DataType::Float,
            stride: VERTEX2D_SIZE,
            offset: COLOR_OFFSET,
            is_instanced: false,
        },
    ]
}

/// The attributes of the vertex layout follow one another without gaps:
/// the first starts the vertex, each next one starts four bytes after every
/// scalar of the one before, and the last one ends the vertex.
pub proof fn lemma_layout_packed()
    ensures
        vertex2d_layout()[0].offset == 0,
        forall|k: int|
            0 <= k < 2 ==> #[trigger] vertex2d_layout()[k + 1].offset == vertex2d_layout()[k].offset
                + 4 * vertex2d_layout()[k].elem_count,
        vertex2d_layout()[2].offset + 4 * vertex2d_layout()[2].elem_count == VERTEX2D_SIZE,
        forall|k: int| 0 <= k < 3 ==> (#[trigger] vertex2d_layout()[k]).stride == VERTEX2D_SIZE,
{
}

/// The layout describes the memory that `vertex_words` lays out: in the
/// words of `verts`, the attributes of vertex `i` are found a stride apart
/// from those of the vertex before, each at its offset, and they are its
/// position, its texture coordinate and its colour.
pub proof fn lemma_layout_finds_attributes(verts: Seq<Vertex2D>, i: int)
    requires
        0 <= i < verts.len(),
    ensures
        ({
            let words = vertex_words(verts);
            let at = |k: int, c: int|
                words[(i * VERTEX2D_SIZE + vertex2d_layout()[k].offset) / 4 + c];
            &&& at(0, 0) == verts[i].position.x.bits
            &&& at(0, 1) == verts[i].position.y.bits
            &&& at(0, 2) == verts[i].position.z.bits
            &&& at(1, 0) == verts[i].text_coord.u.bits
            &&& at(1, 1) == verts[i].text_coord.v.bits
            &&& at(2, 0) == verts[i].color.r.bits
            &&& at(2, 1) == verts[i].color.g.bits
            &&& at(2, 2) == verts[i].color.b.bits
            &&& at(2, 3) == verts[i].color.a.bits
        }),
{
    let words = vertex_words(verts);
    assert forall|c: int| 0 <= c < 9 implies #[trigger] words[9 * i + c] == verts[i].words()[c] by {
        assert((9 * i + c) / 9 == i && (9 * i + c) % 9 == c);
    }
    assert((i * 36 + 0) / 4 == 9 * i);
    assert((i * 36 + 12) / 4 == 9 * i + 3);
    assert((i * 36 + 20) / 4 == 9 * i + 5);
    assert(words[9 * i + 0] == verts[i].words()[0]);
    assert(words[9 * i + 1] == verts[i].words()[1]);
    assert(words[9 * i + 2] == verts[i].words()[2]);
    assert(words[9 * i + 3] == verts[i].words()[3]);
    assert(words[9 * i + 4] == verts[i].words()[4]);
    assert(words[9 * i + 5] == verts[i].words()[5]);
    assert(words[9 * i + 6] == verts[i].words()[6]);
    assert(words[9 * i + 7] == verts[i].words()[7]);
    assert(words[9 * i + 8] == verts[i].words()[8]);
}

/// A buffer of vertices on the device, with what is needed to draw from it.
pub struct VertexBuffer {
    /// The driver's name for the buffer.
    pub id: u32,
    /// The number of bytes allocated for the buffer.
    pub size_bytes: usize,
    /// The number of vertices in the buffer.
    pub vert_count: u32,
    pub draw_prim: DrawPrimitive,
    pub layout: Vec<VertexAttribute>,
}

impl VertexBuffer {
    /// Allocates room for `count` values of `type_size` bytes each in the
    /// fresh buffer `id`, and leaves the contents undefined.
    pub fn zeroed(
        gl: &mut Gl,
        id: u32,
        type_size: u32,
        count: u32,
        usage: DrawUsage,
        draw_prim: DrawPrimitive,
    ) -> (vb: Self)
        requires
            type_size * count <= u32::MAX,
            type_size * count <= isize::MAX,
        ensures
            vb.id == id,
            vb.size_bytes == type_size * count,
            vb.vert_count == count,
            vb.draw_prim == draw_prim,
            vb.layout@ == vertex2d_layout(),
            final(gl)@ == old(gl)@ + seq![
                GlCall::<BlobView>::BindBuffer { target: gl::ARRAY_BUFFER, buffer: id },
                GlCall::<BlobView>::BufferData {
                    target: gl::ARRAY_BUFFER,
                    size: (type_size * count) as isize,
                    data: None,
                    usage: usage.spec_code(),
                },
            ],
    {
        assert(type_size * count <= u32::MAX);
        let size: u32 = type_size * count;
        let size_bytes: isize = size as isize;
        gl_bind_array_buffer(gl, id);
        gl.push(
            GlCall::BufferData {
                target: gl::ARRAY_BUFFER,
                size: size_bytes,
                data: None,
                usage: usage.code(),
            },
        );
        assert(gl@ =~= old(gl)@ + seq![
            GlCall::<BlobView>::BindBuffer { target: gl::ARRAY_BUFFER, buffer: id },
            GlCall::<BlobView>::BufferData {
                target: gl::ARRAY_BUFFER,
                size: (type_size * count) as isize,
                data: None,
                usage: usage.spec_code(),
            },
        ]);
        VertexBuffer {
            id,
            size_bytes: size_bytes as usize,
            vert_count: count,
            draw_prim,
            layout: Self::vertex2d_attributes(),
        }
    }

    /// The layout of a vertex of a position, a texture coordinate and a
    /// colour.
    pub fn vertex2d_attributes() -> (attr: Vec<VertexAttribute>)
        ensures
            attr@ == vertex2d_layout(),
    {
        let vert_size: usize = VERTEX2D_SIZE;
        let mut attr: Vec<VertexAttribute> = Vec::new();
        attr.push(
            VertexAttribute {
                buffer_index: 0,
                elem_count: 3,
                dtype: DataType::Float,
                stride: vert_size,
                offset: 0,
                is_instanced: false,
            },
        );
        attr.push(
            VertexAttribute {
                buffer_index: 1,
                elem_count: 2,
                dtype: DataType::Float,
                stride: vert_size,
                offset: TEXT_COORD_OFFSET,
                is_instanced: false,
            },
        );
        attr.push(
            VertexAttribute {
                buffer_index: 2,
                elem_count: 4,
                dtype: DataType::Float,
                stride: vert_size,
                offset: COLOR_OFFSET,
                is_instanced: false,
            },
        );
        assert(attr@ =~= vertex2d_layout());
        attr
    }

    /// The upload of the memory `verts` into the buffer named `id`: bind
    /// it, then hand over all of `verts`.
    pub open spec fn upload_calls(id: u32, verts: BlobView, usage: DrawUsage) -> Seq<
        GlCall<BlobView>,
    > {
        seq![
            GlCall::BindBuffer { target: gl::ARRAY_BUFFER, buffer: id },
            GlCall::BufferData {
                target: gl::ARRAY_BUFFER,
                size: verts.size() as isize,
                data: Some(verts),
                usage: usage.spec_code(),
            },
        ]
    }

    /// Fills the fresh buffer `id` with the `vert_count` vertices that
    /// `verts` holds, to be drawn as triangles. The count is kept in 32
    /// bits.
    pub fn new(gl: &mut Gl, id: u32, verts: Blob, vert_count: usize, usage: DrawUsage) -> (vb: Self)
        requires
            verts@.size() <= isize::MAX,
        ensures
            vb.id == id,
            vb.size_bytes == verts@.size(),
            vb.vert_count == vert_count as u32,
            vb.draw_prim == DrawPrimitive::Triangles,
            vb.layout@ == vertex2d_layout(),
            final(gl)@ == old(gl)@ + Self::upload_calls(id, verts@, usage),
    {
        VertexBuffer::new_with_prim(gl, id, verts, vert_count, usage, DrawPrimitive::Triangles)
    }

    /// Fills the fresh buffer `id` with the `vert_count` vertices that
    /// `verts` holds.
    pub fn new_with_prim(
        gl: &mut Gl,
        id: u32,
        verts: Blob,
        vert_count: usize,
        usage: DrawUsage,
        draw_prim: DrawPrimitive,
    ) -> (vb: Self)
        requires
            verts@.size() <= isize::MAX,
        ensures
            vb.id == id,
            vb.size_bytes == verts@.size(),
            vb.vert_count == vert_count as u32,
            vb.draw_prim == draw_prim,
            vb.layout@ == vertex2d_layout(),
            final(gl)@ == old(gl)@ + Self::upload_calls(id, verts@, usage),
    {
        let size_bytes = verts.size_bytes();
        let mut vb = VertexBuffer {
            id,
            size_bytes,
            draw_prim,
            vert_count: #[verifier::truncate] (vert_count as u32),
            layout: Self::vertex2d_attributes(),
        };
        vb.allocate(gl, verts, vert_count, usage);
        vb
    }

    /// Fills the fresh buffer `id` with `verts`, laid out as the vertex
    /// layout says. The count and the size are those of `verts`.
    pub fn from_vertices(
        gl: &mut Gl,
        id: u32,
        verts: &[Vertex2D],
        usage: DrawUsage,
        draw_prim: DrawPrimitive,
    ) -> (vb: Self)
        requires
            VERTEX2D_SIZE * verts@.len() <= isize::MAX,
        ensures
            vb.id == id,
            vb.size_bytes == VERTEX2D_SIZE * verts@.len(),
            vb.vert_count == verts@.len() as u32,
            vb.draw_prim == draw_prim,
            vb.layout@ == vertex2d_layout(),
            final(gl)@ == old(gl)@ + Self::upload_calls(
                id,
                BlobView::Words(vertex_words(verts@)),
                usage,
            ),
    {
        let words = Blob::Words(vertex_data(verts));
        VertexBuffer::new_with_prim(gl, id, words, verts.len(), usage, draw_prim)
    }

    /// Replaces the storage of the buffer with `verts`, laid out as the
    /// vertex layout says. The count and the size are those of `verts`.
    pub fn allocate_vertices(&mut self, gl: &mut Gl, verts: &[Vertex2D], usage: DrawUsage)
        requires
            VERTEX2D_SIZE * verts@.len() <= isize::MAX,
        ensures
            final(self).id == old(self).id,
            final(self).size_bytes == VERTEX2D_SIZE * verts@.len(),
            final(self).vert_count == verts@.len() as u32,
            final(self).draw_prim == old(self).draw_prim,
            final(self).layout == old(self).layout,
            final(gl)@ == old(gl)@ + Self::upload_calls(
                old(self).id,
                BlobView::Words(vertex_words(verts@)),
                usage,
            ),
    {
        let words = Blob::Words(vertex_data(verts));
        self.allocate(gl, words, verts.len(), usage);
    }

    /// Replaces the storage of the buffer with the `vert_count` vertices
    /// that `verts` holds.
    pub fn allocate(&mut self, gl: &mut Gl, verts: Blob, vert_count: usize, usage: DrawUsage)
        requires
            verts@.size() <= isize::MAX,
        ensures
            final(self).id == old(self).id,
            final(self).size_bytes == verts@.size(),
            final(self).vert_count == vert_count as u32,
            final(self).draw_prim == old(self).draw_prim,
            final(self).layout == old(self).layout,
            final(gl)@ == old(gl)@ + Self::upload_calls(old(self).id, verts@, usage),
    {
        self.apply(gl);
        self.size_bytes = verts.size_bytes();
        self.vert_count = #[verifier::truncate] (vert_count as u32);
        let ghost data = verts@;
        gl.push(
            GlCall::BufferData {
                target: gl::ARRAY_BUFFER,
                size: self.size_bytes as isize,
                data: Some(verts),
                usage: usage.code(),
            },
        );
        assert(gl@ =~= old(gl)@ + Self::upload_calls(old(self).id, data, usage));
    }

    /// Overwrites the bytes of the buffer from `offset` on with all of
    /// `verts`.
    pub fn write(&self, gl: &mut Gl, verts: Blob, offset: isize)
        requires
            verts@.size() <= isize::MAX,
        ensures
            final(gl)@ == old(gl)@ + seq![
                GlCall::<BlobView>::BindBuffer { target: gl::ARRAY_BUFFER, buffer: self.id },
                GlCall::<BlobView>::BufferSubData {
                    target: gl::ARRAY_BUFFER,
                    offset,
                    size: verts@.size() as isize,
                    data: verts@,
                },
            ],
    {
        self.apply(gl);
        let size = verts.size_bytes();
        let ghost data = verts@;
        gl.push(
            GlCall::BufferSubData {
                target: gl::ARRAY_BUFFER,
                offset,
                size: size as isize,
                data: verts,
            },
        );
        assert(gl@ =~= old(gl)@ + seq![
            GlCall::<BlobView>::BindBuffer { target: gl::ARRAY_BUFFER, buffer: self.id },
            GlCall::<BlobView>::BufferSubData {
                target: gl::ARRAY_BUFFER,
                offset,
                size: data.size() as isize,
                data,
            },
        ]);
    }

    /// Copies `size` bytes of `other`, from `read_offset` on, into this
    /// buffer from `write_offset` on.
    pub fn copy_data(
        &self,
        gl: &mut Gl,
        other: &VertexBuffer,
        read_offset: isize,
        write_offset: isize,
        size: isize,
    )
        ensures
            final(gl)@ == old(gl)@ + seq![
                GlCall::<BlobView>::BindBuffer { target: gl::COPY_READ_BUFFER, buffer: other.id },
                GlCall::<BlobView>::BindBuffer { target: gl::COPY_WRITE_BUFFER, buffer: self.id },
                GlCall::<BlobView>::CopyBufferSubData {
                    read_target: gl::COPY_READ_BUFFER,
                    write_target: gl::COPY_WRITE_BUFFER,
                    read_offset,
                    write_offset,
                    size,
                },
            ],
    {
        gl.push(GlCall::BindBuffer { target: gl::COPY_READ_BUFFER, buffer: other.id });
        gl.push(GlCall::BindBuffer { target: gl::COPY_WRITE_BUFFER, buffer: self.id });
        gl.push(
            GlCall::CopyBufferSubData {
                read_target: gl::COPY_READ_BUFFER,
                write_target: gl::COPY_WRITE_BUFFER,
                read_offset,
                write_offset,
                size,
            },
        );
        assert(gl@ =~= old(gl)@ + seq![
            GlCall::<BlobView>::BindBuffer { target: gl::COPY_READ_BUFFER, buffer: other.id },
            GlCall::<BlobView>::BindBuffer { target: gl::COPY_WRITE_BUFFER, buffer: self.id },
            GlCall::<BlobView>::CopyBufferSubData {
                read_target: gl::COPY_READ_BUFFER,
                write_target: gl::COPY_WRITE_BUFFER,
                read_offset,
                write_offset,
                size,
            },
        ]);
    }

    pub fn vert_count(&self) -> (n: u32)
        ensures
            n == self.vert_count,
    {
        self.vert_count
    }

    /// Makes the buffer the current array buffer.
    pub fn apply(&self, gl: &mut Gl)
        ensures
            final(gl)@ == old(gl)@.push(
                GlCall::BindBuffer { target: gl::ARRAY_BUFFER, buffer: self.id },
            ),
    {
        gl_bind_array_buffer(gl, self.id)
    }

    /// Leaves no array buffer current.
    pub fn unbind(&self, gl: &mut Gl)
        ensures
            final(gl)@ == old(gl)@.push(GlCall::BindBuffer { target: gl::ARRAY_BUFFER, buffer: 0 }),
    {
        gl_bind_array_buffer(gl, 0);
    }

    /// Gives the buffer back to the driver.
    pub fn delete(self, gl: &mut Gl)
        ensures
            final(gl)@ == old(gl)@.push(GlCall::DeleteBuffers { buffer: self.id }),
    {
        gl_delete_buffer(gl, self.id)
    }
}

/// The three calls that describe one attribute to the driver: where it
/// lies, that it is in use, and whether it advances per instance.
pub open spec fn attribute_calls(attrib: VertexAttribute) -> Seq<GlCall<BlobView>> {
    seq![
        GlCall::VertexAttribPointer {
            index: attrib.buffer_index,
            size: attrib.elem_count as i32,
            ty: attrib.dtype.spec_code(),
            normalized: false,
            stride: attrib.stride as i32,
            offset: attrib.offset,
        },
        GlCall::EnableVertexAttribArray { index: attrib.buffer_index },
        GlCall::VertexAttribDivisor {
            index: attrib.buffer_index,
            divisor: if attrib.is_instanced {
                1
            } else {
                0
            },
        },
    ]
}

/// The calls that describe every attribute of `layout`, in order.
pub open spec fn layout_calls(layout: Seq<VertexAttribute>) -> Seq<GlCall<BlobView>> {
    Seq::new(3 * layout.len(), |i: int| attribute_calls(layout[i / 3])[i % 3])
}

/// Describes every attribute of `layout` to the driver, in order.
pub fn describe_layout(gl: &mut Gl, layout: &[VertexAttribute])
    ensures
        final(gl)@ == old(gl)@ + layout_calls(layout@),
{
    let mut i: usize = 0;
    while i < layout.len()
        invariant
            i <= layout@.len(),
            gl@ == old(gl)@ + layout_calls(layout@.take(i as int)),
        decreases layout@.len() - i,
    {
        let attrib = layout[i];
        let ghost before = gl@;
        gl.push(
            GlCall::VertexAttribPointer {
                index: attrib.buffer_index,
                size: #[verifier::truncate] (attrib.elem_count as i32),
                ty: attrib.dtype.code(),
                normalized: false,
                stride: #[verifier::truncate] (attrib.stride as i32),
                offset: attrib.offset,
            },
        );
        gl.push(GlCall::EnableVertexAttribArray { index: attrib.buffer_index });
        gl.push(
            GlCall::VertexAttribDivisor {
                index: attrib.buffer_index,
                divisor: if attrib.is_instanced {
                    1
                } else {
                    0
                },
            },
        );
        proof {
            let shorter = layout@.take(i as int);
            let longer = layout@.take(i + 1);
            assert(gl@ =~= before + attribute_calls(attrib));
            assert forall|j: int| 0 <= j < 3 * (i + 1) implies #[trigger] layout_calls(longer)[j]
                == (layout_calls(shorter) + attribute_calls(attrib))[j] by {
                if j >= 3 * i {
                    assert(j / 3 == i && j % 3 == j - 3 * i);
                } else {
                    assert(longer[j / 3] == shorter[j / 3]);
                }
            }
            assert(layout_calls(longer) =~= layout_calls(shorter) + attribute_calls(attrib));
        }
        i = i + 1;
    }
    assert(layout@.take(layout@.len() as int) =~= layout@);
}

/// A vertex array object: the driver's record of how vertices are read.
pub struct VAO {
    /// The driver's name for the vertex array.
    pub id: u32,
}

impl VAO {
    /// Wraps the fresh vertex array `id`.
    pub fn new(id: u32) -> (vao: Self)
        ensures
            vao.id == id,
    {
        VAO { id }
    }

    /// The calls that record the layout of `buffer` in the vertex array:
    /// bind both, describe every attribute, unbind both.
    pub open spec fn set_buffer_layout_calls(self, buffer: VertexBuffer) -> Seq<GlCall<BlobView>> {
        seq![
            GlCall::BindVertexArray { array: self.id },
            GlCall::BindBuffer { target: gl::ARRAY_BUFFER, buffer: buffer.id },
        ] + layout_calls(buffer.layout@) + seq![
            GlCall::BindBuffer { target: gl::ARRAY_BUFFER, buffer: 0 },
            GlCall::BindVertexArray { array: 0 },
        ]
    }

    /// Records the layout of `buffer` in the vertex array.
    pub fn set_buffer_layout(&self, gl: &mut Gl, buffer: &VertexBuffer)
        ensures
            final(gl)@ == old(gl)@ + self.set_buffer_layout_calls(*buffer),
    {
        self.apply(gl);
        buffer.apply(gl);
        describe_layout(gl, buffer.layout.as_slice());
        buffer.unbind(gl);
        self.unbind(gl);
        assert(gl@ =~= old(gl)@ + self.set_buffer_layout_calls(*buffer));
    }

    /// Makes the vertex array current.
    pub fn apply(&self, gl: &mut Gl)
        ensures
            final(gl)@ == old(gl)@.push(GlCall::BindVertexArray { array: self.id }),
    {
        gl_bind_vertex_array(gl, self.id);
    }

    /// Leaves no vertex array current.
    pub fn unbind(&self, gl: &mut Gl)
        ensures
            final(gl)@ == old(gl)@.push(GlCall::BindVertexArray { array: 0 }),
    {
        gl_bind_vertex_array(gl, 0);
    }

    /// Gives the vertex array back to the driver.
    pub fn delete(self, gl: &mut Gl)
        ensures
            final(gl)@ == old(gl)@.push(GlCall::DeleteVertexArrays { array: self.id }),
    {
        gl.push(GlCall::DeleteVertexArrays { array: self.id });
    }
}

/// Binds `buffer`; the attributes are not described to the driver.
pub fn set_vertex_layout(gl: &mut Gl, buffer: &VertexBuffer, attribs: &[VertexAttribute])
    ensures
        final(gl)@ == old(gl)@.push(
            GlCall::BindBuffer { target: gl::ARRAY_BUFFER, buffer: buffer.id },
        ),
{
    buffer.apply(gl);
}

} // verus!
