//! A small rendering layer over OpenGL: buffers, textures, shaders,
//! transforms and a renderer for meshes and quads.
//!
//! The library never talks to the driver itself. Every operation appends the
//! calls it decides on to a [`opengl::gl::Gl`] recording, and what the driver
//! has to be asked first (the name of a fresh object, a status, a location)
//! comes in as an argument. Whoever owns the context takes the calls out of
//! the recording and makes them in order. Each contract states the calls that
//! an operation records, so what reaches the driver is known exactly.
//!
//! Numbers with a fraction are carried as [`math::Scalar`], by their bit
//! pattern: the library places them and hands them on, it does not compute
//! with them.

use crate::buffers::{
    vertex2d_layout, DrawPrimitive, DrawUsage, ElementBuffer, FrameBuffer, VertexBuffer, VAO,
};
use crate::graphics::{Mesh, RenderTexture, Shader, Texture};
use crate::math::{Matrix, Scalar};
use crate::opengl::gl::{self, Blob, BlobView, Gl, GlCall};
use crate::opengl::{gl_draw_arrays, gl_draw_elements};
use crate::sys::{unit_quad, Quad, Transform};
use crate::vertex::{vertex_data, vertex_words};
use vstd::prelude::*;

pub mod buffers;
pub mod graphics;
pub mod math;
pub mod opengl;
pub mod picture;
pub mod sys;
pub mod vertex;

verus! {

/// Something that knows how to draw itself with a renderer.
pub trait Renderable {
    /// Whether `after` is what drawing with `renderer` makes of the
    /// recording `before`. An implementation that says what it draws
    /// overrides this; one that does not leaves every outcome open.
    open spec fn draws(
        &self,
        renderer: &Renderer,
        before: Seq<GlCall<BlobView>>,
        after: Seq<GlCall<BlobView>>,
    ) -> bool {
        true
    }

    /// Records the calls that draw this with `renderer`.
    fn draw(&self, gl: &mut Gl, renderer: &Renderer)
        ensures
            self.draws(renderer, old(gl)@, final(gl)@),
    ;
}

/// The number of bytes in a matrix.
pub const MATRIX_SIZE: u32 = 64;

/// The objects that drawing goes through, and the projection in use.
pub struct Renderer {
    pub draw_vao: VAO,
    pub quad_buffer: VertexBuffer,
    pub instanced_mat_buffer: VertexBuffer,
    pub shader: Shader,
    pub instanced_shader: Shader,
    pub default_texture: Texture,
    pub projection: Matrix,
}

impl Renderer {
    /// The name of the projection matrix in the default shaders.
    pub const U_PROJECTION: &'static str = "u_projection";

    /// The name of the view matrix in the default shaders.
    pub const U_VIEW: &'static str = "u_view";

    /// The name of the model matrix in the default shaders.
    pub const U_MODEL: &'static str = "u_model";

    /// The calls that ready the context for a window of `width` by
    /// `height` pixels: draw into all of it, test depth, and blend by the
    /// alpha of what is drawn.
    pub open spec fn prepare_calls(width: u32, height: u32) -> Seq<GlCall<BlobView>> {
        seq![
            GlCall::Viewport { x: 0, y: 0, width: width as i32, height: height as i32 },
            GlCall::Enable { cap: gl::DEPTH_TEST },
            GlCall::Enable { cap: gl::BLEND },
            GlCall::BlendFunc { sfactor: gl::SRC_ALPHA, dfactor: gl::ONE_MINUS_SRC_ALPHA },
        ]
    }

    /// Readies the context for a window of `width` by `height` pixels.
    pub fn prepare(gl: &mut Gl, width: u32, height: u32)
        ensures
            final(gl)@ == old(gl)@ + Self::prepare_calls(width, height),
    {
        gl.push(
            GlCall::Viewport {
                x: 0,
                y: 0,
                width: #[verifier::truncate] (width as i32),
                height: #[verifier::truncate] (height as i32),
            },
        );
        gl.push(GlCall::Enable { cap: gl::DEPTH_TEST });
        gl.push(GlCall::Enable { cap: gl::BLEND });
        gl.push(GlCall::BlendFunc { sfactor: gl::SRC_ALPHA, dfactor: gl::ONE_MINUS_SRC_ALPHA });
        assert(gl@ =~= old(gl)@ + Self::prepare_calls(width, height));
    }

    /// The calls that create what a renderer draws with: a white texture
    /// of one texel, a buffer with the unit quad, and room for two
    /// matrices.
    pub open spec fn create_calls(texture: u32, quad_buffer: u32, mat_buffer: u32) -> Seq<
        GlCall<BlobView>,
    > {
        Texture::create_calls(texture, seq![255u8, 255u8, 255u8, 255u8], 1, 1)
            + VertexBuffer::upload_calls(
            quad_buffer,
            BlobView::Words(vertex_words(unit_quad())),
            DrawUsage::Dynamic,
        ) + seq![
            GlCall::BindBuffer { target: gl::ARRAY_BUFFER, buffer: mat_buffer },
            GlCall::BufferData {
                target: gl::ARRAY_BUFFER,
                size: 128,
                data: None,
                usage: DrawUsage::Dynamic.spec_code(),
            },
        ]
    }

    /// A renderer with the two programs, which have been built, the given
    /// projection, and what it creates in the fresh objects named: the
    /// default texture, the quad buffer, the buffer for matrices and the
    /// vertex array.
    pub fn new(
        gl: &mut Gl,
        shader: Shader,
        instanced_shader: Shader,
        texture: u32,
        quad_buffer: u32,
        mat_buffer: u32,
        vao: u32,
        projection: Matrix,
    ) -> (r: Self)
        ensures
            r.shader == shader,
            r.instanced_shader == instanced_shader,
            r.projection == projection,
            r.draw_vao.id == vao,
            r.default_texture.id == texture,
            r.default_texture.unit == gl::TEXTURE0,
            r.quad_buffer.id == quad_buffer,
            r.default_texture.size.x == 1,
            r.default_texture.size.y == 1,
            r.quad_buffer.size_bytes == 144,
            r.quad_buffer.vert_count == 4,
            r.quad_buffer.draw_prim == DrawPrimitive::Triangles,
            r.quad_buffer.layout@ == vertex2d_layout(),
            r.instanced_mat_buffer.id == mat_buffer,
            r.instanced_mat_buffer.size_bytes == 128,
            r.instanced_mat_buffer.vert_count == 2,
            r.instanced_mat_buffer.draw_prim == DrawPrimitive::Triangles,
            r.instanced_mat_buffer.layout@ == vertex2d_layout(),
            final(gl)@ == old(gl)@ + Self::create_calls(texture, quad_buffer, mat_buffer),
    {
        let default_texture = Texture::new_blank(gl, texture);
        let verts = Quad::default_verts();
        let quad_buffer = VertexBuffer::from_vertices(
            gl,
            quad_buffer,
            verts.as_slice(),
            DrawUsage::Dynamic,
            DrawPrimitive::Triangles,
        );
        let instanced_mat_buffer = VertexBuffer::zeroed(
            gl,
            mat_buffer,
            MATRIX_SIZE,
            2,
            DrawUsage::Dynamic,
            DrawPrimitive::Triangles,
        );
        let draw_vao = VAO::new(vao);
        assert(gl@ =~= old(gl)@ + Self::create_calls(
            texture,
            quad_buffer.id,
            instanced_mat_buffer.id,
        ));
        Renderer {
            draw_vao,
            quad_buffer,
            instanced_mat_buffer,
            shader,
            instanced_shader,
            default_texture,
            projection,
        }
    }

    /// Makes the framebuffer of `rt` the target of what is drawn.
    pub fn begin_draw_texture(gl: &mut Gl, rt: &RenderTexture)
        ensures
            final(gl)@ == old(gl)@.push(
                GlCall::BindFramebuffer {
                    target: gl::FRAMEBUFFER,
                    framebuffer: rt.frame_buffer.id,
                },
            ),
    {
        FrameBuffer::apply(&rt.frame_buffer, gl);
    }

    /// Makes the window the target again.
    pub fn end_draw_texture(gl: &mut Gl)
        ensures
            final(gl)@ == old(gl)@.push(
                GlCall::BindFramebuffer { target: gl::FRAMEBUFFER, framebuffer: 0 },
            ),
    {
        FrameBuffer::unbind(gl);
    }

    /// Has `renderable` draw itself with this renderer: the recording
    /// becomes what `renderable` makes of it when it is handed this
    /// renderer.
    pub fn draw<T: Renderable>(&self, gl: &mut Gl, renderable: &T)
        ensures
            renderable.draws(self, old(gl)@, final(gl)@),
    {
        renderable.draw(gl, self);
    }

    /// The texture that is drawn with: the one given, or the white texel.
    pub open spec fn texture_or_default(self, texture: Option<&Texture>) -> Texture {
        match texture {
            Some(t) => *t,
            None => self.default_texture,
        }
    }

    /// Whether the default program knows where its three matrices go.
    pub open spec fn knows_matrices(self) -> bool {
        &&& self.shader.uniform_locations@.contains_key(Self::U_PROJECTION@)
        &&& self.shader.uniform_locations@.contains_key(Self::U_VIEW@)
        &&& self.shader.uniform_locations@.contains_key(Self::U_MODEL@)
    }

    /// The calls that hand the default program its three matrices.
    pub open spec fn matrices_calls(self, projection: Matrix, view: Matrix, model: Matrix) -> Seq<
        GlCall<BlobView>,
    > {
        let locations = self.shader.uniform_locations@;
        self.shader.set_matrix_calls(locations[Self::U_PROJECTION@], projection, false)
            + self.shader.set_matrix_calls(locations[Self::U_VIEW@], view, false)
            + self.shader.set_matrix_calls(locations[Self::U_MODEL@], model, false)
    }

    fn set_matrices(&self, gl: &mut Gl, projection: &Matrix, view: &Matrix, model: &Matrix)
        requires
            self.knows_matrices(),
        ensures
            final(gl)@ == old(gl)@ + self.matrices_calls(*projection, *view, *model),
    {
        self.shader.set_uniform_matrix(gl, Self::U_PROJECTION, projection);
        self.shader.set_uniform_matrix(gl, Self::U_VIEW, view);
        self.shader.set_uniform_matrix(gl, Self::U_MODEL, model);
        assert(gl@ =~= old(gl)@ + self.matrices_calls(*projection, *view, *model));
    }

    /// The calls that draw `vert_count` vertices from vertex `start` on.
    pub open spec fn draw_arrays_calls(
        self,
        start: u32,
        vert_count: u32,
        prim: DrawPrimitive,
    ) -> Seq<GlCall<BlobView>> {
        seq![
            GlCall::BindVertexArray { array: self.draw_vao.id },
            GlCall::DrawArrays {
                mode: prim.spec_code(),
                first: start as i32,
                count: vert_count as i32,
            },
        ]
    }

    /// The calls that draw with all the indices of `ebo`.
    pub open spec fn draw_elements_calls(self, ebo: ElementBuffer, prim: DrawPrimitive) -> Seq<
        GlCall<BlobView>,
    > {
        seq![
            GlCall::BindVertexArray { array: self.draw_vao.id },
            GlCall::BindBuffer { target: gl::ELEMENT_ARRAY_BUFFER, buffer: ebo.id },
            GlCall::DrawElements {
                mode: prim.spec_code(),
                count: ebo.count as i32,
                ty: gl::UNSIGNED_INT,
                offset: 0,
            },
            GlCall::BindBuffer { target: gl::ELEMENT_ARRAY_BUFFER, buffer: 0 },
        ]
    }

    /// The calls that draw `mesh` as seen through `view`: with its own
    /// program, or with the default program and the three matrices; with
    /// its own texture, or with the white texel; by its indices, or all
    /// its vertices in order.
    pub open spec fn draw_mesh_calls(self, mesh: Mesh, view: Matrix) -> Seq<GlCall<BlobView>> {
        (match mesh.shader {
            Some(s) => seq![GlCall::UseProgram { program: s.id }],
            None => self.matrices_calls(self.projection, view, mesh.transform.0).push(
                GlCall::UseProgram { program: self.shader.id },
            ),
        }) + self.draw_vao.set_buffer_layout_calls(mesh.buffer) + (match mesh.texture {
            Some(t) => t,
            None => self.default_texture,
        }).apply_calls() + (match mesh.indices {
            Some(e) => self.draw_elements_calls(e, mesh.buffer.draw_prim),
            None => self.draw_arrays_calls(0, mesh.buffer.vert_count, mesh.buffer.draw_prim),
        })
    }

    /// Draws `mesh` as seen through `view`.
    pub fn draw_mesh(&self, gl: &mut Gl, mesh: &Mesh, view: &Matrix)
        requires
            mesh.shader is None ==> self.knows_matrices(),
        ensures
            final(gl)@ == old(gl)@ + self.draw_mesh_calls(*mesh, *view),
    {
        let shader = match mesh.shader.as_ref() {
            Some(s) => s,
            None => {
                self.set_matrices(gl, &self.projection, view, mesh.transform.model());
                &self.shader
            },
        };
        shader.apply(gl);
        self.draw_vao.set_buffer_layout(gl, &mesh.buffer);
        let texture = match mesh.texture.as_ref() {
            Some(t) => t,
            None => &self.default_texture,
        };
        texture.apply(gl);
        if let Some(e) = mesh.indices.as_ref() {
            self.draw_elements(gl, e, mesh.buffer.draw_prim);
        } else {
            self.draw_arrays(gl, 0, mesh.buffer.vert_count(), mesh.buffer.draw_prim);
        }
        assert(gl@ =~= old(gl)@ + self.draw_mesh_calls(*mesh, *view));
    }

    /// The calls that draw the quad `q` with `texture`: bind the texture,
    /// record the layout of the quad buffer, overwrite the buffer with the
    /// four vertices, and draw them as a triangle strip.
    pub open spec fn draw_quad_calls(self, q: Quad, texture: Texture) -> Seq<GlCall<BlobView>> {
        texture.apply_calls() + self.draw_vao.set_buffer_layout_calls(
            self.quad_buffer,
        ) + seq![
            GlCall::BindBuffer { target: gl::ARRAY_BUFFER, buffer: self.quad_buffer.id },
            GlCall::BufferSubData {
                target: gl::ARRAY_BUFFER,
                offset: 0,
                size: 144,
                data: BlobView::Words(vertex_words(q.verts@)),
            },
        ] + self.draw_arrays_calls(0, self.quad_buffer.vert_count, DrawPrimitive::TriangleStrip)
    }

    /// Draws the quad `q` with `texture`, or with the white texel.
    pub fn draw_quad(&self, gl: &mut Gl, q: &Quad, texture: Option<&Texture>)
        ensures
            final(gl)@ == old(gl)@ + self.draw_quad_calls(*q, self.texture_or_default(texture)),
    {
        let texture = match texture {
            Some(t) => t,
            None => &self.default_texture,
        };
        texture.apply(gl);
        self.draw_vao.set_buffer_layout(gl, &self.quad_buffer);
        self.quad_buffer.write(gl, Blob::Words(vertex_data(q.verts.as_slice())), 0);
        self.draw_arrays(gl, 0, self.quad_buffer.vert_count(), DrawPrimitive::TriangleStrip);
        assert(gl@ =~= old(gl)@ + self.draw_quad_calls(*q, *texture));
    }

    /// The calls that draw the vertices of `buffer` from `first_vertex`
    /// on with `texture`.
    pub open spec fn draw_buffer_calls(
        self,
        buffer: VertexBuffer,
        first_vertex: u32,
        texture: Texture,
    ) -> Seq<GlCall<BlobView>> {
        texture.apply_calls() + self.draw_vao.set_buffer_layout_calls(buffer)
            + self.draw_arrays_calls(first_vertex, buffer.vert_count, buffer.draw_prim)
    }

    /// Draws the vertices of `buffer` from `first_vertex` on with
    /// `texture`, or with the white texel.
    pub fn draw_buffer(
        &self,
        gl: &mut Gl,
        buffer: &VertexBuffer,
        first_vertex: u32,
        texture: Option<&Texture>,
    )
        ensures
            final(gl)@ == old(gl)@ + self.draw_buffer_calls(
                *buffer,
                first_vertex,
                self.texture_or_default(texture),
            ),
    {
        let texture = match texture {
            Some(t) => t,
            None => &self.default_texture,
        };
        texture.apply(gl);
        self.draw_vao.set_buffer_layout(gl, buffer);
        self.draw_arrays(gl, first_vertex, buffer.vert_count(), buffer.draw_prim);
        assert(gl@ =~= old(gl)@ + self.draw_buffer_calls(*buffer, first_vertex, *texture));
    }

    /// The calls that draw `buffer` by the indices of `ebo` with `texture`.
    pub open spec fn draw_indexed_buffer_calls(
        self,
        buffer: VertexBuffer,
        ebo: ElementBuffer,
        texture: Texture,
    ) -> Seq<GlCall<BlobView>> {
        texture.apply_calls() + self.draw_vao.set_buffer_layout_calls(buffer)
            + self.draw_elements_calls(ebo, buffer.draw_prim)
    }

    /// Draws `buffer` by the indices of `ebo` with `texture`, or with the
    /// white texel.
    pub fn draw_indexed_buffer(
        &self,
        gl: &mut Gl,
        buffer: &VertexBuffer,
        ebo: &ElementBuffer,
        texture: Option<&Texture>,
    )
        ensures
            final(gl)@ == old(gl)@ + self.draw_indexed_buffer_calls(
                *buffer,
                *ebo,
                self.texture_or_default(texture),
            ),
    {
        let texture = match texture {
            Some(t) => t,
            None => &self.default_texture,
        };
        texture.apply(gl);
        self.draw_vao.set_buffer_layout(gl, buffer);
        self.draw_elements(gl, ebo, buffer.draw_prim);
        assert(gl@ =~= old(gl)@ + self.draw_indexed_buffer_calls(*buffer, *ebo, *texture));
    }

    /// The calls that clear colour and depth to the colour given.
    pub open spec fn clear_calls(r: Scalar, g: Scalar, b: Scalar, a: Scalar) -> Seq<
        GlCall<BlobView>,
    > {
        seq![
            GlCall::ClearColor { red: r, green: g, blue: b, alpha: a },
            GlCall::Clear { mask: 0x4100 },
        ]
    }

    /// Clears colour and depth to opaque black.
    pub fn clear_black(&self, gl: &mut Gl)
        ensures
            final(gl)@ == old(gl)@ + Self::clear_calls(
                Scalar::spec_zero(),
                Scalar::spec_zero(),
                Scalar::spec_zero(),
                Scalar::spec_one(),
            ),
    {
        self.clear(gl, Scalar::zero(), Scalar::zero(), Scalar::zero(), Scalar::one());
    }

    /// The calls that ready the default program: with the projection, the
    /// view and the model of `xform`, or with three identities where there
    /// is no transform.
    pub open spec fn use_default_shader_calls(self, xform: Option<&Transform>, view: Matrix) -> Seq<
        GlCall<BlobView>,
    > {
        (match xform {
            Some(xform) => self.matrices_calls(self.projection, view, xform.0),
            None => self.matrices_calls(
                Matrix::spec_identity(),
                Matrix::spec_identity(),
                Matrix::spec_identity(),
            ),
        }).push(GlCall::UseProgram { program: self.shader.id })
    }

    /// Readies the default program for drawing with `xform` as seen
    /// through `view`, or for drawing untransformed.
    pub fn use_default_shader(&self, gl: &mut Gl, xform: Option<&Transform>, view: &Matrix)
        requires
            self.knows_matrices(),
        ensures
            final(gl)@ == old(gl)@ + self.use_default_shader_calls(xform, *view),
    {
        if let Some(xform) = xform {
            self.set_matrices(gl, &self.projection, view, xform.model());
        } else {
            let identity = Matrix::identity();
            self.set_matrices(gl, &identity, &identity, &identity);
        }
        self.shader.apply(gl);
        assert(gl@ =~= old(gl)@ + self.use_default_shader_calls(xform, *view));
    }

    /// Clears colour and depth to the colour given.
    pub fn clear(&self, gl: &mut Gl, r: Scalar, g: Scalar, b: Scalar, a: Scalar)
        ensures
            final(gl)@ == old(gl)@ + Self::clear_calls(r, g, b, a),
    {
        gl.push(GlCall::ClearColor { red: r, green: g, blue: b, alpha: a });
        assert(gl::COLOR_BUFFER_BIT | gl::DEPTH_BUFFER_BIT == 0x4100) by (bit_vector);
        gl.push(GlCall::Clear { mask: gl::COLOR_BUFFER_BIT | gl::DEPTH_BUFFER_BIT });
        assert(gl@ =~= old(gl)@ + Self::clear_calls(r, g, b, a));
    }

    pub fn projection(&self) -> (m: &Matrix)
        ensures
            *m == self.projection,
    {
        &self.projection
    }

    /// Makes the renderer's vertex array current.
    pub fn set_current(&self, gl: &mut Gl)
        ensures
            final(gl)@ == old(gl)@.push(GlCall::BindVertexArray { array: self.draw_vao.id }),
    {
        self.draw_vao.apply(gl);
    }

    /// The calls that give back what the renderer holds on the device:
    /// the vertex array, the two buffers, the two programs and the texture.
    pub open spec fn delete_calls(self) -> Seq<GlCall<BlobView>> {
        seq![
            GlCall::DeleteVertexArrays { array: self.draw_vao.id },
            GlCall::DeleteBuffers { buffer: self.quad_buffer.id },
            GlCall::DeleteBuffers { buffer: self.instanced_mat_buffer.id },
            GlCall::DeleteProgram { program: self.shader.id },
            GlCall::DeleteProgram { program: self.instanced_shader.id },
            GlCall::DeleteTextures { texture: self.default_texture.id },
        ]
    }

    /// Gives back what the renderer holds on the device.
    pub fn delete(self, gl: &mut Gl)
        ensures
            final(gl)@ == old(gl)@ + self.delete_calls(),
    {
        let ghost calls = self.delete_calls();
        self.draw_vao.delete(gl);
        self.quad_buffer.delete(gl);
        self.instanced_mat_buffer.delete(gl);
        self.shader.delete(gl);
        self.instanced_shader.delete(gl);
        self.default_texture.delete(gl);
        assert(gl@ =~= old(gl)@ + calls);
    }

    fn draw_arrays(&self, gl: &mut Gl, start: u32, vert_count: u32, prim: DrawPrimitive)
        ensures
            final(gl)@ == old(gl)@ + self.draw_arrays_calls(start, vert_count, prim),
    {
        self.draw_vao.apply(gl);
        gl_draw_arrays(gl, start, vert_count, prim);
        assert(gl@ =~= old(gl)@ + self.draw_arrays_calls(start, vert_count, prim));
    }

    fn draw_elements(&self, gl: &mut Gl, ebo: &ElementBuffer, prim: DrawPrimitive)
        ensures
            final(gl)@ == old(gl)@ + self.draw_elements_calls(*ebo, prim),
    {
        self.draw_vao.apply(gl);
        ebo.apply(gl);
        gl_draw_elements(gl, ebo.count, prim);
        ebo.unbind(gl);
        assert(gl@ =~= old(gl)@ + self.draw_elements_calls(*ebo, prim));
    }

}

} // verus!
