use ruckus::buffers::{DrawPrimitive, DrawUsage, ElementBuffer, VertexBuffer};
use ruckus::graphics::{Mesh, RenderTexture, Shader, Texture};
use ruckus::math::{Matrix, Scalar, Vec2};
use ruckus::opengl::gl::{self, Blob, Gl, GlCall};
use ruckus::opengl::{
    gl_bind_array_buffer, gl_bind_vertex_array, gl_compile_failed, gl_compile_shader,
    gl_compile_shader_from_file, gl_create_shader_program, gl_delete_buffer, gl_draw_arrays,
    gl_draw_elements, gl_link_failed, gl_link_succeeded, gl_set_uniform_2f, gl_set_uniform_3f,
    gl_set_uniform_4f, gl_set_uniform_f, gl_set_uniform_i, gl_set_uniform_matrix,
    gl_set_uniform_matrix_xpose, gl_unbind_array_buffer, gl_unbind_element_buffer,
    set_vertex_layout,
};
use ruckus::sys::{Quad, Transform};
use ruckus::vertex::vertex_data;
use ruckus::{Renderable, Renderer};
use vstd::hash_map::StringHashMap;

fn recorded(gl: &Gl) -> Vec<GlCall<Blob>> {
    gl.calls().iter().map(|r| r.call().clone()).collect()
}

fn s(x: f32) -> Scalar {
    Scalar::from_bits(x.to_bits())
}

fn shader(id: u32) -> Shader {
    let mut shader = Shader::new(id, StringHashMap::new());
    shader.register_uniform(Renderer::U_PROJECTION, 1);
    shader.register_uniform(Renderer::U_VIEW, 2);
    shader.register_uniform(Renderer::U_MODEL, 3);
    shader
}

fn renderer(projection: Matrix) -> Renderer {
    let mut gl = Gl::new();
    Renderer::new(&mut gl, shader(50), shader(51), 60, 61, 62, 63, projection)
}

fn layout_calls(vao: u32, buffer: u32) -> Vec<GlCall<Blob>> {
    let mut calls = vec![
        GlCall::BindVertexArray { array: vao },
        GlCall::BindBuffer { target: gl::ARRAY_BUFFER, buffer },
    ];
    for (index, size, offset) in [(0, 3, 0), (1, 2, 12), (2, 4, 20)] {
        calls.push(GlCall::VertexAttribPointer {
            index,
            size,
            ty: gl::FLOAT,
            normalized: false,
            stride: 36,
            offset,
        });
        calls.push(GlCall::EnableVertexAttribArray { index });
        calls.push(GlCall::VertexAttribDivisor { index, divisor: 0 });
    }
    calls.push(GlCall::BindBuffer { target: gl::ARRAY_BUFFER, buffer: 0 });
    calls.push(GlCall::BindVertexArray { array: 0 });
    calls
}

fn bind_texture(unit: u32, id: u32) -> Vec<GlCall<Blob>> {
    vec![
        GlCall::ActiveTexture { unit },
        GlCall::BindTexture { target: gl::TEXTURE_2D, texture: id },
    ]
}

fn matrix_calls(program: u32, matrices: [Matrix; 3]) -> Vec<GlCall<Blob>> {
    let mut calls = Vec::new();
    for (i, value) in matrices.into_iter().enumerate() {
        calls.push(GlCall::UseProgram { program });
        calls.push(GlCall::UniformMatrix4fv { location: i as i32 + 1, transpose: false, value });
    }
    calls
}

fn draw_arrays(vao: u32, mode: u32, first: i32, count: i32) -> Vec<GlCall<Blob>> {
    vec![GlCall::BindVertexArray { array: vao }, GlCall::DrawArrays { mode, first, count }]
}

fn draw_elements(vao: u32, ebo: u32, mode: u32, count: i32) -> Vec<GlCall<Blob>> {
    vec![
        GlCall::BindVertexArray { array: vao },
        GlCall::BindBuffer { target: gl::ELEMENT_ARRAY_BUFFER, buffer: ebo },
        GlCall::DrawElements { mode, count, ty: gl::UNSIGNED_INT, offset: 0 },
        GlCall::BindBuffer { target: gl::ELEMENT_ARRAY_BUFFER, buffer: 0 },
    ]
}

#[test]
fn prepare_sets_viewport_depth_and_blending() {
    let mut gl = Gl::new();
    Renderer::prepare(&mut gl, 800, 600);
    assert_eq!(
        recorded(&gl),
        vec![
            GlCall::Viewport { x: 0, y: 0, width: 800, height: 600 },
            GlCall::Enable { cap: gl::DEPTH_TEST },
            GlCall::Enable { cap: gl::BLEND },
            GlCall::BlendFunc { sfactor: gl::SRC_ALPHA, dfactor: gl::ONE_MINUS_SRC_ALPHA },
        ]
    );
}

#[test]
fn new_renderer_creates_texture_quad_and_room_for_matrices() {
    let mut gl = Gl::new();
    let projection = Transform::from_scale((s(2.), s(3.))).0;
    let r = Renderer::new(&mut gl, shader(50), shader(51), 60, 61, 62, 63, projection);
    assert_eq!(r.shader.id, 50);
    assert_eq!(r.instanced_shader.id, 51);
    assert_eq!(r.default_texture.id, 60);
    assert_eq!(r.quad_buffer.id, 61);
    assert_eq!(r.quad_buffer.vert_count, 4);
    assert_eq!(r.quad_buffer.size_bytes, 144);
    assert_eq!(r.instanced_mat_buffer.id, 62);
    assert_eq!(r.instanced_mat_buffer.vert_count, 2);
    assert_eq!(r.instanced_mat_buffer.size_bytes, 128);
    assert_eq!(r.draw_vao.id, 63);
    assert_eq!(*r.projection(), projection);
    let calls = recorded(&gl);
    assert_eq!(calls.len(), 11);
    assert_eq!(calls[0], GlCall::BindTexture { target: gl::TEXTURE_2D, texture: 60 });
    assert_eq!(
        calls[7..],
        [
            GlCall::BindBuffer { target: gl::ARRAY_BUFFER, buffer: 61 },
            GlCall::BufferData {
                target: gl::ARRAY_BUFFER,
                size: 144,
                data: Some(Blob::Words(vertex_data(&Quad::default_verts()))),
                usage: gl::DYNAMIC_DRAW,
            },
            GlCall::BindBuffer { target: gl::ARRAY_BUFFER, buffer: 62 },
            GlCall::BufferData {
                target: gl::ARRAY_BUFFER,
                size: 128,
                data: None,
                usage: gl::DYNAMIC_DRAW,
            },
        ]
    );
}

#[test]
fn draw_texture_switches_the_target() {
    let mut gl = Gl::new();
    let rt = RenderTexture::new(&mut gl, 1, 2, 3, 4, 4);
    gl.take();
    Renderer::begin_draw_texture(&mut gl, &rt);
    Renderer::end_draw_texture(&mut gl);
    assert_eq!(
        recorded(&gl),
        vec![
            GlCall::BindFramebuffer { target: gl::FRAMEBUFFER, framebuffer: 1 },
            GlCall::BindFramebuffer { target: gl::FRAMEBUFFER, framebuffer: 0 },
        ]
    );
}

#[test]
fn mesh_without_a_shader_is_drawn_with_the_default_and_three_matrices() {
    let projection = Transform::from_scale((s(2.), s(3.))).0;
    let view = Transform::from_position((s(0.), s(0.), s(-3.))).0;
    let r = renderer(projection);
    let mut gl = Gl::new();
    let vb = VertexBuffer::zeroed(&mut gl, 7, 36, 3, DrawUsage::Static, DrawPrimitive::Triangles);
    let mut mesh = Mesh::new(vb);
    mesh.transform = Transform::from_position((s(1.), s(2.), s(0.)));
    gl.take();
    r.draw_mesh(&mut gl, &mesh, &view);
    let mut expected = matrix_calls(50, [projection, view, mesh.transform.0]);
    expected.push(GlCall::UseProgram { program: 50 });
    expected.extend(layout_calls(63, 7));
    expected.extend(bind_texture(gl::TEXTURE0, 60));
    expected.extend(draw_arrays(63, gl::TRIANGLES, 0, 3));
    assert_eq!(recorded(&gl), expected);
}

#[test]
fn mesh_with_its_own_shader_texture_and_indices_uses_them() {
    let r = renderer(Matrix::identity());
    let mut gl = Gl::new();
    let vb = VertexBuffer::zeroed(&mut gl, 7, 36, 3, DrawUsage::Static, DrawPrimitive::Lines);
    let mut mesh = Mesh::new(vb);
    mesh.shader = Some(Shader::new(9, StringHashMap::new()));
    mesh.texture = Some(Texture { id: 8, unit: gl::TEXTURE0 + 1, size: Vec2::new(1, 1) });
    mesh.indices = Some(ElementBuffer { id: 10, count: 6 });
    gl.take();
    r.draw_mesh(&mut gl, &mesh, &Matrix::identity());
    let mut expected = vec![GlCall::UseProgram { program: 9 }];
    expected.extend(layout_calls(63, 7));
    expected.extend(bind_texture(gl::TEXTURE0 + 1, 8));
    expected.extend(draw_elements(63, 10, gl::LINES, 6));
    assert_eq!(recorded(&gl), expected);
}

#[test]
fn quad_is_written_into_the_quad_buffer_and_drawn_as_a_strip() {
    let r = renderer(Matrix::identity());
    let q = Quad::default();
    let write = vec![
        GlCall::BindBuffer { target: gl::ARRAY_BUFFER, buffer: 61 },
        GlCall::BufferSubData {
            target: gl::ARRAY_BUFFER,
            offset: 0,
            size: 144,
            data: Blob::Words(vertex_data(&q.verts)),
        },
    ];
    let mut gl = Gl::new();
    r.draw_quad(&mut gl, &q, None);
    let mut expected = bind_texture(gl::TEXTURE0, 60);
    expected.extend(layout_calls(63, 61));
    expected.extend(write.clone());
    expected.extend(draw_arrays(63, gl::TRIANGLE_STRIP, 0, 4));
    assert_eq!(recorded(&gl), expected);

    let texture = Texture { id: 8, unit: gl::TEXTURE0 + 2, size: Vec2::new(1, 1) };
    let mut gl = Gl::new();
    r.draw_quad(&mut gl, &q, Some(&texture));
    let mut expected = bind_texture(gl::TEXTURE0 + 2, 8);
    expected.extend(layout_calls(63, 61));
    expected.extend(write);
    expected.extend(draw_arrays(63, gl::TRIANGLE_STRIP, 0, 4));
    assert_eq!(recorded(&gl), expected);
}

#[test]
fn buffer_is_drawn_from_the_first_vertex_given() {
    let r = renderer(Matrix::identity());
    let mut gl = Gl::new();
    let vb = VertexBuffer::zeroed(&mut gl, 7, 36, 12, DrawUsage::Static, DrawPrimitive::Points);
    gl.take();
    r.draw_buffer(&mut gl, &vb, 2, None);
    let mut expected = bind_texture(gl::TEXTURE0, 60);
    expected.extend(layout_calls(63, 7));
    expected.extend(draw_arrays(63, gl::POINTS, 2, 12));
    assert_eq!(recorded(&gl), expected);
}

#[test]
fn indexed_buffer_is_drawn_by_its_indices() {
    let r = renderer(Matrix::identity());
    let mut gl = Gl::new();
    let vb = VertexBuffer::zeroed(&mut gl, 7, 36, 12, DrawUsage::Static, DrawPrimitive::Quads);
    let ebo = ElementBuffer { id: 11, count: 24 };
    let texture = Texture { id: 8, unit: gl::TEXTURE0, size: Vec2::new(1, 1) };
    gl.take();
    r.draw_indexed_buffer(&mut gl, &vb, &ebo, Some(&texture));
    let mut expected = bind_texture(gl::TEXTURE0, 8);
    expected.extend(layout_calls(63, 7));
    expected.extend(draw_elements(63, 11, gl::QUADS, 24));
    assert_eq!(recorded(&gl), expected);
}

#[test]
fn clearing_sets_the_colour_then_clears_colour_and_depth() {
    let r = renderer(Matrix::identity());
    let mut gl = Gl::new();
    r.clear(&mut gl, s(0.2), s(0.3), s(0.3), s(1.0));
    r.clear_black(&mut gl);
    let mask = ::gl::COLOR_BUFFER_BIT | ::gl::DEPTH_BUFFER_BIT;
    assert_eq!(
        recorded(&gl),
        vec![
            GlCall::ClearColor { red: s(0.2), green: s(0.3), blue: s(0.3), alpha: s(1.0) },
            GlCall::Clear { mask },
            GlCall::ClearColor { red: s(0.), green: s(0.), blue: s(0.), alpha: s(1.) },
            GlCall::Clear { mask },
        ]
    );
}

#[test]
fn default_shader_gets_the_transform_or_identities() {
    let projection = Transform::from_scale((s(2.), s(3.))).0;
    let view = Transform::from_position((s(0.), s(0.), s(-3.))).0;
    let r = renderer(projection);
    let xform = Transform::from_position((s(1.), s(2.), s(0.)));
    let mut gl = Gl::new();
    r.use_default_shader(&mut gl, Some(&xform), &view);
    let mut expected = matrix_calls(50, [projection, view, xform.0]);
    expected.push(GlCall::UseProgram { program: 50 });
    assert_eq!(recorded(&gl), expected);

    let mut gl = Gl::new();
    r.use_default_shader(&mut gl, None, &view);
    let mut expected = matrix_calls(50, [Matrix::identity(); 3]);
    expected.push(GlCall::UseProgram { program: 50 });
    assert_eq!(recorded(&gl), expected);
}

#[test]
fn matrices_go_by_their_names_in_the_shaders() {
    assert_eq!(Renderer::U_PROJECTION, "u_projection");
    assert_eq!(Renderer::U_VIEW, "u_view");
    assert_eq!(Renderer::U_MODEL, "u_model");
    for name in [Renderer::U_PROJECTION, Renderer::U_VIEW, Renderer::U_MODEL] {
        assert!(ruckus::graphics::DEFAULT_VERT.contains(&format!("uniform mat4 {};", name)));
    }
}

#[test]
fn renderer_gives_back_what_it_holds() {
    let r = renderer(Matrix::identity());
    let mut gl = Gl::new();
    r.delete(&mut gl);
    assert_eq!(
        recorded(&gl),
        vec![
            GlCall::DeleteVertexArrays { array: 63 },
            GlCall::DeleteBuffers { buffer: 61 },
            GlCall::DeleteBuffers { buffer: 62 },
            GlCall::DeleteProgram { program: 50 },
            GlCall::DeleteProgram { program: 51 },
            GlCall::DeleteTextures { texture: 60 },
        ]
    );
}

#[test]
fn set_current_binds_the_vertex_array() {
    let r = renderer(Matrix::identity());
    let mut gl = Gl::new();
    r.set_current(&mut gl);
    assert_eq!(recorded(&gl), vec![GlCall::BindVertexArray { array: 63 }]);
}

struct Dot;

impl Renderable for Dot {
    fn draw(&self, gl: &mut Gl, renderer: &Renderer) {
        renderer.set_current(gl);
        gl_draw_arrays(gl, 0, 1, DrawPrimitive::Points);
    }
}

#[test]
fn renderable_draws_itself() {
    let r = renderer(Matrix::identity());
    let mut gl = Gl::new();
    r.draw(&mut gl, &Dot);
    assert_eq!(recorded(&gl), draw_arrays(63, gl::POINTS, 0, 1));
}

#[test]
fn helpers_record_one_call_each() {
    let mut gl = Gl::new();
    gl_bind_vertex_array(&mut gl, 1);
    gl_bind_array_buffer(&mut gl, 2);
    gl_delete_buffer(&mut gl, 3);
    gl_unbind_element_buffer(&mut gl);
    gl_unbind_array_buffer(&mut gl);
    gl_set_uniform_i(&mut gl, 4, 5);
    gl_set_uniform_f(&mut gl, 4, s(1.));
    gl_set_uniform_2f(&mut gl, 4, (s(1.), s(2.)));
    gl_set_uniform_3f(&mut gl, 4, (s(1.), s(2.), s(3.)));
    gl_set_uniform_4f(&mut gl, 4, (s(1.), s(2.), s(3.), s(4.)));
    gl_set_uniform_matrix(&mut gl, 6, &Matrix::identity());
    gl_set_uniform_matrix_xpose(&mut gl, 6, &Matrix::identity(), true);
    gl_draw_arrays(&mut gl, 1, 2, DrawPrimitive::LineLoop);
    gl_draw_elements(&mut gl, 6, DrawPrimitive::LineStrip);
    assert_eq!(
        recorded(&gl),
        vec![
            GlCall::BindVertexArray { array: 1 },
            GlCall::BindBuffer { target: gl::ARRAY_BUFFER, buffer: 2 },
            GlCall::DeleteBuffers { buffer: 3 },
            GlCall::BindBuffer { target: gl::ELEMENT_ARRAY_BUFFER, buffer: 0 },
            GlCall::BindBuffer { target: gl::ARRAY_BUFFER, buffer: 0 },
            GlCall::Uniform1i { location: 4, v0: 5 },
            GlCall::Uniform1f { location: 4, v0: s(1.) },
            GlCall::Uniform2f { location: 4, v0: s(1.), v1: s(2.) },
            GlCall::Uniform3f { location: 4, v0: s(1.), v1: s(2.), v2: s(3.) },
            GlCall::Uniform4f { location: 4, v0: s(1.), v1: s(2.), v2: s(3.), v3: s(4.) },
            GlCall::UniformMatrix4fv { location: 6, transpose: false, value: Matrix::identity() },
            GlCall::UniformMatrix4fv { location: 6, transpose: true, value: Matrix::identity() },
            GlCall::DrawArrays { mode: gl::LINE_LOOP, first: 1, count: 2 },
            GlCall::DrawElements {
                mode: gl::LINE_STRIP,
                count: 6,
                ty: gl::UNSIGNED_INT,
                offset: 0,
            },
        ]
    );
}

#[test]
fn draw_counts_wrap_into_the_drivers_integers() {
    let mut gl = Gl::new();
    gl_draw_arrays(&mut gl, u32::MAX, 0x8000_0000, DrawPrimitive::Points);
    assert_eq!(
        recorded(&gl),
        vec![GlCall::DrawArrays { mode: gl::POINTS, first: -1, count: i32::MIN }]
    );
}

#[test]
fn vertex_layout_binds_then_describes() {
    let mut gl = Gl::new();
    let vb = VertexBuffer::zeroed(&mut gl, 7, 36, 1, DrawUsage::Static, DrawPrimitive::Points);
    gl.take();
    set_vertex_layout(&mut gl, &vb, &vb.layout);
    let expected = layout_calls(0, 7);
    assert_eq!(recorded(&gl), expected[1..11].to_vec());
}

#[test]
fn shader_pieces_record_their_calls() {
    assert_eq!(
        gl_compile_shader_from_file(Ok(String::from("void main() {}"))),
        Ok(b"void main() {}".to_vec())
    );
    assert_eq!(
        gl_compile_shader_from_file(Err(String::from("gone"))),
        Err(String::from("FILE READ ERROR :: gone"))
    );
    let mut gl = Gl::new();
    gl_compile_shader(&mut gl, 1, b"src".to_vec());
    assert_eq!(
        gl_compile_failed(&mut gl, 1, "oops"),
        "SHADER COMPILE ERROR\n\r--------------------\n\roops"
    );
    gl_create_shader_program(&mut gl, 3, 1, 2);
    gl_link_succeeded(&mut gl, 1, 2);
    assert_eq!(
        gl_link_failed(&mut gl, 3, "oops"),
        "SHADER PROGRAM LINK ERROR\n\r-------------------\n\roops"
    );
    assert_eq!(
        recorded(&gl),
        vec![
            GlCall::ShaderSource { shader: 1, source: Blob::Bytes(b"src".to_vec()) },
            GlCall::CompileShader { shader: 1 },
            GlCall::DeleteShader { shader: 1 },
            GlCall::AttachShader { program: 3, shader: 1 },
            GlCall::AttachShader { program: 3, shader: 2 },
            GlCall::LinkProgram { program: 3 },
            GlCall::DeleteShader { shader: 1 },
            GlCall::DeleteShader { shader: 2 },
            GlCall::DeleteProgram { program: 3 },
        ]
    );
}
