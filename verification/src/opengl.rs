//! The calls that the library makes of the driver one at a time, the text that
//! comes back from it, and the steps of compiling and linking shaders.

use crate::buffers::{describe_layout, layout_calls, DrawPrimitive, VertexAttribute, VertexBuffer};
use crate::math::{Matrix, Scalar};
use crate::opengl::gl::{Blob, BlobView, Gl, GlCall};
use vstd::prelude::*;
use vstd::slice::{slice_subrange, slice_to_vec};
use vstd::string::StringExecFns;
use vstd::utf8::{decode_utf8, encode_utf8, valid_utf8};

pub mod gl;

verus! {

pub fn gl_bind_vertex_array(gl: &mut Gl, id: u32)
    ensures
        final(gl)@ == old(gl)@.push(GlCall::BindVertexArray { array: id }),
{
    gl.push(GlCall::BindVertexArray { array: id });
}

pub fn gl_bind_array_buffer(gl: &mut Gl, id: u32)
    ensures
        final(gl)@ == old(gl)@.push(GlCall::BindBuffer { target: gl::ARRAY_BUFFER, buffer: id }),
{
    gl.push(GlCall::BindBuffer { target: gl::ARRAY_BUFFER, buffer: id });
}

pub fn gl_delete_buffer(gl: &mut Gl, id: u32)
    ensures
        final(gl)@ == old(gl)@.push(GlCall::DeleteBuffers { buffer: id }),
{
    gl.push(GlCall::DeleteBuffers { buffer: id });
}

pub fn gl_unbind_element_buffer(gl: &mut Gl)
    ensures
        final(gl)@ == old(gl)@.push(
            GlCall::BindBuffer { target: gl::ELEMENT_ARRAY_BUFFER, buffer: 0 },
        ),
{
    gl.push(GlCall::BindBuffer { target: gl::ELEMENT_ARRAY_BUFFER, buffer: 0 });
}

pub fn gl_unbind_array_buffer(gl: &mut Gl)
    ensures
        final(gl)@ == old(gl)@.push(GlCall::BindBuffer { target: gl::ARRAY_BUFFER, buffer: 0 }),
{
    gl.push(GlCall::BindBuffer { target: gl::ARRAY_BUFFER, buffer: 0 });
}

pub fn gl_set_uniform_4f(gl: &mut Gl, location: i32, floats: (Scalar, Scalar, Scalar, Scalar))
    ensures
        final(gl)@ == old(gl)@.push(
            GlCall::Uniform4f {
                location,
                v0: floats.0,
                v1: floats.1,
                v2: floats.2,
                v3: floats.3,
            },
        ),
{
    gl.push(
        GlCall::Uniform4f { location, v0: floats.0, v1: floats.1, v2: floats.2, v3: floats.3 },
    );
}

pub fn gl_set_uniform_3f(gl: &mut Gl, location: i32, floats: (Scalar, Scalar, Scalar))
    ensures
        final(gl)@ == old(gl)@.push(
            GlCall::Uniform3f { location, v0: floats.0, v1: floats.1, v2: floats.2 },
        ),
{
    gl.push(GlCall::Uniform3f { location, v0: floats.0, v1: floats.1, v2: floats.2 });
}

pub fn gl_set_uniform_2f(gl: &mut Gl, location: i32, floats: (Scalar, Scalar))
    ensures
        final(gl)@ == old(gl)@.push(GlCall::Uniform2f { location, v0: floats.0, v1: floats.1 }),
{
    gl.push(GlCall::Uniform2f { location, v0: floats.0, v1: floats.1 });
}

pub fn gl_set_uniform_f(gl: &mut Gl, location: i32, n: Scalar)
    ensures
        final(gl)@ == old(gl)@.push(GlCall::Uniform1f { location, v0: n }),
{
    gl.push(GlCall::Uniform1f { location, v0: n });
}

/// Sets a matrix uniform from `mat` as it is stored.
pub fn gl_set_uniform_matrix(gl: &mut Gl, location: i32, mat: &Matrix)
    ensures
        final(gl)@ == old(gl)@.push(
            GlCall::UniformMatrix4fv { location, transpose: false, value: *mat },
        ),
{
    gl_set_uniform_matrix_xpose(gl, location, mat, false)
}

/// Sets a matrix uniform from `mat`, which the driver transposes first
/// where `transpose` is set.
pub fn gl_set_uniform_matrix_xpose(gl: &mut Gl, location: i32, mat: &Matrix, transpose: bool)
    ensures
        final(gl)@ == old(gl)@.push(GlCall::UniformMatrix4fv { location, transpose, value: *mat }),
{
    gl.push(GlCall::UniformMatrix4fv { location, transpose, value: *mat });
}

pub fn gl_set_uniform_i(gl: &mut Gl, location: i32, n: i32)
    ensures
        final(gl)@ == old(gl)@.push(GlCall::Uniform1i { location, v0: n }),
{
    gl.push(GlCall::Uniform1i { location, v0: n });
}

/// Draws `vert_count` vertices of the bound buffers, from vertex `start`
/// on.
pub fn gl_draw_arrays(gl: &mut Gl, start: u32, vert_count: u32, prim: DrawPrimitive)
    ensures
        final(gl)@ == old(gl)@.push(
            GlCall::DrawArrays {
                mode: prim.spec_code(),
                first: start as i32,
                count: vert_count as i32,
            },
        ),
{
    gl.push(
        GlCall::DrawArrays {
            mode: prim.code(),
            first: #[verifier::truncate] (start as i32),
            count: #[verifier::truncate] (vert_count as i32),
        },
    );
}

/// Draws with the first `count` indices of the bound element buffer.
pub fn gl_draw_elements(gl: &mut Gl, count: u32, prim: DrawPrimitive)
    ensures
        final(gl)@ == old(gl)@.push(
            GlCall::DrawElements {
                mode: prim.spec_code(),
                count: count as i32,
                ty: gl::UNSIGNED_INT,
                offset: 0,
            },
        ),
{
    gl.push(
        GlCall::DrawElements {
            mode: prim.code(),
            count: #[verifier::truncate] (count as i32),
            ty: gl::UNSIGNED_INT,
            offset: 0,
        },
    );
}

/// Binds `buffer` and describes the attributes `attribs` to the driver.
pub fn set_vertex_layout(gl: &mut Gl, buffer: &VertexBuffer, attribs: &[VertexAttribute])
    ensures
        final(gl)@ == old(gl)@.push(
            GlCall::BindBuffer { target: gl::ARRAY_BUFFER, buffer: buffer.id },
        ) + layout_calls(attribs@),
{
    buffer.apply(gl);
    describe_layout(gl, attribs);
}

/// The largest number of bytes of an info log that is asked of the driver.
pub const GL_MAX_LOG_BUFFER_LENGTH: usize = 2564;

/// The number of bytes in which the name of a uniform is asked of the
/// driver.
pub const NAME_SIZE: usize = 32;

/// What a failed read of a shader file is reported with, before the reason.
pub const FILE_READ_ERROR: &'static str = "FILE READ ERROR :: ";

/// What a failed compilation is reported with, before the driver's log.
pub const SHADER_COMPILE_ERROR: &'static str = "SHADER COMPILE ERROR\n\r--------------------\n\r";

/// What a failed link is reported with, before the driver's log.
pub const SHADER_LINK_ERROR: &'static str = "SHADER PROGRAM LINK ERROR\n\r-------------------\n\r";

/// The bytes of `buffer` before its first zero byte, or all of them where
/// it has none: what a reader of zero-terminated text finds in it.
pub open spec fn c_bytes(buffer: Seq<u8>) -> Seq<u8>
    decreases buffer.len(),
{
    if buffer.len() == 0 || buffer[0] == 0 {
        Seq::empty()
    } else {
        seq![buffer[0]] + c_bytes(buffer.drop_first())
    }
}

/// The zero-terminated text of a buffer starts the buffer, holds no zero
/// byte, and stops at a zero byte or at the end of the buffer.
pub proof fn lemma_c_bytes(buffer: Seq<u8>)
    ensures
        c_bytes(buffer).len() <= buffer.len(),
        c_bytes(buffer) == buffer.take(c_bytes(buffer).len() as int),
        forall|i: int| 0 <= i < c_bytes(buffer).len() ==> #[trigger] c_bytes(buffer)[i] != 0,
        c_bytes(buffer).len() < buffer.len() ==> buffer[c_bytes(buffer).len() as int] == 0,
    decreases buffer.len(),
{
    if buffer.len() == 0 || buffer[0] == 0 {
        assert(buffer.take(0) =~= Seq::<u8>::empty());
    } else {
        let rest = buffer.drop_first();
        lemma_c_bytes(rest);
        let n = c_bytes(rest).len() as int;
        assert(c_bytes(buffer) =~= buffer.take(n + 1)) by {
            assert(rest.take(n) =~= buffer.take(n + 1).drop_first());
        }
        assert forall|i: int| 0 <= i < c_bytes(buffer).len() implies #[trigger] c_bytes(
            buffer,
        )[i] != 0 by {
            if i > 0 {
                assert(c_bytes(buffer)[i] == c_bytes(rest)[i - 1]);
            }
        }
        if c_bytes(buffer).len() < buffer.len() {
            assert(buffer[n + 1] == rest[n]);
        }
    }
}

/// The text for which `bytes` is the UTF-8 encoding; `None` where it is
/// the encoding of none.
pub open spec fn utf8_text(bytes: Seq<u8>) -> Option<Seq<char>> {
    if valid_utf8(bytes) {
        Some(decode_utf8(bytes))
    } else {
        None
    }
}

/// `String::from_utf8`: the string that `bytes` encodes, or nothing where
/// `bytes` is not valid UTF-8.
#[verifier::external_body]
pub(crate) fn string_from_utf8(bytes: Vec<u8>) -> (text: Option<String>)
    ensures
        text is Some <==> valid_utf8(bytes@),
        text matches Some(s) ==> s@ == decode_utf8(bytes@),
{
    match String::from_utf8(bytes) {
        Ok(s) => Some(s),
        Err(_) => None,
    }
}

/// The number of bytes of the zero-terminated text in `buffer`.
pub fn c_length(buffer: &[u8]) -> (n: usize)
    ensures
        n == c_bytes(buffer@).len(),
{
    let mut i: usize = 0;
    assert(buffer@.skip(0) =~= buffer@);
    while i < buffer.len() && buffer[i] != 0
        invariant
            i <= buffer@.len(),
            c_bytes(buffer@).len() == i + c_bytes(buffer@.skip(i as int)).len(),
        decreases buffer@.len() - i,
    {
        assert(buffer@.skip(i as int).drop_first() =~= buffer@.skip(i + 1));
        i = i + 1;
    }
    i
}

/// The zero-terminated text in `buffer`; `None` where its bytes are not
/// valid UTF-8.
pub fn c_text(buffer: &[u8]) -> (text: Option<String>)
    ensures
        text is Some <==> utf8_text(c_bytes(buffer@)) is Some,
        text matches Some(s) ==> Some(s@) == utf8_text(c_bytes(buffer@)),
{
    let n = c_length(buffer);
    proof {
        lemma_c_bytes(buffer@);
    }
    let bytes = slice_to_vec(slice_subrange(buffer, 0, n));
    assert(bytes@ =~= c_bytes(buffer@));
    string_from_utf8(bytes)
}

/// The source of the shader file that was read, or the report of why it
/// could not be: `read` holds the contents of the file, or the reason.
pub fn gl_compile_shader_from_file(read: Result<String, String>) -> (source: Result<
    Vec<u8>,
    String,
>)
    ensures
        match read {
            Ok(text) => source matches Ok(bytes) && bytes@ == encode_utf8(text@),
            Err(reason) => source matches Err(e) && e@ == FILE_READ_ERROR@ + reason@,
        },
{
    match read {
        Ok(text) => Ok(slice_to_vec(text.as_str().as_bytes())),
        Err(reason) => Err(String::from_str(FILE_READ_ERROR).concat(reason.as_str())),
    }
}

/// Gives the fresh shader `sid` its source and has it compiled.
pub fn gl_compile_shader(gl: &mut Gl, sid: u32, source: Vec<u8>)
    ensures
        final(gl)@ == old(gl)@ + seq![
            GlCall::<BlobView>::ShaderSource { shader: sid, source: BlobView::Bytes(source@) },
            GlCall::<BlobView>::CompileShader { shader: sid },
        ],
{
    let ghost bytes = source@;
    gl.push(GlCall::ShaderSource { shader: sid, source: Blob::Bytes(source) });
    gl.push(GlCall::CompileShader { shader: sid });
    assert(gl@ =~= old(gl)@ + seq![
        GlCall::<BlobView>::ShaderSource { shader: sid, source: BlobView::Bytes(bytes) },
        GlCall::<BlobView>::CompileShader { shader: sid },
    ]);
}

/// Gives up the shader `sid`, which did not compile, and reports the
/// driver's log.
pub fn gl_compile_failed(gl: &mut Gl, sid: u32, info_log: &str) -> (report: String)
    ensures
        report@ == SHADER_COMPILE_ERROR@ + info_log@,
        final(gl)@ == old(gl)@.push(GlCall::DeleteShader { shader: sid }),
{
    gl.push(GlCall::DeleteShader { shader: sid });
    String::from_str(SHADER_COMPILE_ERROR).concat(info_log)
}

/// Attaches the two compiled shaders to the fresh program `id` and has it
/// linked.
pub fn gl_create_shader_program(gl: &mut Gl, id: u32, vert_id: u32, frag_id: u32)
    ensures
        final(gl)@ == old(gl)@ + seq![
            GlCall::<BlobView>::AttachShader { program: id, shader: vert_id },
            GlCall::<BlobView>::AttachShader { program: id, shader: frag_id },
            GlCall::<BlobView>::LinkProgram { program: id },
        ],
{
    gl.push(GlCall::AttachShader { program: id, shader: vert_id });
    gl.push(GlCall::AttachShader { program: id, shader: frag_id });
    gl.push(GlCall::LinkProgram { program: id });
    assert(gl@ =~= old(gl)@ + seq![
        GlCall::<BlobView>::AttachShader { program: id, shader: vert_id },
        GlCall::<BlobView>::AttachShader { program: id, shader: frag_id },
        GlCall::<BlobView>::LinkProgram { program: id },
    ]);
}

/// Gives up the program `id`, which did not link, and reports the
/// driver's log.
pub fn gl_link_failed(gl: &mut Gl, id: u32, info_log: &str) -> (report: String)
    ensures
        report@ == SHADER_LINK_ERROR@ + info_log@,
        final(gl)@ == old(gl)@.push(GlCall::DeleteProgram { program: id }),
{
    gl.push(GlCall::DeleteProgram { program: id });
    String::from_str(SHADER_LINK_ERROR).concat(info_log)
}

/// Gives up the two shaders, which the linked program no longer needs.
pub fn gl_link_succeeded(gl: &mut Gl, vert_id: u32, frag_id: u32)
    ensures
        final(gl)@ == old(gl)@ + seq![
            GlCall::<BlobView>::DeleteShader { shader: vert_id },
            GlCall::<BlobView>::DeleteShader { shader: frag_id },
        ],
{
    gl.push(GlCall::DeleteShader { shader: vert_id });
    gl.push(GlCall::DeleteShader { shader: frag_id });
    assert(gl@ =~= old(gl)@ + seq![
        GlCall::<BlobView>::DeleteShader { shader: vert_id },
        GlCall::<BlobView>::DeleteShader { shader: frag_id },
    ]);
}

} // verus!
