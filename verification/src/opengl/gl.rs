//! The driver's interface as values: its numbers, its calls, and the recording
//! that collects the calls for whoever owns the context.
//!
//! The constants are the numbers that the OpenGL registry gives to the names.

use crate::math::{Matrix, Scalar};
use vstd::prelude::*;

verus! {

pub const FALSE: u8 = 0;

pub const POINTS: u32 = 0x0000;

pub const LINES: u32 = 0x0001;

pub const LINE_LOOP: u32 = 0x0002;

pub const LINE_STRIP: u32 = 0x0003;

pub const TRIANGLES: u32 = 0x0004;

pub const TRIANGLE_STRIP: u32 = 0x0005;

pub const QUADS: u32 = 0x0007;

pub const DEPTH_BUFFER_BIT: u32 = 0x0100;

pub const COLOR_BUFFER_BIT: u32 = 0x4000;

pub const SRC_ALPHA: u32 = 0x0302;

pub const ONE_MINUS_SRC_ALPHA: u32 = 0x0303;

pub const DEPTH_TEST: u32 = 0x0B71;

pub const BLEND: u32 = 0x0BE2;

pub const UNPACK_ALIGNMENT: u32 = 0x0CF5;

pub const TEXTURE_2D: u32 = 0x0DE1;

pub const BYTE: u32 = 0x1400;

pub const UNSIGNED_BYTE: u32 = 0x1401;

pub const SHORT: u32 = 0x1402;

pub const UNSIGNED_SHORT: u32 = 0x1403;

pub const INT: u32 = 0x1404;

pub const UNSIGNED_INT: u32 = 0x1405;

pub const FLOAT: u32 = 0x1406;

pub const ALPHA: u32 = 0x1906;

pub const RGB: u32 = 0x1907;

pub const RGBA: u32 = 0x1908;

pub const VERSION: u32 = 0x1F02;

pub const LINEAR: u32 = 0x2601;

pub const TEXTURE_MAG_FILTER: u32 = 0x2800;

pub const TEXTURE_MIN_FILTER: u32 = 0x2801;

pub const TEXTURE_WRAP_S: u32 = 0x2802;

pub const TEXTURE_WRAP_T: u32 = 0x2803;

pub const REPEAT: u32 = 0x2901;

pub const DEPTH_STENCIL_ATTACHMENT: u32 = 0x821A;

pub const TEXTURE0: u32 = 0x84C0;

pub const READ_ONLY: u32 = 0x88B8;

pub const WRITE_ONLY: u32 = 0x88B9;

pub const READ_WRITE: u32 = 0x88BA;

pub const STREAM_DRAW: u32 = 0x88E0;

pub const STATIC_DRAW: u32 = 0x88E4;

pub const DYNAMIC_DRAW: u32 = 0x88E8;

pub const DEPTH24_STENCIL8: u32 = 0x88F0;

pub const ARRAY_BUFFER: u32 = 0x8892;

pub const ELEMENT_ARRAY_BUFFER: u32 = 0x8893;

pub const FRAGMENT_SHADER: u32 = 0x8B30;

pub const VERTEX_SHADER: u32 = 0x8B31;

pub const COMPILE_STATUS: u32 = 0x8B81;

pub const LINK_STATUS: u32 = 0x8B82;

pub const ACTIVE_UNIFORMS: u32 = 0x8B86;

pub const FRAMEBUFFER_COMPLETE: u32 = 0x8CD5;

pub const COLOR_ATTACHMENT0: u32 = 0x8CE0;

pub const FRAMEBUFFER: u32 = 0x8D40;

pub const RENDERBUFFER: u32 = 0x8D41;

pub const COPY_READ_BUFFER: u32 = 0x8F36;

pub const COPY_WRITE_BUFFER: u32 = 0x8F37;

/// Client memory that a call hands to the driver: raw bytes, or 32-bit words
/// in the byte order of the machine.
#[derive(Clone, Debug, PartialEq, Eq)]
pub enum Blob {
    Bytes(Vec<u8>),
    Words(Vec<u32>),
}

/// What a [`Blob`] holds.
pub enum BlobView {
    Bytes(Seq<u8>),
    Words(Seq<u32>),
}

impl BlobView {
    /// The number of bytes the driver can read from the blob.
    pub open spec fn size(self) -> nat {
        match self {
            BlobView::Bytes(b) => b.len(),
            BlobView::Words(w) => 4 * w.len(),
        }
    }
}

impl Blob {
    /// The number of bytes the driver can read from the blob.
    pub fn size_bytes(&self) -> (n: usize)
        requires
            self@.size() <= usize::MAX,
        ensures
            n == self@.size(),
    {
        match self {
            Blob::Bytes(b) => b.len(),
            Blob::Words(w) => 4 * w.len(),
        }
    }
}

impl View for Blob {
    type V = BlobView;

    open spec fn view(&self) -> BlobView {
        match self {
            Blob::Bytes(b) => BlobView::Bytes(b@),
            Blob::Words(w) => BlobView::Words(w@),
        }
    }
}

/// One call of the driver's interface, with the values of its arguments. `D`
/// is the form in which client memory is held: [`Blob`] in a recorded call,
/// [`BlobView`] in what a contract says of it.
#[derive(Clone, Debug, PartialEq, Eq)]
#[allow(inconsistent_fields)]
pub enum GlCall<D> {
    /// Makes a vertex array object current.
    BindVertexArray { array: u32 },
    /// Describes one attribute of the vertices in the bound array buffer.
    VertexAttribPointer {
        index: u32,
        size: i32,
        ty: u32,
        normalized: bool,
        stride: i32,
        offset: usize,
    },
    EnableVertexAttribArray { index: u32 },
    VertexAttribDivisor { index: u32, divisor: u32 },
    DeleteVertexArrays { array: u32 },
    BindBuffer { target: u32, buffer: u32 },
    /// Allocates `size` bytes for the bound buffer and fills them from `data`,
    /// or leaves them undefined where there is none.
    BufferData { target: u32, size: isize, data: Option<D>, usage: u32 },
    BufferSubData { target: u32, offset: isize, size: isize, data: D },
    CopyBufferSubData {
        read_target: u32,
        write_target: u32,
        read_offset: isize,
        write_offset: isize,
        size: isize,
    },
    DeleteBuffers { buffer: u32 },
    BindRenderbuffer { target: u32, renderbuffer: u32 },
    RenderbufferStorage { target: u32, internal_format: u32, width: i32, height: i32 },
    DeleteRenderbuffers { renderbuffer: u32 },
    BindFramebuffer { target: u32, framebuffer: u32 },
    FramebufferRenderbuffer {
        target: u32,
        attachment: u32,
        renderbuffer_target: u32,
        renderbuffer: u32,
    },
    FramebufferTexture2D {
        target: u32,
        attachment: u32,
        texture_target: u32,
        texture: u32,
        level: i32,
    },
    DeleteFramebuffers { framebuffer: u32 },
    ActiveTexture { unit: u32 },
    BindTexture { target: u32, texture: u32 },
    TexParameteri { target: u32, name: u32, value: i32 },
    /// Allocates the image of the bound texture and fills it from `data`, or
    /// leaves it undefined where there is none.
    TexImage2D {
        target: u32,
        level: i32,
        internal_format: i32,
        width: i32,
        height: i32,
        border: i32,
        format: u32,
        ty: u32,
        data: Option<D>,
    },
    TexSubImage2D {
        target: u32,
        level: i32,
        x: i32,
        y: i32,
        width: i32,
        height: i32,
        format: u32,
        ty: u32,
        data: D,
    },
    GenerateMipmap { target: u32 },
    PixelStorei { name: u32, value: i32 },
    DeleteTextures { texture: u32 },
    /// Sets the source text of a shader: the bytes of `source` up to its first
    /// zero byte, or all of them where it has none.
    ShaderSource { shader: u32, source: D },
    CompileShader { shader: u32 },
    DeleteShader { shader: u32 },
    AttachShader { program: u32, shader: u32 },
    LinkProgram { program: u32 },
    UseProgram { program: u32 },
    DeleteProgram { program: u32 },
    Uniform1i { location: i32, v0: i32 },
    Uniform1f { location: i32, v0: Scalar },
    Uniform2f { location: i32, v0: Scalar, v1: Scalar },
    Uniform3f { location: i32, v0: Scalar, v1: Scalar, v2: Scalar },
    Uniform4f { location: i32, v0: Scalar, v1: Scalar, v2: Scalar, v3: Scalar },
    /// Sets one matrix uniform.
    UniformMatrix4fv { location: i32, transpose: bool, value: Matrix },
    DrawArrays { mode: u32, first: i32, count: i32 },
    /// Draws with the indices of the bound element buffer, starting `offset`
    /// bytes into it.
    DrawElements { mode: u32, count: i32, ty: u32, offset: usize },
    Viewport { x: i32, y: i32, width: i32, height: i32 },
    Enable { cap: u32 },
    BlendFunc { sfactor: u32, dfactor: u32 },
    ClearColor { red: Scalar, green: Scalar, blue: Scalar, alpha: Scalar },
    Clear { mask: u32 },
}

/// What optional client memory holds.
pub open spec fn view_of(data: Option<Blob>) -> Option<BlobView> {
    match data {
        Some(b) => Some(b@),
        None => None,
    }
}

impl View for GlCall<Blob> {
    type V = GlCall<BlobView>;

    open spec fn view(&self) -> GlCall<BlobView> {
        match *self {
            GlCall::BindVertexArray { array } => GlCall::BindVertexArray { array },
            GlCall::VertexAttribPointer {
                index,
                size,
                ty,
                normalized,
                stride,
                offset,
            } => GlCall::VertexAttribPointer {
                index,
                size,
                ty,
                normalized,
                stride,
                offset,
            },
            GlCall::EnableVertexAttribArray { index } => GlCall::EnableVertexAttribArray { index },
            GlCall::VertexAttribDivisor { index, divisor } => GlCall::VertexAttribDivisor {
                index,
                divisor,
            },
            GlCall::DeleteVertexArrays { array } => GlCall::DeleteVertexArrays { array },
            GlCall::BindBuffer { target, buffer } => GlCall::BindBuffer { target, buffer },
            GlCall::BufferData { target, size, data, usage } => GlCall::BufferData {
                target,
                size,
                data: view_of(data),
                usage,
            },
            GlCall::BufferSubData { target, offset, size, data } => GlCall::BufferSubData {
                target,
                offset,
                size,
                data: data@,
            },
            GlCall::CopyBufferSubData {
                read_target,
                write_target,
                read_offset,
                write_offset,
                size,
            } => GlCall::CopyBufferSubData {
                read_target,
                write_target,
                read_offset,
                write_offset,
                size,
            },
            GlCall::DeleteBuffers { buffer } => GlCall::DeleteBuffers { buffer },
            GlCall::BindRenderbuffer { target, renderbuffer } => GlCall::BindRenderbuffer {
                target,
                renderbuffer,
            },
            GlCall::RenderbufferStorage {
                target,
                internal_format,
                width,
                height,
            } => GlCall::RenderbufferStorage {
                target,
                internal_format,
                width,
                height,
            },
            GlCall::DeleteRenderbuffers { renderbuffer } => GlCall::DeleteRenderbuffers {
                renderbuffer,
            },
            GlCall::BindFramebuffer { target, framebuffer } => GlCall::BindFramebuffer {
                target,
                framebuffer,
            },
            GlCall::FramebufferRenderbuffer {
                target,
                attachment,
                renderbuffer_target,
                renderbuffer,
            } => GlCall::FramebufferRenderbuffer {
                target,
                attachment,
                renderbuffer_target,
                renderbuffer,
            },
            GlCall::FramebufferTexture2D {
                target,
                attachment,
                texture_target,
                texture,
                level,
            } => GlCall::FramebufferTexture2D {
                target,
                attachment,
                texture_target,
                texture,
                level,
            },
            GlCall::DeleteFramebuffers { framebuffer } => GlCall::DeleteFramebuffers {
                framebuffer,
            },
            GlCall::ActiveTexture { unit } => GlCall::ActiveTexture { unit },
            GlCall::BindTexture { target, texture } => GlCall::BindTexture { target, texture },
            GlCall::TexParameteri { target, name, value } => GlCall::TexParameteri {
                target,
                name,
                value,
            },
            GlCall::TexImage2D {
                target,
                level,
                internal_format,
                width,
                height,
                border,
                format,
                ty,
                data,
            } => GlCall::TexImage2D {
                target,
                level,
                internal_format,
                width,
                height,
                border,
                format,
                ty,
                data: view_of(data),
            },
            GlCall::TexSubImage2D {
                target,
                level,
                x,
                y,
                width,
                height,
                format,
                ty,
                data,
            } => GlCall::TexSubImage2D {
                target,
                level,
                x,
                y,
                width,
                height,
                format,
                ty,
                data: data@,
            },
            GlCall::GenerateMipmap { target } => GlCall::GenerateMipmap { target },
            GlCall::PixelStorei { name, value } => GlCall::PixelStorei { name, value },
            GlCall::DeleteTextures { texture } => GlCall::DeleteTextures { texture },
            GlCall::ShaderSource { shader, source } => GlCall::ShaderSource {
                shader,
                source: source@,
            },
            GlCall::CompileShader { shader } => GlCall::CompileShader { shader },
            GlCall::DeleteShader { shader } => GlCall::DeleteShader { shader },
            GlCall::AttachShader { program, shader } => GlCall::AttachShader { program, shader },
            GlCall::LinkProgram { program } => GlCall::LinkProgram { program },
            GlCall::UseProgram { program } => GlCall::UseProgram { program },
            GlCall::DeleteProgram { program } => GlCall::DeleteProgram { program },
            GlCall::Uniform1i { location, v0 } => GlCall::Uniform1i { location, v0 },
            GlCall::Uniform1f { location, v0 } => GlCall::Uniform1f { location, v0 },
            GlCall::Uniform2f { location, v0, v1 } => GlCall::Uniform2f { location, v0, v1 },
            GlCall::Uniform3f { location, v0, v1, v2 } => GlCall::Uniform3f {
                location,
                v0,
                v1,
                v2,
            },
            GlCall::Uniform4f { location, v0, v1, v2, v3 } => GlCall::Uniform4f {
                location,
                v0,
                v1,
                v2,
                v3,
            },
            GlCall::UniformMatrix4fv { location, transpose, value } => GlCall::UniformMatrix4fv {
                location,
                transpose,
                value,
            },
            GlCall::DrawArrays { mode, first, count } => GlCall::DrawArrays { mode, first, count },
            GlCall::DrawElements { mode, count, ty, offset } => GlCall::DrawElements {
                mode,
                count,
                ty,
                offset,
            },
            GlCall::Viewport { x, y, width, height } => GlCall::Viewport { x, y, width, height },
            GlCall::Enable { cap } => GlCall::Enable { cap },
            GlCall::BlendFunc { sfactor, dfactor } => GlCall::BlendFunc { sfactor, dfactor },
            GlCall::ClearColor { red, green, blue, alpha } => GlCall::ClearColor {
                red,
                green,
                blue,
                alpha,
            },
            GlCall::Clear { mask } => GlCall::Clear { mask },
        }
    }
}

/// The number of components in a texel of the given pixel format: one for
/// `ALPHA`, three for `RGB`, four for `RGBA` and, as an upper bound, for every
/// other format.
pub open spec fn components(format: u32) -> nat {
    if format == ALPHA {
        1
    } else if format == RGB {
        3
    } else {
        4
    }
}

/// The number of bytes in one component of the given type: one for the byte
/// types, two for the short types, four for `INT`, `UNSIGNED_INT` and `FLOAT`
/// and, as an upper bound, for every other type.
pub open spec fn component_size(ty: u32) -> nat {
    if ty == BYTE || ty == UNSIGNED_BYTE {
        1
    } else if ty == SHORT || ty == UNSIGNED_SHORT {
        2
    } else {
        4
    }
}

/// The number of bytes in a packed image of `width` by `height` texels:
/// one whose rows follow one another without padding.
pub open spec fn image_size(width: i32, height: i32, format: u32, ty: u32) -> nat {
    if width <= 0 || height <= 0 {
        0
    } else {
        (width * height * components(format) * component_size(ty)) as nat
    }
}

/// The number of bytes in one row of `width` texels.
pub open spec fn row_size(width: i32, format: u32, ty: u32) -> nat {
    if width <= 0 {
        0
    } else {
        (width * components(format) * component_size(ty)) as nat
    }
}

/// The unpack alignment that the driver works with where it was set to
/// `alignment`: rows start at multiples of it. A value below one aligns
/// nothing.
pub open spec fn effective_alignment(alignment: i32) -> int {
    if alignment < 1 {
        1
    } else {
        alignment as int
    }
}

/// The number of bytes from the start of one row to the start of the next
/// in the client memory that the driver reads an image from: the size of
/// a row, rounded up to the next multiple of the alignment.
pub open spec fn row_stride(width: i32, format: u32, ty: u32, alignment: i32) -> nat {
    let a = effective_alignment(alignment);
    (((row_size(width, format, ty) + a - 1) / a) * a) as nat
}

/// The number of bytes that the driver reads for an image of `width` by
/// `height` texels under the unpack alignment `alignment`: every row but
/// the last with its padding, and the last row.
pub open spec fn read_size(width: i32, height: i32, format: u32, ty: u32, alignment: i32) -> nat {
    if width <= 0 || height <= 0 {
        0
    } else {
        (row_stride(width, format, ty, alignment) * (height - 1) + row_size(
            width,
            format,
            ty,
        )) as nat
    }
}

/// The driver never reads less than the packed image, and it reads
/// exactly the packed image where the size of a row is a multiple of the
/// alignment.
pub proof fn lemma_read_size(width: i32, height: i32, format: u32, ty: u32, alignment: i32)
    ensures
        image_size(width, height, format, ty) <= read_size(width, height, format, ty, alignment),
        row_size(width, format, ty) % (effective_alignment(alignment) as nat) == 0 ==> read_size(
            width,
            height,
            format,
            ty,
            alignment,
        ) == image_size(width, height, format, ty),
{
    if width > 0 && height > 0 {
        let a = effective_alignment(alignment);
        let row = row_size(width, format, ty) as int;
        let stride = row_stride(width, format, ty, alignment) as int;
        let h = height as int;
        vstd::arithmetic::div_mod::lemma_fundamental_div_mod(row + a - 1, a);
        vstd::arithmetic::div_mod::lemma_mod_pos_bound(row + a - 1, a);
        assert(stride == a * ((row + a - 1) / a)) by (nonlinear_arith)
            requires
                stride == ((row + a - 1) / a) * a,
        ;
        assert(row <= stride < row + a);
        if row % a == 0 {
            vstd::arithmetic::div_mod::lemma_fundamental_div_mod(row, a);
            let q = row / a;
            assert(row == a * q);
            assert(row + a - 1 == q * a + (a - 1)) by (nonlinear_arith)
                requires
                    row == a * q,
            ;
            vstd::arithmetic::div_mod::lemma_fundamental_div_mod_converse(
                row + a - 1,
                a,
                q,
                a - 1,
            );
            assert(stride == row) by (nonlinear_arith)
                requires
                    stride == ((row + a - 1) / a) * a,
                    (row + a - 1) / a == q,
                    row == a * q,
            ;
        }
        assert(image_size(width, height, format, ty) == row * h) by (nonlinear_arith)
            requires
                image_size(width, height, format, ty) == width * height * components(format)
                    * component_size(ty),
                row == width * components(format) * component_size(ty),
                h == height,
        ;
        assert(row * (h - 1) + row == row * h) by (nonlinear_arith);
        assert(row * (h - 1) <= stride * (h - 1)) by (nonlinear_arith)
            requires
                row <= stride,
                h >= 1,
        ;
    }
}

/// The number of components in a texel of the given pixel format.
pub fn components_of(format: u32) -> (n: u8)
    ensures
        n == components(format),
{
    if format == ALPHA {
        1
    } else if format == RGB {
        3
    } else {
        4
    }
}

/// The number of bytes in one component of the given type.
pub fn component_size_of(ty: u32) -> (n: u8)
    ensures
        n == component_size(ty),
{
    if ty == BYTE || ty == UNSIGNED_BYTE {
        1
    } else if ty == SHORT || ty == UNSIGNED_SHORT {
        2
    } else {
        4
    }
}

/// The number of bytes that the driver reads for an image of `width` by
/// `height` texels under the unpack alignment `alignment`.
pub fn bytes_read(width: i32, height: i32, format: u32, ty: u32, alignment: i32) -> (n: u128)
    ensures
        n == read_size(width, height, format, ty, alignment),
{
    if width <= 0 || height <= 0 {
        return 0;
    }
    let texel: u128 = (components_of(format) as u128) * (component_size_of(ty) as u128);
    assert(texel == components(format) * component_size(ty) && texel <= 16) by (nonlinear_arith)
        requires
            texel == components(format) * component_size(ty),
            components(format) <= 4,
            component_size(ty) <= 4,
    ;
    assert(width * texel <= 0x8_0000_0000) by (nonlinear_arith)
        requires
            0 < width <= 0x7fff_ffff,
            texel <= 16,
    ;
    let row: u128 = (width as u128) * texel;
    assert(row == row_size(width, format, ty)) by (nonlinear_arith)
        requires
            row == width * texel,
            texel == components(format) * component_size(ty),
            row_size(width, format, ty) == width * components(format) * component_size(ty),
    ;
    let a: u128 = if alignment < 1 {
        1
    } else {
        alignment as u128
    };
    let rows: u128 = (row + a - 1) / a;
    assert(rows * a <= row + a - 1 && rows <= row + a - 1) by {
        vstd::arithmetic::div_mod::lemma_fundamental_div_mod(row + a - 1, a as int);
        vstd::arithmetic::div_mod::lemma_mod_pos_bound(row + a - 1, a as int);
        assert(rows * a == a * rows) by (nonlinear_arith);
        assert(rows <= rows * a) by (nonlinear_arith)
            requires
                a >= 1,
                rows >= 0,
        ;
    }
    let stride: u128 = rows * a;
    assert(stride * (height - 1) <= 0x10_0000_0000 * 0x8000_0000) by (nonlinear_arith)
        requires
            stride <= 0x10_0000_0000,
            0 <= height - 1 <= 0x8000_0000,
    ;
    stride * ((height - 1) as u128) + row
}

impl GlCall<BlobView> {
    /// The client memory that the call carries holds what the call asks
    /// for with nothing between the rows: for a buffer upload `size`
    /// bytes, for an image upload the packed image of its dimensions.
    /// Calls that carry no client memory are always in bounds.
    ///
    /// The driver reads the rows of an image at multiples of its unpack
    /// alignment, so an image whose rows are no multiple of it needs
    /// `read_size` bytes, which may be more.
    pub open spec fn in_bounds(self) -> bool {
        match self {
            GlCall::BufferData { size, data: Some(d), .. } => size <= d.size(),
            GlCall::BufferSubData { size, data, .. } => size <= data.size(),
            GlCall::TexImage2D { width, height, format, ty, data: Some(d), .. } => image_size(
                width,
                height,
                format,
                ty,
            ) <= d.size(),
            GlCall::TexSubImage2D { width, height, format, ty, data, .. } => image_size(
                width,
                height,
                format,
                ty,
            ) <= data.size(),
            _ => true,
        }
    }
}

impl GlCall<BlobView> {
    /// The number of bytes of client memory that the driver reads when
    /// the call is made under the unpack alignment `alignment`.
    pub open spec fn client_read(self, alignment: i32) -> nat {
        match self {
            GlCall::BufferData { size, data: Some(_), .. } => if size > 0 {
                size as nat
            } else {
                0
            },
            GlCall::BufferSubData { size, .. } => if size > 0 {
                size as nat
            } else {
                0
            },
            GlCall::TexImage2D { width, height, format, ty, data: Some(_), .. } => read_size(
                width,
                height,
                format,
                ty,
                alignment,
            ),
            GlCall::TexSubImage2D { width, height, format, ty, .. } => read_size(
                width,
                height,
                format,
                ty,
                alignment,
            ),
            _ => 0,
        }
    }

    /// The number of bytes of client memory that the call carries.
    pub open spec fn client_size(self) -> nat {
        match self {
            GlCall::BufferData { data: Some(d), .. } => d.size(),
            GlCall::BufferSubData { data, .. } => data.size(),
            GlCall::TexImage2D { data: Some(d), .. } => d.size(),
            GlCall::TexSubImage2D { data, .. } => data.size(),
            GlCall::ShaderSource { source, .. } => source.size(),
            _ => 0,
        }
    }

    /// A call that is in bounds reads no more than it carries, under any
    /// alignment where it is no image upload, and for an image upload
    /// under an alignment that the size of a row is a multiple of.
    pub proof fn lemma_in_bounds_reads_within(self, alignment: i32)
        requires
            self.in_bounds(),
            match self {
                GlCall::TexImage2D { width, format, ty, .. }
                | GlCall::TexSubImage2D { width, format, ty, .. } => row_size(width, format, ty) % (
                effective_alignment(alignment) as nat) == 0,
                _ => true,
            },
        ensures
            self.client_read(alignment) <= self.client_size(),
    {
        match self {
            GlCall::TexImage2D { width, height, format, ty, .. }
            | GlCall::TexSubImage2D { width, height, format, ty, .. } => {
                lemma_read_size(width, height, format, ty, alignment);
            },
            _ => {},
        }
    }
}

impl Blob {
    fn size_wide(&self) -> (n: u128)
        ensures
            n == self@.size(),
    {
        match self {
            Blob::Bytes(b) => b.len() as u128,
            Blob::Words(w) => 4 * (w.len() as u128),
        }
    }
}

impl GlCall<Blob> {
    /// Whether the driver, when it makes the call under the unpack
    /// alignment `alignment`, reads no more client memory than the call
    /// carries.
    pub fn reads_within(&self, alignment: i32) -> (ok: bool)
        ensures
            ok == (self@.client_read(alignment) <= self@.client_size()),
    {
        match self {
            GlCall::BufferData { size, data: Some(d), .. } => *size <= 0 || (*size as u128)
                <= d.size_wide(),
            GlCall::BufferSubData { size, data, .. } => *size <= 0 || (*size as u128)
                <= data.size_wide(),
            GlCall::TexImage2D { width, height, format, ty, data: Some(d), .. } => bytes_read(
                *width,
                *height,
                *format,
                *ty,
                alignment,
            ) <= d.size_wide(),
            GlCall::TexSubImage2D { width, height, format, ty, data, .. } => bytes_read(
                *width,
                *height,
                *format,
                *ty,
                alignment,
            ) <= data.size_wide(),
            _ => true,
        }
    }
}

/// A call that has been checked to be in bounds. Only such calls enter a
/// recording, so whoever makes the recorded calls can rely on it: a buffer
/// upload reads no more than it carries, and an image upload carries the
/// packed image.
pub struct Recorded {
    call: GlCall<Blob>,
}

impl View for Recorded {
    type V = GlCall<BlobView>;

    closed spec fn view(&self) -> GlCall<BlobView> {
        self.call@
    }
}

impl Recorded {
    #[verifier::type_invariant]
    spec fn checked(self) -> bool {
        self.call@.in_bounds()
    }

    pub fn new(call: GlCall<Blob>) -> (r: Recorded)
        requires
            call@.in_bounds(),
        ensures
            r@ == call@,
    {
        Recorded { call }
    }

    /// The call, which is in bounds.
    pub fn call(&self) -> (call: &GlCall<Blob>)
        ensures
            call@ == self@,
            call@.in_bounds(),
    {
        proof {
            use_type_invariant(self);
        }
        &self.call
    }

    /// The call, which is in bounds.
    pub fn into_call(self) -> (call: GlCall<Blob>)
        ensures
            call@ == self@,
            call@.in_bounds(),
    {
        proof {
            use_type_invariant(&self);
        }
        self.call
    }
}

/// A recording of driver calls, in the order in which they are to be made.
/// The library's operations append to it; whoever owns the context takes the
/// calls out and makes them.
pub struct Gl {
    calls: Vec<Recorded>,
}

impl View for Gl {
    type V = Seq<GlCall<BlobView>>;

    closed spec fn view(&self) -> Seq<GlCall<BlobView>> {
        self.calls@.map_values(|r: Recorded| r@)
    }
}

impl Gl {
    /// An empty recording.
    pub fn new() -> (gl: Gl)
        ensures
            gl@ == Seq::<GlCall<BlobView>>::empty(),
    {
        let gl = Gl { calls: Vec::new() };
        assert(gl@ =~= Seq::<GlCall<BlobView>>::empty());
        gl
    }

    /// Appends one call.
    pub fn push(&mut self, call: GlCall<Blob>)
        requires
            call@.in_bounds(),
        ensures
            final(self)@ == old(self)@.push(call@),
    {
        self.calls.push(Recorded::new(call));
        assert(self@ =~= old(self)@.push(call@));
    }

    /// The number of recorded calls.
    pub fn len(&self) -> (n: usize)
        ensures
            n == self@.len(),
    {
        self.calls.len()
    }

    /// The recorded calls, oldest first.
    pub fn calls(&self) -> (calls: &Vec<Recorded>)
        ensures
            calls@.len() == self@.len(),
            forall|i: int| 0 <= i < calls@.len() ==> (#[trigger] calls@[i])@ == self@[i],
    {
        &self.calls
    }

    /// Takes the recorded calls out, oldest first, and leaves the recording
    /// empty.
    pub fn take(&mut self) -> (calls: Vec<Recorded>)
        ensures
            final(self)@ == Seq::<GlCall<BlobView>>::empty(),
            calls@.len() == old(self)@.len(),
            forall|i: int| 0 <= i < calls@.len() ==> (#[trigger] calls@[i])@ == old(self)@[i],
    {
        let mut calls: Vec<Recorded> = Vec::new();
        core::mem::swap(&mut self.calls, &mut calls);
        assert(self@ =~= Seq::<GlCall<BlobView>>::empty());
        calls
    }
}

} // verus!
