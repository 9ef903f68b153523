//! Textures, shader programs, meshes and render textures.

use crate::buffers::{
    vertex2d_layout, DataType, DrawPrimitive, DrawUsage, ElementBuffer, FrameBuffer, RenderBuffer,
    VertexBuffer,
};
use crate::sys::{unit_quad, Quad, Transform};
use crate::vertex::vertex_words;
use crate::math::Vec2;
use crate::math::{Matrix, Scalar};
use crate::opengl::gl::{self, image_size, Blob, BlobView, Gl, GlCall};
use crate::picture::{
    color_of, flip_vertical, flipped_rows, height_of, image_color, image_height, image_rgba,
    image_width, width_of,
};
use crate::opengl::{
    c_bytes, c_text, gl_compile_failed, gl_compile_shader, gl_compile_shader_from_file,
    gl_create_shader_program, gl_link_failed, gl_link_succeeded, string_from_utf8, utf8_text,
    FILE_READ_ERROR, GL_MAX_LOG_BUFFER_LENGTH, NAME_SIZE, SHADER_COMPILE_ERROR, SHADER_LINK_ERROR,
};
use crate::opengl::{
    gl_set_uniform_2f, gl_set_uniform_3f, gl_set_uniform_4f, gl_set_uniform_f, gl_set_uniform_i,
    gl_set_uniform_matrix_xpose,
};
use vstd::hash_map::StringHashMap;
use vstd::prelude::*;
use vstd::slice::slice_to_vec;
use vstd::string::StringExecFns;
use vstd::utf8::{encode_utf8, valid_utf8};

verus! {

/// The numbers that rectangles and vectors are made of: copyable, with a
/// default value and the four arithmetic operators.
pub trait NumDefault: Copy + Default + core::ops::Add<Output = Self> + core::ops::Sub<
    Output = Self,
> + core::ops::Mul<Output = Self> + core::ops::Div<Output = Self> {

}

impl<
    T: Copy + Default + core::ops::Add<Output = T> + core::ops::Sub<Output = T> + core::ops::Mul<
        Output = T,
    > + core::ops::Div<Output = T>,
> NumDefault for T {

}

/// The layout of the texels that a texture is filled from.
#[derive(Debug, Copy, Clone, PartialEq, Eq, Structural)]
pub enum TextureFormat {
    Alpha,
    Rgb,
    Rgba,
}

impl TextureFormat {
    /// The driver's number for the format.
    pub open spec fn spec_code(self) -> u32 {
        match self {
            TextureFormat::Alpha => gl::ALPHA,
            TextureFormat::Rgb => gl::RGB,
            TextureFormat::Rgba => gl::RGBA,
        }
    }

    #[verifier::when_used_as_spec(spec_code)]
    pub fn code(self) -> (code: u32)
        ensures
            code == self.spec_code(),
    {
        match self {
            TextureFormat::Alpha => gl::ALPHA,
            TextureFormat::Rgb => gl::RGB,
            TextureFormat::Rgba => gl::RGBA,
        }
    }
}

impl TextureFormat {
    /// The format of texels of `channels` samples: three are red, green
    /// and blue, four have alpha too, any other number is taken as alpha
    /// alone.
    pub fn from_channels(channels: u8) -> (format: TextureFormat)
        ensures
            format == match channels {
                3 => TextureFormat::Rgb,
                4 => TextureFormat::Rgba,
                _ => TextureFormat::Alpha,
            },
    {
        match channels {
            3 => TextureFormat::Rgb,
            4 => TextureFormat::Rgba,
            _ => TextureFormat::Alpha,
        }
    }
}

/// What a texture is created from: the texels, bottom row first, and how
/// many there are.
pub struct TextureImage {
    pub data: Vec<u8>,
    pub width: u32,
    pub height: u32,
    pub format: TextureFormat,
}

/// What a file that could not be loaded is reported with, before its name.
pub const LOAD_ERROR: &'static str = "Error loading file: ";

/// What stands between the name of the file and the reason.
pub const LOAD_ERROR_REASON: &'static str = " :: ImageError: ";

/// A two-dimensional texture on the device.
pub struct Texture {
    /// The driver's name for the texture.
    pub id: u32,
    /// The texture unit that the texture is bound to when applied.
    pub unit: u32,
    /// Width and height in texels.
    pub size: Vec2<u32>,
}

impl Texture {
    /// Whether `im` can be copied with four bytes to the pixel: its
    /// samples are whole numbers, the size of a row of the copy fits a
    /// `usize`, and the whole copy fits in one allocation.
    pub open spec fn fits(im: image::DynamicImage) -> bool {
        &&& image_color(im).spec_is_integer()
        &&& 4 * image_width(im) <= usize::MAX
        &&& 4 * image_width(im) * image_height(im) <= isize::MAX
    }

    /// What `from_file` gives for what was opened under `filename`: the
    /// image upside down, as the driver wants it, or the report of why the
    /// file could not be loaded.
    pub open spec fn loaded(
        filename: &str,
        opened: Result<image::DynamicImage, String>,
        result: Result<TextureImage, String>,
    ) -> bool {
        match opened {
            Ok(im) => result matches Ok(t) && t.width == image_width(im) && t.height
                == image_height(im) && t.format == TextureFormat::Rgba && t.data@ == flipped_rows(
                image_rgba(im),
                image_width(im),
                image_height(im),
            ),
            Err(reason) => result matches Err(report) && report@ == LOAD_ERROR@ + filename@
                + LOAD_ERROR_REASON@ + reason@,
        }
    }

    /// The texels for a texture from the image that was opened under
    /// `filename`; `opened` holds the decoded image, or the reason why
    /// there is none.
    pub fn from_file(filename: &str, opened: Result<image::DynamicImage, String>) -> (result:
        Result<TextureImage, String>)
        requires
            opened matches Ok(im) ==> Self::fits(im),
        ensures
            Self::loaded(filename, opened, result),
    {
        let im = match opened {
            Ok(d) => d,
            Err(e) => {
                let report = String::from_str(LOAD_ERROR).concat(filename).concat(
                    LOAD_ERROR_REASON,
                ).concat(e.as_str());
                return Err(report);
            },
        };
        let flipped = flip_vertical(&im);
        let format = TextureFormat::from_channels(flipped.channels);
        Ok(
            TextureImage {
                data: flipped.data,
                width: flipped.width,
                height: flipped.height,
                format,
            },
        )
    }

    /// As `from_file`, for any image: nothing where the image cannot be
    /// copied with four bytes to the pixel.
    pub fn try_from_file(filename: &str, opened: Result<image::DynamicImage, String>) -> (result:
        Option<Result<TextureImage, String>>)
        ensures
            match result {
                Some(r) => Self::loaded(filename, opened, r),
                None => opened matches Ok(im) && !Self::fits(im),
            },
    {
        let fits = match &opened {
            Ok(im) => {
                let w = width_of(im);
                let h = height_of(im);
                assert(4 * w * h <= 0x4_0000_0000_0000_0000) by (nonlinear_arith)
                    requires
                        w <= 0xFFFF_FFFF,
                        h <= 0xFFFF_FFFF,
                ;
                color_of(im).is_integer() && 4 * (w as u128) <= usize::MAX as u128 && 4 * (
                w as u128) * (h as u128) <= isize::MAX as u128
            },
            Err(_) => true,
        };
        if fits {
            Some(Self::from_file(filename, opened))
        } else {
            None
        }
    }

    /// What the driver is handed as the image of a new texture: nothing
    /// where `data` is empty, else `data`.
    pub open spec fn image_data(data: Seq<u8>) -> Option<BlobView> {
        if data.len() == 0 {
            None
        } else {
            Some(BlobView::Bytes(data))
        }
    }

    /// The creation of a texture of `w` by `h` texels in the texture named
    /// `id`: bind it, have it repeat in both directions and filter linearly,
    /// give it its image of four bytes to the texel, and build its mipmaps.
    pub open spec fn create_calls(id: u32, data: Seq<u8>, w: u32, h: u32) -> Seq<GlCall<BlobView>> {
        seq![
            GlCall::BindTexture { target: gl::TEXTURE_2D, texture: id },
            GlCall::TexParameteri {
                target: gl::TEXTURE_2D,
                name: gl::TEXTURE_WRAP_S,
                value: gl::REPEAT as i32,
            },
            GlCall::TexParameteri {
                target: gl::TEXTURE_2D,
                name: gl::TEXTURE_WRAP_T,
                value: gl::REPEAT as i32,
            },
            GlCall::TexParameteri {
                target: gl::TEXTURE_2D,
                name: gl::TEXTURE_MIN_FILTER,
                value: gl::LINEAR as i32,
            },
            GlCall::TexParameteri {
                target: gl::TEXTURE_2D,
                name: gl::TEXTURE_MAG_FILTER,
                value: gl::LINEAR as i32,
            },
            GlCall::TexImage2D {
                target: gl::TEXTURE_2D,
                level: 0,
                internal_format: gl::RGBA as i32,
                width: w as i32,
                height: h as i32,
                border: 0,
                format: gl::RGBA,
                ty: gl::UNSIGNED_BYTE,
                data: Self::image_data(data),
            },
            GlCall::GenerateMipmap { target: gl::TEXTURE_2D },
        ]
    }

    /// The calls that create a texture read no more than `data` holds
    /// under an unpack alignment of one, two or four bytes, the driver's
    /// default: a row of four bytes to the texel is a multiple of each.
    pub proof fn lemma_create_reads_within(
        id: u32,
        data: Seq<u8>,
        w: u32,
        h: u32,
        alignment: i32,
    )
        requires
            data.len() == 0 || 4 * w * h <= data.len(),
            alignment == 1 || alignment == 2 || alignment == 4,
        ensures
            ({
                let calls = Self::create_calls(id, data, w, h);
                forall|i: int|
                    0 <= i < calls.len() ==> (#[trigger] calls[i]).client_read(alignment)
                        <= calls[i].client_size()
            }),
    {
        let calls = Self::create_calls(id, data, w, h);
        let upload = calls[5];
        assert(w >= 0x8000_0000u32 ==> (w as i32) < 0i32) by (bit_vector);
        assert(h >= 0x8000_0000u32 ==> (h as i32) < 0i32) by (bit_vector);
        if data.len() != 0 && (w as i32) > 0 && (h as i32) > 0 {
            assert((w as i32) * (h as i32) * 4 * 1 == 4 * w * h) by (nonlinear_arith)
                requires
                    (w as i32) == w,
                    (h as i32) == h,
            ;
            assert(((w as i32) * 4 * 1) % 4 == 0 && ((w as i32) * 4 * 1) % 2 == 0);
            assert(gl::row_size(w as i32, gl::RGBA, gl::UNSIGNED_BYTE) == (w as i32) * 4 * 1);
            upload.lemma_in_bounds_reads_within(alignment);
        }
        assert forall|i: int| 0 <= i < calls.len() implies (#[trigger] calls[i]).client_read(
            alignment,
        ) <= calls[i].client_size() by {
            if i == 5 {
                assert(calls[i] == upload);
            }
        }
    }

    /// Creates a texture of `w` by `h` texels in the fresh texture `id`. The
    /// image is read from `data` as four bytes to the texel, whatever
    /// `format` says; with no data the image is left undefined.
    pub fn from_memory(
        gl: &mut Gl,
        id: u32,
        data: Vec<u8>,
        w: u32,
        h: u32,
        format: TextureFormat,
    ) -> (t: Texture)
        requires
            data@.len() == 0 || 4 * w * h <= data@.len(),
        ensures
            t.id == id,
            t.unit == gl::TEXTURE0,
            t.size.x == w,
            t.size.y == h,
            final(gl)@ == old(gl)@ + Self::create_calls(id, data@, w, h),
    {
        gl.push(GlCall::BindTexture { target: gl::TEXTURE_2D, texture: id });
        gl.push(
            GlCall::TexParameteri {
                target: gl::TEXTURE_2D,
                name: gl::TEXTURE_WRAP_S,
                value: gl::REPEAT as i32,
            },
        );
        gl.push(
            GlCall::TexParameteri {
                target: gl::TEXTURE_2D,
                name: gl::TEXTURE_WRAP_T,
                value: gl::REPEAT as i32,
            },
        );
        gl.push(
            GlCall::TexParameteri {
                target: gl::TEXTURE_2D,
                name: gl::TEXTURE_MIN_FILTER,
                value: gl::LINEAR as i32,
            },
        );
        gl.push(
            GlCall::TexParameteri {
                target: gl::TEXTURE_2D,
                name: gl::TEXTURE_MAG_FILTER,
                value: gl::LINEAR as i32,
            },
        );
        let ghost bytes = data@;
        assert(w >= 0x8000_0000u32 ==> (w as i32) < 0i32) by (bit_vector);
        assert(h >= 0x8000_0000u32 ==> (h as i32) < 0i32) by (bit_vector);
        assert(image_size(w as i32, h as i32, gl::RGBA, gl::UNSIGNED_BYTE) <= 4 * w * h) by {
            if w < 0x8000_0000u32 && h < 0x8000_0000u32 {
                assert((w as i32) * (h as i32) * 4 * 1 == 4 * w * h) by (nonlinear_arith)
                    requires
                        (w as i32) == w,
                        (h as i32) == h,
                ;
            }
        }
        let image = if data.len() == 0 {
            None
        } else {
            Some(Blob::Bytes(data))
        };
        gl.push(
            GlCall::TexImage2D {
                target: gl::TEXTURE_2D,
                level: 0,
                internal_format: gl::RGBA as i32,
                width: #[verifier::truncate] (w as i32),
                height: #[verifier::truncate] (h as i32),
                border: 0,
                format: gl::RGBA,
                ty: gl::UNSIGNED_BYTE,
                data: image,
            },
        );
        gl.push(GlCall::GenerateMipmap { target: gl::TEXTURE_2D });
        assert(gl@ =~= old(gl)@ + Self::create_calls(id, bytes, w, h));
        Texture { id, unit: gl::TEXTURE0, size: Vec2::new(w, h) }
    }

    /// A texture of one opaque white texel in the fresh texture `id`.
    pub fn new_blank(gl: &mut Gl, id: u32) -> (t: Texture)
        ensures
            t.id == id,
            t.unit == gl::TEXTURE0,
            t.size.x == 1,
            t.size.y == 1,
            final(gl)@ == old(gl)@ + Self::create_calls(id, seq![255u8, 255u8, 255u8, 255u8], 1, 1),
    {
        let mut texture_data: Vec<u8> = Vec::new();
        texture_data.push(255);
        texture_data.push(255);
        texture_data.push(255);
        texture_data.push(255);
        assert(texture_data@ =~= seq![255u8, 255u8, 255u8, 255u8]);
        Texture::from_memory(gl, id, texture_data, 1, 1, TextureFormat::Rgba)
    }

    /// Sets the alignment of the rows of the images that the driver reads.
    pub fn set_alignment(gl: &mut Gl, alignment: i32)
        ensures
            final(gl)@ == old(gl)@.push(
                GlCall::PixelStorei { name: gl::UNPACK_ALIGNMENT, value: alignment },
            ),
    {
        gl.push(GlCall::PixelStorei { name: gl::UNPACK_ALIGNMENT, value: alignment });
    }

    pub fn unit(&self) -> (unit: u32)
        ensures
            unit == self.unit,
    {
        self.unit
    }

    /// Moves the texture to the texture unit numbered `unit_num`.
    pub fn set_unit(&mut self, unit_num: u32)
        requires
            gl::TEXTURE0 + unit_num <= u32::MAX,
        ensures
            final(self).unit == gl::TEXTURE0 + unit_num,
            final(self).id == old(self).id,
            final(self).size == old(self).size,
    {
        self.unit = gl::TEXTURE0 + unit_num;
    }

    /// The calls that bind the texture to its unit.
    pub open spec fn apply_calls(self) -> Seq<GlCall<BlobView>> {
        seq![
            GlCall::ActiveTexture { unit: self.unit },
            GlCall::BindTexture { target: gl::TEXTURE_2D, texture: self.id },
        ]
    }

    /// Replaces the `w` by `h` texels at `offset` with those in `data`.
    pub fn write(
        &self,
        gl: &mut Gl,
        offset: Vec2<i32>,
        w: i32,
        h: i32,
        format: TextureFormat,
        dtype: DataType,
        data: Vec<u8>,
    )
        requires
            image_size(w, h, format.spec_code(), dtype.spec_code()) <= data@.len(),
        ensures
            final(gl)@ == old(gl)@ + self.apply_calls().push(
                GlCall::TexSubImage2D {
                    target: gl::TEXTURE_2D,
                    level: 0,
                    x: offset.x,
                    y: offset.y,
                    width: w,
                    height: h,
                    format: format.spec_code(),
                    ty: dtype.spec_code(),
                    data: BlobView::Bytes(data@),
                },
            ),
    {
        self.apply(gl);
        let ghost bytes = data@;
        gl.push(
            GlCall::TexSubImage2D {
                target: gl::TEXTURE_2D,
                level: 0,
                x: offset.x,
                y: offset.y,
                width: w,
                height: h,
                format: format.code(),
                ty: dtype.code(),
                data: Blob::Bytes(data),
            },
        );
        assert(gl@ =~= old(gl)@ + self.apply_calls().push(
            GlCall::TexSubImage2D {
                target: gl::TEXTURE_2D,
                level: 0,
                x: offset.x,
                y: offset.y,
                width: w,
                height: h,
                format: format.spec_code(),
                ty: dtype.spec_code(),
                data: BlobView::Bytes(bytes),
            },
        ));
    }

    pub fn id(&self) -> (id: u32)
        ensures
            id == self.id,
    {
        self.id
    }

    /// Binds the texture to its unit.
    pub fn apply(&self, gl: &mut Gl)
        ensures
            final(gl)@ == old(gl)@ + self.apply_calls(),
    {
        gl.push(GlCall::ActiveTexture { unit: self.unit() });
        gl.push(GlCall::BindTexture { target: gl::TEXTURE_2D, texture: self.id });
        assert(gl@ =~= old(gl)@ + self.apply_calls());
    }

    /// Gives the texture back to the driver.
    pub fn delete(self, gl: &mut Gl)
        ensures
            final(gl)@ == old(gl)@.push(GlCall::DeleteTextures { texture: self.id }),
    {
        gl.push(GlCall::DeleteTextures { texture: self.id });
    }
}

/// What every fragment shader made from a template starts with.
pub const FRAG_TEMPLATE_VARS: &'static str =
    "\n#version 330\nout vec4 FragColor;\nin vec2 TexCoord;\nin vec4 Color;\nin vec3 FragPos;\n\nuniform sampler2D u_texture;\n\0";

/// What every fragment shader made from a template ends with.
pub const FRAG_TEMPLATE_MAIN: &'static str =
    "\nvoid main()\n{\n    FragColor = effect(Color, u_texture, TexCoord, FragPos);\n}\n\0";

/// What every vertex shader made from a template starts with.
pub const VERT_TEMPLATE_DECLS: &'static str =
    "#version 330\n    layout(location = 0) in vec3 l_pos;\n    layout(location = 1) in vec2 l_texCoords;\n    layout(location = 2) in vec4 l_color;\n\n    out vec2 TexCoord;\n    out vec4 Color;\n    out vec3 FragPos;\n\n    uniform mat4 u_model;\n    uniform mat4 u_view;\n    uniform mat4 u_projection;\n\0";

/// What every vertex shader made from a template ends with.
pub const VERT_TEMPLATE_MAIN: &'static str =
    "\nvoid main()\n{\n    TexCoord = l_texCoords;\n    Color = l_color;\n\n    FragPos = vec3(u_model * vec4(l_pos, 1.0));\n\n    gl_Position = position(u_projection * u_view * u_model, vec4(l_pos.x, l_pos.y, l_pos.z, 1.0));\n}\n\0";

/// What every instanced vertex shader made from a template starts with.
pub const VERT_TEMPLATE_DECLS_INSTANCED: &'static str =
    "#version 330\n    layout(location = 0) in vec3 l_pos;\n    layout(location = 1) in vec2 l_texCoords;\n    layout(location = 2) in vec4 l_color;\n    layout(location = 3) in mat4 l_matrixMVP;\n    layout(location = 7) in mat4 u_modelMatrix;\n\n    out vec2 TexCoord;\n    out vec4 Color;\n    out vec3 FragPos;\n    mat4 matrixMVP = l_matrixMVP;\n\0";

/// The vertex shader used where none is given.
pub const DEFAULT_VERT: &'static str =
    "#version 330\n    layout(location = 0) in vec3 l_pos;\n    layout(location = 1) in vec2 l_texCoords;\n    layout(location = 2) in vec4 l_color;\n\n    out vec2 TexCoord;\n    out vec4 Color;\n    out vec3 FragPos;\n\n    uniform mat4 u_model;\n    uniform mat4 u_view;\n    uniform mat4 u_projection;\n\n    void main()\n    {\n        TexCoord = l_texCoords;\n        Color = l_color;\n\n        mat4 mvp = u_projection * u_view * u_model;\n        gl_Position = mvp * vec4(l_pos, 1.0);\n    }\n\0";

/// The instanced vertex shader used where none is given.
pub const DEFAULT_INSTANCED_VERT: &'static str =
    "#version 330\nlayout(location = 0) in vec3 l_pos;\nlayout(location = 1) in vec2 l_texCoords;\nlayout(location = 2) in vec4 l_color;\nlayout(location = 3) in mat4 l_matrixMVP;\nlayout(location = 7) in mat4 u_modelMatrix;\n\nout vec2 TexCoord;\nout vec4 Color;\nout vec3 FragPos;\n\nvoid main()\n{\n    TexCoord = l_texCoords;\n    Color = l_color;\n\n    FragPos = vec3(u_modelMatrix * vec4(l_pos, 1.0));\n\n    gl_Position = l_matrixMVP * vec4(l_pos, 1.0);\n}\n\0";

/// The fragment shader used where none is given.
pub const DEFAULT_FRAG: &'static str =
    "#version 330\nout vec4 FragColor;\n\nin vec4 Color;\nin vec2 TexCoord;\nuniform sampler2D u_texture;\n\nvoid main()\n{\n\tFragColor = texture(u_texture, TexCoord) * Color;\n}\n\0";

/// The stage of the pipeline that a shader runs in.
#[derive(Debug, Copy, Clone, PartialEq, Eq, Structural)]
pub enum ShaderType {
    Vertex,
    Fragment,
}

impl ShaderType {
    /// The driver's number for the stage.
    pub open spec fn spec_code(self) -> u32 {
        match self {
            ShaderType::Vertex => gl::VERTEX_SHADER,
            ShaderType::Fragment => gl::FRAGMENT_SHADER,
        }
    }

    #[verifier::when_used_as_spec(spec_code)]
    pub fn code(self) -> (code: u32)
        ensures
            code == self.spec_code(),
    {
        match self {
            ShaderType::Vertex => gl::VERTEX_SHADER,
            ShaderType::Fragment => gl::FRAGMENT_SHADER,
        }
    }
}

/// A linked shader program, with the locations of its uniforms by name.
pub struct Shader {
    /// The driver's name for the program.
    pub id: u32,
    /// The location of each known uniform.
    pub uniform_locations: StringHashMap<i32>,
}

impl Shader {
    /// Whether `bytes` is the UTF-8 encoding of some text, as the parts of a
    /// shader source have to be.
    pub fn is_source_text(bytes: &[u8]) -> (ok: bool)
        ensures
            ok == valid_utf8(bytes@),
    {
        string_from_utf8(slice_to_vec(bytes)).is_some()
    }

    /// The building of a program from the two files named.
    pub fn from_file(vert_filename: &str, frag_filename: &str) -> (build: ShaderBuild)
        ensures
            build matches ShaderBuild::ReadVertex { path, frag: ShaderSource::File(frag) }
                && path@ == vert_filename@ && frag@ == frag_filename@,
    {
        ShaderBuild::start(
            ShaderSource::File(String::from_str(vert_filename)),
            ShaderSource::File(String::from_str(frag_filename)),
        )
    }

    /// The building of a program from the two sources.
    pub fn from_memory(vert: Vec<u8>, frag: Vec<u8>) -> (build: ShaderBuild)
        ensures
            build == (ShaderBuild::CreateVertex { vert, frag: ShaderSource::Memory(frag) }),
    {
        ShaderBuild::start(ShaderSource::Memory(vert), ShaderSource::Memory(frag))
    }

    /// The source that a template makes of `body`: `body` between the
    /// bytes of `head` and those of `tail`.
    pub open spec fn template(head: &str, body: Seq<u8>, tail: &str) -> Seq<u8> {
        encode_utf8(head@) + body + encode_utf8(tail@)
    }

    /// Whether `build` is the first state of the building of a program
    /// from the sources `vert` and `frag`.
    pub open spec fn builds(build: ShaderBuild, vert: Seq<u8>, frag: Seq<u8>) -> bool {
        build matches ShaderBuild::CreateVertex { vert: v, frag: ShaderSource::Memory(f) } && v@
            == vert && f@ == frag
    }

    /// The building of a program whose vertex shader places vertices with
    /// `position` and whose fragment shader colours with `effect`.
    pub fn from_template(position: &[u8], effect: &[u8]) -> (build: ShaderBuild)
        requires
            valid_utf8(position@),
            valid_utf8(effect@),
        ensures
            Self::builds(
                build,
                Self::template(VERT_TEMPLATE_DECLS, position@, VERT_TEMPLATE_MAIN),
                Self::template(FRAG_TEMPLATE_VARS, effect@, FRAG_TEMPLATE_MAIN),
            ),
    {
        broadcast use vstd::utf8::encode_utf8_valid_utf8;

        let vert_full = Self::concat_shader_sources(
            VERT_TEMPLATE_DECLS.as_bytes(),
            position,
            VERT_TEMPLATE_MAIN.as_bytes(),
        );
        let frag_full = Self::concat_shader_sources(
            FRAG_TEMPLATE_VARS.as_bytes(),
            effect,
            FRAG_TEMPLATE_MAIN.as_bytes(),
        );
        Self::from_memory(vert_full, frag_full)
    }

    /// The building of a program whose vertex shader places vertices with
    /// `position`, with the default fragment shader.
    pub fn from_vert_template(position: &[u8]) -> (build: ShaderBuild)
        requires
            valid_utf8(position@),
        ensures
            Self::builds(
                build,
                Self::template(VERT_TEMPLATE_DECLS, position@, VERT_TEMPLATE_MAIN),
                encode_utf8(DEFAULT_FRAG@),
            ),
    {
        broadcast use vstd::utf8::encode_utf8_valid_utf8;

        let vert_full = Shader::concat_shader_sources(
            VERT_TEMPLATE_DECLS.as_bytes(),
            position,
            VERT_TEMPLATE_MAIN.as_bytes(),
        );
        let frag_full = slice_to_vec(DEFAULT_FRAG.as_bytes());
        Shader::from_memory(vert_full, frag_full)
    }

    /// The building of a program whose fragment shader colours with
    /// `effect`, with the default vertex shader.
    pub fn from_frag_template(effect: &[u8]) -> (build: ShaderBuild)
        requires
            valid_utf8(effect@),
        ensures
            Self::builds(
                build,
                encode_utf8(DEFAULT_VERT@),
                Self::template(FRAG_TEMPLATE_VARS, effect@, FRAG_TEMPLATE_MAIN),
            ),
    {
        broadcast use vstd::utf8::encode_utf8_valid_utf8;

        let vert_full = slice_to_vec(DEFAULT_VERT.as_bytes());
        let frag_full = Shader::concat_shader_sources(
            FRAG_TEMPLATE_VARS.as_bytes(),
            effect,
            FRAG_TEMPLATE_MAIN.as_bytes(),
        );
        Shader::from_memory(vert_full, frag_full)
    }

    /// The source of the instanced vertex shader: the template around
    /// `position`, or the default where there is none.
    pub open spec fn instanced_vert(position: Option<Vec<u8>>) -> Seq<u8> {
        match position {
            Some(s) => Self::template(VERT_TEMPLATE_DECLS_INSTANCED, s@, VERT_TEMPLATE_MAIN),
            None => encode_utf8(DEFAULT_INSTANCED_VERT@),
        }
    }

    /// The source of the fragment shader: the template around `effect`, or
    /// the default where there is none.
    pub open spec fn instanced_frag(effect: Option<Vec<u8>>) -> Seq<u8> {
        match effect {
            Some(s) => Self::template(FRAG_TEMPLATE_VARS, s@, FRAG_TEMPLATE_MAIN),
            None => encode_utf8(DEFAULT_FRAG@),
        }
    }

    /// The building of an instanced program; at least one of `position`
    /// and `effect` has to be given.
    pub fn from_template_instanced(position: Option<Vec<u8>>, effect: Option<Vec<u8>>) -> (build:
        ShaderBuild)
        requires
            position is Some || effect is Some,
            position matches Some(s) ==> valid_utf8(s@),
            effect matches Some(s) ==> valid_utf8(s@),
        ensures
            Self::builds(build, Self::instanced_vert(position), Self::instanced_frag(effect)),
    {
        broadcast use vstd::utf8::encode_utf8_valid_utf8;

        let vert_full = match &position {
            Some(s) => Shader::concat_shader_sources(
                VERT_TEMPLATE_DECLS_INSTANCED.as_bytes(),
                s.as_slice(),
                VERT_TEMPLATE_MAIN.as_bytes(),
            ),
            None => slice_to_vec(DEFAULT_INSTANCED_VERT.as_bytes()),
        };
        let frag_full = match &effect {
            Some(s) => Shader::concat_shader_sources(
                FRAG_TEMPLATE_VARS.as_bytes(),
                s.as_slice(),
                FRAG_TEMPLATE_MAIN.as_bytes(),
            ),
            None => slice_to_vec(DEFAULT_FRAG.as_bytes()),
        };
        Shader::from_memory(vert_full, frag_full)
    }

    /// The building of the default instanced program.
    pub fn default_instanced() -> (build: ShaderBuild)
        ensures
            Self::builds(
                build,
                encode_utf8(DEFAULT_INSTANCED_VERT@),
                encode_utf8(DEFAULT_FRAG@),
            ),
    {
        Self::from_memory(
            slice_to_vec(DEFAULT_INSTANCED_VERT.as_bytes()),
            slice_to_vec(DEFAULT_FRAG.as_bytes()),
        )
    }

    /// The building of the default program.
    pub fn default_program() -> (build: ShaderBuild)
        ensures
            Self::builds(build, encode_utf8(DEFAULT_VERT@), encode_utf8(DEFAULT_FRAG@)),
    {
        Self::from_memory(
            slice_to_vec(DEFAULT_VERT.as_bytes()),
            slice_to_vec(DEFAULT_FRAG.as_bytes()),
        )
    }

    pub fn set_uniform_4f(&self, gl: &mut Gl, name: &str, floats: (Scalar, Scalar, Scalar, Scalar))
        requires
            self.uniform_locations@.contains_key(name@),
        ensures
            final(gl)@ == old(gl)@ + seq![
                GlCall::<BlobView>::UseProgram { program: self.id },
                GlCall::<BlobView>::Uniform4f {
                    location: self.uniform_locations@[name@],
                    v0: floats.0,
                    v1: floats.1,
                    v2: floats.2,
                    v3: floats.3,
                },
            ],
    {
        self.apply(gl);
        gl_set_uniform_4f(gl, self.location(name), floats);
        assert(gl@ =~= old(gl)@ + seq![
            GlCall::<BlobView>::UseProgram { program: self.id },
            GlCall::<BlobView>::Uniform4f {
                location: self.uniform_locations@[name@],
                v0: floats.0,
                v1: floats.1,
                v2: floats.2,
                v3: floats.3,
            },
        ]);
    }

    pub fn set_uniform_3f(&self, gl: &mut Gl, name: &str, floats: (Scalar, Scalar, Scalar))
        requires
            self.uniform_locations@.contains_key(name@),
        ensures
            final(gl)@ == old(gl)@ + seq![
                GlCall::<BlobView>::UseProgram { program: self.id },
                GlCall::<BlobView>::Uniform3f {
                    location: self.uniform_locations@[name@],
                    v0: floats.0,
                    v1: floats.1,
                    v2: floats.2,
                },
            ],
    {
        self.apply(gl);
        gl_set_uniform_3f(gl, self.location(name), floats);
        assert(gl@ =~= old(gl)@ + seq![
            GlCall::<BlobView>::UseProgram { program: self.id },
            GlCall::<BlobView>::Uniform3f {
                location: self.uniform_locations@[name@],
                v0: floats.0,
                v1: floats.1,
                v2: floats.2,
            },
        ]);
    }

    pub fn set_uniform_2f(&self, gl: &mut Gl, name: &str, floats: (Scalar, Scalar))
        requires
            self.uniform_locations@.contains_key(name@),
        ensures
            final(gl)@ == old(gl)@ + seq![
                GlCall::<BlobView>::UseProgram { program: self.id },
                GlCall::<BlobView>::Uniform2f {
                    location: self.uniform_locations@[name@],
                    v0: floats.0,
                    v1: floats.1,
                },
            ],
    {
        self.apply(gl);
        gl_set_uniform_2f(gl, self.location(name), floats);
        assert(gl@ =~= old(gl)@ + seq![
            GlCall::<BlobView>::UseProgram { program: self.id },
            GlCall::<BlobView>::Uniform2f {
                location: self.uniform_locations@[name@],
                v0: floats.0,
                v1: floats.1,
            },
        ]);
    }

    pub fn set_uniform_f(&self, gl: &mut Gl, name: &str, n: Scalar)
        requires
            self.uniform_locations@.contains_key(name@),
        ensures
            final(gl)@ == old(gl)@ + seq![
                GlCall::<BlobView>::UseProgram { program: self.id },
                GlCall::<BlobView>::Uniform1f { location: self.uniform_locations@[name@], v0: n },
            ],
    {
        self.apply(gl);
        gl_set_uniform_f(gl, self.location(name), n);
        assert(gl@ =~= old(gl)@ + seq![
            GlCall::<BlobView>::UseProgram { program: self.id },
            GlCall::<BlobView>::Uniform1f { location: self.uniform_locations@[name@], v0: n },
        ]);
    }

    pub fn set_uniform_i(&self, gl: &mut Gl, name: &str, n: i32)
        requires
            self.uniform_locations@.contains_key(name@),
        ensures
            final(gl)@ == old(gl)@ + seq![
                GlCall::<BlobView>::UseProgram { program: self.id },
                GlCall::<BlobView>::Uniform1i { location: self.uniform_locations@[name@], v0: n },
            ],
    {
        self.apply(gl);
        gl_set_uniform_i(gl, self.location(name), n);
        assert(gl@ =~= old(gl)@ + seq![
            GlCall::<BlobView>::UseProgram { program: self.id },
            GlCall::<BlobView>::Uniform1i { location: self.uniform_locations@[name@], v0: n },
        ]);
    }

    /// The calls that make the program current and set its matrix uniform
    /// at `location`.
    pub open spec fn set_matrix_calls(self, location: i32, mat: Matrix, transpose: bool) -> Seq<
        GlCall<BlobView>,
    > {
        seq![
            GlCall::UseProgram { program: self.id },
            GlCall::UniformMatrix4fv { location, transpose, value: mat },
        ]
    }

    pub fn set_uniform_matrix(&self, gl: &mut Gl, name: &str, mat: &Matrix)
        requires
            self.uniform_locations@.contains_key(name@),
        ensures
            final(gl)@ == old(gl)@ + self.set_matrix_calls(
                self.uniform_locations@[name@],
                *mat,
                false,
            ),
    {
        self.set_uniform_matrix_xpose(gl, name, mat, false)
    }

    pub fn set_uniform_matrix_xpose(&self, gl: &mut Gl, name: &str, mat: &Matrix, transpose: bool)
        requires
            self.uniform_locations@.contains_key(name@),
        ensures
            final(gl)@ == old(gl)@ + self.set_matrix_calls(
                self.uniform_locations@[name@],
                *mat,
                transpose,
            ),
    {
        self.apply(gl);
        gl_set_uniform_matrix_xpose(gl, self.location(name), mat, transpose);
        assert(gl@ =~= old(gl)@ + self.set_matrix_calls(
            self.uniform_locations@[name@],
            *mat,
            transpose,
        ));
    }

    /// The location of the uniform `name`, where it is known.
    pub fn uniform_location(&self, name: &str) -> (location: Option<i32>)
        ensures
            location == if self.uniform_locations@.contains_key(name@) {
                Some(self.uniform_locations@[name@])
            } else {
                None
            },
    {
        match self.uniform_locations.get(name) {
            Some(location) => Some(*location),
            None => None,
        }
    }

    fn location(&self, name: &str) -> (location: i32)
        requires
            self.uniform_locations@.contains_key(name@),
        ensures
            location == self.uniform_locations@[name@],
    {
        match self.uniform_locations.get(name) {
            Some(location) => *location,
            None => 0,
        }
    }

    /// Records that the driver has the uniform `name` at `location`.
    pub fn register_uniform(&mut self, name: &str, location: i32)
        ensures
            final(self).id == old(self).id,
            final(self).uniform_locations@ == old(self).uniform_locations@.insert(name@, location),
    {
        let k = String::from_str(name);
        self.uniform_locations.insert(k, location);
    }

    /// Makes the program current.
    pub fn apply(&self, gl: &mut Gl)
        ensures
            final(gl)@ == old(gl)@.push(GlCall::UseProgram { program: self.id }),
    {
        gl.push(GlCall::UseProgram { program: self.id });
    }

    /// The linked program `id` with its uniforms.
    pub fn new(id: u32, uniform_locations: StringHashMap<i32>) -> (shader: Self)
        ensures
            shader.id == id,
            shader.uniform_locations == uniform_locations,
    {
        Shader { id, uniform_locations }
    }

    /// The three parts of a source one after the other.
    pub fn concat_shader_sources(a: &[u8], b: &[u8], c: &[u8]) -> (source: Vec<u8>)
        requires
            valid_utf8(a@),
            valid_utf8(b@),
            valid_utf8(c@),
        ensures
            source@ == a@ + b@ + c@,
    {
        let mut result: Vec<u8> = slice_to_vec(a);
        result.extend_from_slice(b);
        result.extend_from_slice(c);
        result
    }

    /// Gives the program back to the driver.
    pub fn delete(self, gl: &mut Gl)
        ensures
            final(gl)@ == old(gl)@.push(GlCall::DeleteProgram { program: self.id }),
    {
        gl.push(GlCall::DeleteProgram { program: self.id });
    }
}

/// Where the source of a shader comes from.
pub enum ShaderSource {
    /// The source itself.
    Memory(Vec<u8>),
    /// The path of the file that holds it.
    File(String),
}

/// What the building of a shader asks of its surroundings next.
pub enum ShaderQuery {
    /// The contents of the file at `path`.
    ReadFile { path: String },
    /// The name of a new shader object of kind `ty`.
    CreateShader { ty: u32 },
    /// Whether the shader compiled: zero where it did not.
    CompileStatus { shader: u32 },
    /// The first `capacity` bytes of the shader's info log, zero-terminated.
    ShaderInfoLog { shader: u32, capacity: usize },
    /// The name of a new program object.
    CreateProgram,
    /// Whether the program linked: zero where it did not.
    LinkStatus { program: u32 },
    /// The first `capacity` bytes of the program's info log, zero-terminated.
    ProgramInfoLog { program: u32, capacity: usize },
    /// The number of active uniforms of the program.
    ActiveUniforms { program: u32 },
    /// The first `capacity` bytes of the name of the program's active
    /// uniform number `index`, zero-terminated.
    ActiveUniformName { program: u32, index: u32, capacity: usize },
    /// The location of the program's uniform `name`.
    UniformLocation { program: u32, name: String },
}

/// An answer to a [`ShaderQuery`].
pub enum ShaderReply {
    /// The name of a new object.
    Name(u32),
    /// A status, a count or a location.
    Int(i32),
    /// Zero-terminated text in a buffer.
    Text(Vec<u8>),
    /// The contents of a file, or why it could not be read.
    File(Result<String, String>),
}

/// The building of a shader program, step by step: each state asks one
/// thing of its surroundings, and the answer decides the calls to make and
/// the next state.
pub enum ShaderBuild {
    ReadVertex { path: String, frag: ShaderSource },
    CreateVertex { vert: Vec<u8>, frag: ShaderSource },
    VertexStatus { vs: u32, frag: ShaderSource },
    VertexLog { vs: u32 },
    ReadFragment { vs: u32, path: String },
    CreateFragment { vs: u32, frag: Vec<u8> },
    FragmentStatus { vs: u32, fs: u32 },
    FragmentLog { fs: u32 },
    CreateProgram { vs: u32, fs: u32 },
    LinkStatus { id: u32, vs: u32, fs: u32 },
    LinkLog { id: u32 },
    UniformCount { id: u32 },
    UniformName { id: u32, count: i32, index: i32, uniforms: StringHashMap<i32> },
    UniformLocation { id: u32, count: i32, index: i32, name: String, uniforms: StringHashMap<i32> },
    /// The shader, or the report of what failed.
    Done(Result<Shader, String>),
}

impl ShaderBuild {
    /// The state that takes up the vertex shader from `vert`.
    pub fn start(vert: ShaderSource, frag: ShaderSource) -> (build: ShaderBuild)
        ensures
            build == match vert {
                ShaderSource::Memory(source) => ShaderBuild::CreateVertex { vert: source, frag },
                ShaderSource::File(path) => ShaderBuild::ReadVertex { path, frag },
            },
    {
        match vert {
            ShaderSource::Memory(source) => ShaderBuild::CreateVertex { vert: source, frag },
            ShaderSource::File(path) => ShaderBuild::ReadVertex { path, frag },
        }
    }

    /// The state that takes up the fragment shader from `frag`, once the
    /// vertex shader `vs` has compiled.
    pub open spec fn fragment_state(vs: u32, frag: ShaderSource) -> ShaderBuild {
        match frag {
            ShaderSource::Memory(source) => ShaderBuild::CreateFragment { vs, frag: source },
            ShaderSource::File(path) => ShaderBuild::ReadFragment { vs, path },
        }
    }

    /// Whether `text` holds zero-terminated text in valid UTF-8.
    pub open spec fn is_text(text: Seq<u8>) -> bool {
        utf8_text(c_bytes(text)) is Some
    }

    /// Whether `reply` answers what the state asks.
    pub open spec fn spec_accepts(&self, reply: &ShaderReply) -> bool {
        match self {
            ShaderBuild::ReadVertex { .. } | ShaderBuild::ReadFragment { .. } => reply is File,
            ShaderBuild::CreateVertex { .. }
            | ShaderBuild::CreateFragment { .. }
            | ShaderBuild::CreateProgram { .. } => reply is Name,
            ShaderBuild::VertexStatus { .. }
            | ShaderBuild::FragmentStatus { .. }
            | ShaderBuild::LinkStatus { .. }
            | ShaderBuild::UniformCount { .. }
            | ShaderBuild::UniformLocation { .. } => reply is Int,
            ShaderBuild::VertexLog { .. }
            | ShaderBuild::FragmentLog { .. }
            | ShaderBuild::LinkLog { .. }
            | ShaderBuild::UniformName { .. } => reply matches ShaderReply::Text(text)
                && Self::is_text(text@),
            ShaderBuild::Done(_) => false,
        }
    }

    /// Whether `reply` answers what the state asks.
    #[verifier::when_used_as_spec(spec_accepts)]
    pub fn accepts(&self, reply: &ShaderReply) -> (ok: bool)
        ensures
            ok == self.spec_accepts(reply),
    {
        match self {
            ShaderBuild::ReadVertex { .. } | ShaderBuild::ReadFragment { .. } => match reply {
                ShaderReply::File(_) => true,
                _ => false,
            },
            ShaderBuild::CreateVertex { .. }
            | ShaderBuild::CreateFragment { .. }
            | ShaderBuild::CreateProgram { .. } => match reply {
                ShaderReply::Name(_) => true,
                _ => false,
            },
            ShaderBuild::VertexStatus { .. }
            | ShaderBuild::FragmentStatus { .. }
            | ShaderBuild::LinkStatus { .. }
            | ShaderBuild::UniformCount { .. }
            | ShaderBuild::UniformLocation { .. } => match reply {
                ShaderReply::Int(_) => true,
                _ => false,
            },
            ShaderBuild::VertexLog { .. }
            | ShaderBuild::FragmentLog { .. }
            | ShaderBuild::LinkLog { .. }
            | ShaderBuild::UniformName { .. } => match reply {
                ShaderReply::Text(text) => c_text(text.as_slice()).is_some(),
                _ => false,
            },
            ShaderBuild::Done(_) => false,
        }
    }

    /// What the state asks next; nothing once the building is done.
    pub fn query(&self) -> (query: Option<ShaderQuery>)
        ensures
            match *self {
                ShaderBuild::ReadVertex { path, .. } | ShaderBuild::ReadFragment { path, .. } => {
                    query matches Some(ShaderQuery::ReadFile { path: p }) && p@ == path@
                },
                ShaderBuild::CreateVertex { .. } => query == Some(
                    ShaderQuery::CreateShader { ty: gl::VERTEX_SHADER },
                ),
                ShaderBuild::CreateFragment { .. } => query == Some(
                    ShaderQuery::CreateShader { ty: gl::FRAGMENT_SHADER },
                ),
                ShaderBuild::VertexStatus { vs, .. } => query == Some(
                    ShaderQuery::CompileStatus { shader: vs },
                ),
                ShaderBuild::FragmentStatus { fs, .. } => query == Some(
                    ShaderQuery::CompileStatus { shader: fs },
                ),
                ShaderBuild::VertexLog { vs } => query == Some(
                    ShaderQuery::ShaderInfoLog { shader: vs, capacity: GL_MAX_LOG_BUFFER_LENGTH },
                ),
                ShaderBuild::FragmentLog { fs } => query == Some(
                    ShaderQuery::ShaderInfoLog { shader: fs, capacity: GL_MAX_LOG_BUFFER_LENGTH },
                ),
                ShaderBuild::CreateProgram { .. } => query == Some(ShaderQuery::CreateProgram),
                ShaderBuild::LinkStatus { id, .. } => query == Some(
                    ShaderQuery::LinkStatus { program: id },
                ),
                ShaderBuild::LinkLog { id } => query == Some(
                    ShaderQuery::ProgramInfoLog { program: id, capacity: GL_MAX_LOG_BUFFER_LENGTH },
                ),
                ShaderBuild::UniformCount { id } => query == Some(
                    ShaderQuery::ActiveUniforms { program: id },
                ),
                ShaderBuild::UniformName { id, index, .. } => query == Some(
                    ShaderQuery::ActiveUniformName {
                        program: id,
                        index: index as u32,
                        capacity: NAME_SIZE,
                    },
                ),
                ShaderBuild::UniformLocation { id, name, .. } => {
                    query matches Some(ShaderQuery::UniformLocation { program, name: n })
                        && program == id && n@ == name@
                },
                ShaderBuild::Done(_) => query is None,
            },
    {
        match self {
            ShaderBuild::ReadVertex { path, .. } | ShaderBuild::ReadFragment { path, .. } => Some(
                ShaderQuery::ReadFile { path: path.clone() },
            ),
            ShaderBuild::CreateVertex { .. } => Some(
                ShaderQuery::CreateShader { ty: ShaderType::Vertex.code() },
            ),
            ShaderBuild::CreateFragment { .. } => Some(
                ShaderQuery::CreateShader { ty: ShaderType::Fragment.code() },
            ),
            ShaderBuild::VertexStatus { vs, .. } => Some(
                ShaderQuery::CompileStatus { shader: *vs },
            ),
            ShaderBuild::FragmentStatus { fs, .. } => Some(
                ShaderQuery::CompileStatus { shader: *fs },
            ),
            ShaderBuild::VertexLog { vs } => Some(
                ShaderQuery::ShaderInfoLog { shader: *vs, capacity: GL_MAX_LOG_BUFFER_LENGTH },
            ),
            ShaderBuild::FragmentLog { fs } => Some(
                ShaderQuery::ShaderInfoLog { shader: *fs, capacity: GL_MAX_LOG_BUFFER_LENGTH },
            ),
            ShaderBuild::CreateProgram { .. } => Some(ShaderQuery::CreateProgram),
            ShaderBuild::LinkStatus { id, .. } => Some(ShaderQuery::LinkStatus { program: *id }),
            ShaderBuild::LinkLog { id } => Some(
                ShaderQuery::ProgramInfoLog { program: *id, capacity: GL_MAX_LOG_BUFFER_LENGTH },
            ),
            ShaderBuild::UniformCount { id } => Some(ShaderQuery::ActiveUniforms { program: *id }),
            ShaderBuild::UniformName { id, index, .. } => Some(
                ShaderQuery::ActiveUniformName {
                    program: *id,
                    index: #[verifier::truncate] (*index as u32),
                    capacity: NAME_SIZE,
                },
            ),
            ShaderBuild::UniformLocation { id, name, .. } => Some(
                ShaderQuery::UniformLocation { program: *id, name: name.clone() },
            ),
            ShaderBuild::Done(_) => None,
        }
    }

    /// The text that an accepted reply of text holds.
    pub open spec fn text_of(text: Seq<u8>) -> Seq<char> {
        utf8_text(c_bytes(text)).unwrap()
    }

    /// The calls that the state makes on `reply`.
    pub open spec fn calls_on(self, reply: ShaderReply) -> Seq<GlCall<BlobView>> {
        match (self, reply) {
            (ShaderBuild::CreateVertex { vert, .. }, ShaderReply::Name(vs)) => seq![
                GlCall::ShaderSource { shader: vs, source: BlobView::Bytes(vert@) },
                GlCall::CompileShader { shader: vs },
            ],
            (ShaderBuild::CreateFragment { frag, .. }, ShaderReply::Name(fs)) => seq![
                GlCall::ShaderSource { shader: fs, source: BlobView::Bytes(frag@) },
                GlCall::CompileShader { shader: fs },
            ],
            (ShaderBuild::VertexLog { vs }, ShaderReply::Text(_)) => seq![
                GlCall::DeleteShader { shader: vs },
            ],
            (ShaderBuild::FragmentLog { fs }, ShaderReply::Text(_)) => seq![
                GlCall::DeleteShader { shader: fs },
            ],
            (ShaderBuild::CreateProgram { vs, fs }, ShaderReply::Name(id)) => seq![
                GlCall::AttachShader { program: id, shader: vs },
                GlCall::AttachShader { program: id, shader: fs },
                GlCall::LinkProgram { program: id },
            ],
            (ShaderBuild::LinkStatus { vs, fs, .. }, ShaderReply::Int(status)) => if status
                != 0 {
                seq![GlCall::DeleteShader { shader: vs }, GlCall::DeleteShader { shader: fs }]
            } else {
                Seq::empty()
            },
            (ShaderBuild::LinkLog { id }, ShaderReply::Text(_)) => seq![
                GlCall::DeleteProgram { program: id },
            ],
            _ => Seq::empty(),
        }
    }

    /// Whether `next` is the state that follows on `reply`.
    pub open spec fn leads_to(self, reply: ShaderReply, next: ShaderBuild) -> bool {
        match (self, reply) {
            (ShaderBuild::ReadVertex { frag, .. }, ShaderReply::File(Ok(text))) => {
                next matches ShaderBuild::CreateVertex { vert, frag: f } && vert@ == encode_utf8(
                    text@,
                ) && f == frag
            },
            (ShaderBuild::ReadVertex { .. }, ShaderReply::File(Err(reason)))
            | (ShaderBuild::ReadFragment { .. }, ShaderReply::File(Err(reason))) => {
                next matches ShaderBuild::Done(Err(report)) && report@ == FILE_READ_ERROR@
                    + reason@
            },
            (ShaderBuild::CreateVertex { frag, .. }, ShaderReply::Name(vs)) => next
                == (ShaderBuild::VertexStatus { vs, frag }),
            (ShaderBuild::VertexStatus { vs, frag }, ShaderReply::Int(status)) => next == if status
                == 0 {
                ShaderBuild::VertexLog { vs }
            } else {
                Self::fragment_state(vs, frag)
            },
            (ShaderBuild::VertexLog { .. }, ShaderReply::Text(text))
            | (ShaderBuild::FragmentLog { .. }, ShaderReply::Text(text)) => {
                next matches ShaderBuild::Done(Err(report)) && report@ == SHADER_COMPILE_ERROR@
                    + Self::text_of(text@)
            },
            (ShaderBuild::ReadFragment { vs, .. }, ShaderReply::File(Ok(text))) => {
                next matches ShaderBuild::CreateFragment { vs: v, frag } && v == vs && frag@
                    == encode_utf8(text@)
            },
            (ShaderBuild::CreateFragment { vs, .. }, ShaderReply::Name(fs)) => next
                == (ShaderBuild::FragmentStatus { vs, fs }),
            (ShaderBuild::FragmentStatus { vs, fs }, ShaderReply::Int(status)) => next == if status
                == 0 {
                ShaderBuild::FragmentLog { fs }
            } else {
                ShaderBuild::CreateProgram { vs, fs }
            },
            (ShaderBuild::CreateProgram { vs, fs }, ShaderReply::Name(id)) => next
                == (ShaderBuild::LinkStatus { id, vs, fs }),
            (ShaderBuild::LinkStatus { id, .. }, ShaderReply::Int(status)) => next == if status
                == 0 {
                ShaderBuild::LinkLog { id }
            } else {
                ShaderBuild::UniformCount { id }
            },
            (ShaderBuild::LinkLog { .. }, ShaderReply::Text(text)) => {
                next matches ShaderBuild::Done(Err(report)) && report@ == SHADER_LINK_ERROR@
                    + Self::text_of(text@)
            },
            (ShaderBuild::UniformCount { id }, ShaderReply::Int(count)) => if 0 < count {
                next matches ShaderBuild::UniformName { id: i, count: c, index, uniforms } && i
                    == id && c == count && index == 0 && uniforms@ == Map::<
                    Seq<char>,
                    i32,
                >::empty()
            } else {
                next matches ShaderBuild::Done(Ok(shader)) && shader.id == id
                    && shader.uniform_locations@ == Map::<Seq<char>, i32>::empty()
            },
            (ShaderBuild::UniformName { id, count, index, uniforms }, ShaderReply::Text(text)) => {
                next matches ShaderBuild::UniformLocation {
                    id: i,
                    count: c,
                    index: x,
                    name,
                    uniforms: u,
                } && i == id && c == count && x == index && name@ == Self::text_of(text@) && u
                    == uniforms
            },
            (
                ShaderBuild::UniformLocation { id, count, index, name, uniforms },
                ShaderReply::Int(location),
            ) => if index + 1 < count {
                next matches ShaderBuild::UniformName { id: i, count: c, index: x, uniforms: u }
                    && i == id && c == count && x == index + 1 && u@ == uniforms@.insert(
                    name@,
                    location,
                )
            } else {
                next matches ShaderBuild::Done(Ok(shader)) && shader.id == id
                    && shader.uniform_locations@ == uniforms@.insert(name@, location)
            },
            _ => false,
        }
    }

    /// Takes the answer to what the state asked, makes the calls that it
    /// decides, and gives the next state. An answer that the state does not
    /// accept changes nothing.
    pub fn advance(self, gl: &mut Gl, reply: ShaderReply) -> (next: ShaderBuild)
        ensures
            self.spec_accepts(&reply) ==> final(gl)@ == old(gl)@ + self.calls_on(reply)
                && self.leads_to(reply, next),
            !self.spec_accepts(&reply) ==> final(gl)@ == old(gl)@ && next == self,
    {
        let ghost before = gl@;
        let next = match (self, reply) {
            (ShaderBuild::ReadVertex { path, frag }, ShaderReply::File(read)) => {
                match gl_compile_shader_from_file(read) {
                    Ok(vert) => ShaderBuild::CreateVertex { vert, frag },
                    Err(report) => ShaderBuild::Done(Err(report)),
                }
            },
            (ShaderBuild::CreateVertex { vert, frag }, ShaderReply::Name(vs)) => {
                gl_compile_shader(gl, vs, vert);
                ShaderBuild::VertexStatus { vs, frag }
            },
            (ShaderBuild::VertexStatus { vs, frag }, ShaderReply::Int(status)) => {
                if status == 0 {
                    ShaderBuild::VertexLog { vs }
                } else {
                    match frag {
                        ShaderSource::Memory(source) => ShaderBuild::CreateFragment {
                            vs,
                            frag: source,
                        },
                        ShaderSource::File(path) => ShaderBuild::ReadFragment { vs, path },
                    }
                }
            },
            (ShaderBuild::VertexLog { vs }, ShaderReply::Text(text)) => {
                match c_text(text.as_slice()) {
                    Some(log) => ShaderBuild::Done(Err(gl_compile_failed(gl, vs, log.as_str()))),
                    None => ShaderBuild::VertexLog { vs },
                }
            },
            (ShaderBuild::ReadFragment { vs, path }, ShaderReply::File(read)) => {
                match gl_compile_shader_from_file(read) {
                    Ok(frag) => ShaderBuild::CreateFragment { vs, frag },
                    Err(report) => ShaderBuild::Done(Err(report)),
                }
            },
            (ShaderBuild::CreateFragment { vs, frag }, ShaderReply::Name(fs)) => {
                gl_compile_shader(gl, fs, frag);
                ShaderBuild::FragmentStatus { vs, fs }
            },
            (ShaderBuild::FragmentStatus { vs, fs }, ShaderReply::Int(status)) => {
                if status == 0 {
                    ShaderBuild::FragmentLog { fs }
                } else {
                    ShaderBuild::CreateProgram { vs, fs }
                }
            },
            (ShaderBuild::FragmentLog { fs }, ShaderReply::Text(text)) => {
                match c_text(text.as_slice()) {
                    Some(log) => ShaderBuild::Done(Err(gl_compile_failed(gl, fs, log.as_str()))),
                    None => ShaderBuild::FragmentLog { fs },
                }
            },
            (ShaderBuild::CreateProgram { vs, fs }, ShaderReply::Name(id)) => {
                gl_create_shader_program(gl, id, vs, fs);
                ShaderBuild::LinkStatus { id, vs, fs }
            },
            (ShaderBuild::LinkStatus { id, vs, fs }, ShaderReply::Int(status)) => {
                if status == 0 {
                    ShaderBuild::LinkLog { id }
                } else {
                    gl_link_succeeded(gl, vs, fs);
                    ShaderBuild::UniformCount { id }
                }
            },
            (ShaderBuild::LinkLog { id }, ShaderReply::Text(text)) => {
                match c_text(text.as_slice()) {
                    Some(log) => ShaderBuild::Done(Err(gl_link_failed(gl, id, log.as_str()))),
                    None => ShaderBuild::LinkLog { id },
                }
            },
            (ShaderBuild::UniformCount { id }, ShaderReply::Int(count)) => {
                if 0 < count {
                    ShaderBuild::UniformName { id, count, index: 0, uniforms: StringHashMap::new() }
                } else {
                    ShaderBuild::Done(Ok(Shader::new(id, StringHashMap::new())))
                }
            },
            (ShaderBuild::UniformName { id, count, index, uniforms }, ShaderReply::Text(text)) => {
                match c_text(text.as_slice()) {
                    Some(name) => ShaderBuild::UniformLocation { id, count, index, name, uniforms },
                    None => ShaderBuild::UniformName { id, count, index, uniforms },
                }
            },
            (
                ShaderBuild::UniformLocation { id, count, index, name, uniforms },
                ShaderReply::Int(location),
            ) => {
                let mut uniforms = uniforms;
                uniforms.insert(name, location);
                if index < i32::MAX && index + 1 < count {
                    ShaderBuild::UniformName { id, count, index: index + 1, uniforms }
                } else {
                    ShaderBuild::Done(Ok(Shader::new(id, uniforms)))
                }
            },
            (state, _) => state,
        };
        assert(self.spec_accepts(&reply) ==> gl@ =~= before + self.calls_on(reply));
        next
    }

    /// How far the building is from its end: the number of the stage, and
    /// within the stage of the uniforms the number of questions still to
    /// ask. Every step lowers it, stage first.
    pub open spec fn rank(self) -> (nat, nat) {
        match self {
            ShaderBuild::ReadVertex { .. } => (13, 0),
            ShaderBuild::CreateVertex { .. } => (12, 0),
            ShaderBuild::VertexStatus { .. } => (11, 0),
            ShaderBuild::VertexLog { .. } => (10, 0),
            ShaderBuild::ReadFragment { .. } => (9, 0),
            ShaderBuild::CreateFragment { .. } => (8, 0),
            ShaderBuild::FragmentStatus { .. } => (7, 0),
            ShaderBuild::FragmentLog { .. } => (6, 0),
            ShaderBuild::CreateProgram { .. } => (5, 0),
            ShaderBuild::LinkStatus { .. } => (4, 0),
            ShaderBuild::LinkLog { .. } => (3, 0),
            ShaderBuild::UniformCount { .. } => (2, 0),
            ShaderBuild::UniformName { count, index, .. } => (
                1,
                if index < count {
                    (2 * (count - index)) as nat
                } else {
                    2
                },
            ),
            ShaderBuild::UniformLocation { count, index, .. } => (
                1,
                if index < count {
                    (2 * (count - index) - 1) as nat
                } else {
                    1
                },
            ),
            ShaderBuild::Done(_) => (0, 0),
        }
    }

    /// Whether the rank `a` is lower than the rank `b`.
    pub open spec fn lower(a: (nat, nat), b: (nat, nat)) -> bool {
        a.0 < b.0 || (a.0 == b.0 && a.1 < b.1)
    }

    /// Every step brings the building nearer to its end, so a building
    /// that is answered again and again is done after finitely many steps.
    pub proof fn lemma_step_lowers_rank(self, reply: ShaderReply, next: ShaderBuild)
        requires
            self.spec_accepts(&reply),
            self.leads_to(reply, next),
        ensures
            Self::lower(next.rank(), self.rank()),
    {
    }

    /// Only a building that is done has the lowest rank, and a building
    /// that is done accepts no answer.
    pub proof fn lemma_done_is_final(self, reply: ShaderReply)
        ensures
            self is Done <==> self.rank() == (0nat, 0nat),
            self is Done ==> !self.spec_accepts(&reply),
    {
    }

    /// The building of a program ends with the report of a failure only
    /// on a file that could not be read or a status of zero; every other
    /// step goes on or ends with the program.
    pub proof fn lemma_failure_has_a_cause(self, reply: ShaderReply, next: ShaderBuild)
        requires
            self.spec_accepts(&reply),
            self.leads_to(reply, next),
            next matches ShaderBuild::Done(Err(_)),
        ensures
            reply matches ShaderReply::File(Err(_)) || self is VertexLog || self is FragmentLog
                || self is LinkLog,
    {
    }

    /// The locations of the first `n` uniforms by their names, where
    /// uniform `k` has the name `names[k]` and the location `locations[k]`.
    /// Of two uniforms of one name the later one counts.
    pub open spec fn scanned(names: Seq<Seq<char>>, locations: Seq<i32>, n: nat) -> Map<
        Seq<char>,
        i32,
    >
        decreases n,
    {
        if n == 0 {
            Map::empty()
        } else {
            Self::scanned(names, locations, (n - 1) as nat).insert(
                names[n - 1],
                locations[n - 1],
            )
        }
    }

    /// The names that the texts hold.
    pub open spec fn names_of(texts: Seq<Vec<u8>>) -> Seq<Seq<char>> {
        Seq::new(texts.len(), |k: int| Self::text_of(texts[k]@))
    }

    /// Whether the states are those of a building that asks for the `count`
    /// uniforms of the program `id` one after the other: `asks_name[k]`
    /// is answered with the text `texts[k]`, which leads to
    /// `asks_location[k]`; that is answered with `locations[k]`, which
    /// leads to the next state that asks for a name, and after the last
    /// uniform to `end`.
    pub open spec fn scans(
        asks_name: Seq<ShaderBuild>,
        asks_location: Seq<ShaderBuild>,
        end: ShaderBuild,
        texts: Seq<Vec<u8>>,
        locations: Seq<i32>,
        id: u32,
        count: i32,
    ) -> bool {
        &&& 0 < count
        &&& asks_name.len() == count
        &&& asks_location.len() == count
        &&& texts.len() == count
        &&& locations.len() == count
        &&& asks_name[0] matches ShaderBuild::UniformName { id: i, count: c, index, uniforms }
        &&& i == id && c == count && index == 0 && uniforms@ == Map::<Seq<char>, i32>::empty()
        &&& forall|k: int| 0 <= k < count ==> Self::is_text(#[trigger] texts[k]@)
        &&& forall|k: int|
            0 <= k < count ==> (#[trigger] asks_name[k]).leads_to(
                ShaderReply::Text(texts[k]),
                asks_location[k],
            )
        &&& forall|k: int|
            0 <= k < count - 1 ==> (#[trigger] asks_location[k]).leads_to(
                ShaderReply::Int(locations[k]),
                asks_name[k + 1],
            )
        &&& asks_location[count - 1].leads_to(ShaderReply::Int(locations[count - 1]), end)
    }

    proof fn lemma_scan_reaches(
        asks_name: Seq<ShaderBuild>,
        asks_location: Seq<ShaderBuild>,
        end: ShaderBuild,
        texts: Seq<Vec<u8>>,
        locations: Seq<i32>,
        id: u32,
        count: i32,
        k: int,
    )
        requires
            Self::scans(asks_name, asks_location, end, texts, locations, id, count),
            0 <= k < count,
        ensures
            asks_name[k] matches ShaderBuild::UniformName { id: i, count: c, index, uniforms }
                && i == id && c == count && index == k && uniforms@ == Self::scanned(
                Self::names_of(texts),
                locations,
                k as nat,
            ),
        decreases k,
    {
        if k > 0 {
            Self::lemma_scan_reaches(
                asks_name,
                asks_location,
                end,
                texts,
                locations,
                id,
                count,
                k - 1,
            );
            assert(asks_name[k - 1].leads_to(
                ShaderReply::Text(texts[k - 1]),
                asks_location[k - 1],
            ));
            assert(asks_location[k - 1].leads_to(
                ShaderReply::Int(locations[k - 1]),
                asks_name[k - 1 + 1],
            ));
            assert(Self::names_of(texts)[k - 1] == Self::text_of(texts[k - 1]@));
        }
    }

    /// A building that asks for all the uniforms of a program ends with
    /// the program and the location of every uniform by its name, however
    /// many there are.
    pub proof fn lemma_scan_finds_every_uniform(
        asks_name: Seq<ShaderBuild>,
        asks_location: Seq<ShaderBuild>,
        end: ShaderBuild,
        texts: Seq<Vec<u8>>,
        locations: Seq<i32>,
        id: u32,
        count: i32,
    )
        requires
            Self::scans(asks_name, asks_location, end, texts, locations, id, count),
        ensures
            end matches ShaderBuild::Done(Ok(shader)) && shader.id == id
                && shader.uniform_locations@ == Self::scanned(
                Self::names_of(texts),
                locations,
                count as nat,
            ),
    {
        let last = count - 1;
        Self::lemma_scan_reaches(asks_name, asks_location, end, texts, locations, id, count, last);
        assert(asks_name[last].leads_to(ShaderReply::Text(texts[last]), asks_location[last]));
        assert(Self::names_of(texts)[last] == Self::text_of(texts[last]@));
    }

    /// The shader, or the report of what failed, once the building is done.
    pub fn finish(self) -> (result: Option<Result<Shader, String>>)
        ensures
            result == match self {
                ShaderBuild::Done(r) => Some(r),
                _ => None,
            },
    {
        match self {
            ShaderBuild::Done(r) => Some(r),
            _ => None,
        }
    }
}

/// Something to draw: vertices with what places, indexes, textures and
/// shades them.
pub struct Mesh {
    pub transform: Transform,
    pub buffer: VertexBuffer,
    pub indices: Option<ElementBuffer>,
    pub texture: Option<Texture>,
    pub shader: Option<Shader>,
}

impl Mesh {
    /// A mesh of the vertices in `buffer`, left where it is, with no
    /// indices, texture or shader of its own.
    pub fn new(buffer: VertexBuffer) -> (m: Self)
        ensures
            m.transform.0 == Matrix::spec_identity(),
            m.buffer == buffer,
            m.indices is None,
            m.texture is None,
            m.shader is None,
    {
        Mesh {
            transform: Transform::default(),
            buffer: buffer,
            indices: None,
            texture: None,
            shader: None,
        }
    }

    /// A mesh of the unit quad: its four corners go into the fresh buffer
    /// `buffer_id`, and the indices zero and six into the fresh buffer
    /// `indices_id`.
    pub fn new_quad(gl: &mut Gl, buffer_id: u32, indices_id: u32, usage: DrawUsage) -> (m: Self)
        ensures
            m.transform.0 == Matrix::spec_identity(),
            m.buffer.id == buffer_id,
            m.buffer.size_bytes == 144,
            m.buffer.vert_count == 4,
            m.buffer.draw_prim == DrawPrimitive::Triangles,
            m.buffer.layout@ == vertex2d_layout(),
            m.indices == Some(ElementBuffer { id: indices_id, count: 2 }),
            m.texture is None,
            m.shader is None,
            final(gl)@ == old(gl)@ + VertexBuffer::upload_calls(
                buffer_id,
                BlobView::Words(vertex_words(unit_quad())),
                usage,
            ) + ElementBuffer::upload_calls(indices_id, seq![0u32, 6u32], DrawUsage::Static),
    {
        let verts = Quad::default_verts();
        let buffer = VertexBuffer::from_vertices(
            gl,
            buffer_id,
            verts.as_slice(),
            usage,
            DrawPrimitive::Triangles,
        );
        let indices = ElementBuffer::new_quad(gl, indices_id, 6);
        Mesh {
            transform: Transform::default(),
            buffer,
            indices: Some(indices),
            texture: None,
            shader: None,
        }
    }

    pub fn indices(&self) -> (e: &ElementBuffer)
        requires
            self.indices is Some,
        ensures
            Some(*e) == self.indices,
    {
        self.indices.as_ref().unwrap()
    }

    pub fn texture(&self) -> (t: &Texture)
        requires
            self.texture is Some,
        ensures
            Some(*t) == self.texture,
    {
        self.texture.as_ref().unwrap()
    }

    pub fn shader(&self) -> (s: &Shader)
        requires
            self.shader is Some,
        ensures
            Some(*s) == self.shader,
    {
        self.shader.as_ref().unwrap()
    }

    /// The calls that give back what the mesh holds on the device: its
    /// buffer, then its indices, its texture and its program where it has
    /// them.
    pub open spec fn delete_calls(self) -> Seq<GlCall<BlobView>> {
        seq![GlCall::DeleteBuffers { buffer: self.buffer.id }] + (match self.indices {
            Some(e) => seq![GlCall::DeleteBuffers { buffer: e.id }],
            None => Seq::empty(),
        }) + (match self.texture {
            Some(t) => seq![GlCall::DeleteTextures { texture: t.id }],
            None => Seq::empty(),
        }) + (match self.shader {
            Some(s) => seq![GlCall::DeleteProgram { program: s.id }],
            None => Seq::empty(),
        })
    }

    /// Gives back what the mesh holds on the device.
    pub fn delete(self, gl: &mut Gl)
        ensures
            final(gl)@ == old(gl)@ + self.delete_calls(),
    {
        let ghost calls = self.delete_calls();
        self.buffer.delete(gl);
        if let Some(e) = self.indices {
            e.delete(gl);
        }
        if let Some(t) = self.texture {
            t.delete(gl);
        }
        if let Some(s) = self.shader {
            s.delete(gl);
        }
        assert(gl@ =~= old(gl)@ + calls);
    }
}

/// What a render texture that cannot be drawn into is reported with.
pub const INCOMPLETE_FRAMEBUFFER: &'static str =
    "OpenGL :: Could not create RenderTexture. Framebuffer is not complete";

/// A texture to draw into, with the framebuffer and the depth and stencil
/// storage that go with it.
pub struct RenderTexture {
    pub frame_buffer: FrameBuffer,
    pub render_buffer: RenderBuffer,
    pub texture: Texture,
}

impl RenderTexture {
    /// The calls that set up a render texture of `width` by `height`
    /// texels from three fresh objects: create each, then attach the
    /// texture and the storage to the framebuffer.
    pub open spec fn create_calls(
        frame_buffer: u32,
        render_buffer: u32,
        texture: u32,
        width: u32,
        height: u32,
    ) -> Seq<GlCall<BlobView>> {
        let fb = FrameBuffer { id: frame_buffer };
        seq![GlCall::BindFramebuffer { target: gl::FRAMEBUFFER, framebuffer: frame_buffer }]
            + seq![
            GlCall::BindRenderbuffer { target: gl::RENDERBUFFER, renderbuffer: render_buffer },
            GlCall::RenderbufferStorage {
                target: gl::RENDERBUFFER,
                internal_format: gl::DEPTH24_STENCIL8,
                width: width as i32,
                height: height as i32,
            },
        ] + Texture::create_calls(texture, Seq::empty(), width, height) + fb.attach_texture_calls(
            texture,
            0,
        ) + seq![
            GlCall::BindFramebuffer { target: gl::FRAMEBUFFER, framebuffer: frame_buffer },
            GlCall::FramebufferRenderbuffer {
                target: gl::FRAMEBUFFER,
                attachment: gl::DEPTH_STENCIL_ATTACHMENT,
                renderbuffer_target: gl::RENDERBUFFER,
                renderbuffer: render_buffer,
            },
        ]
    }

    /// Sets up a render texture of `width` by `height` texels from the
    /// three fresh objects named. Whether it can be drawn into is for the
    /// driver to say: hand its word to `complete`.
    pub fn new(
        gl: &mut Gl,
        frame_buffer: u32,
        render_buffer: u32,
        texture: u32,
        width: u32,
        height: u32,
    ) -> (rt: Self)
        ensures
            rt.frame_buffer.id == frame_buffer,
            rt.render_buffer.id == render_buffer,
            rt.texture.id == texture,
            rt.texture.unit == gl::TEXTURE0,
            rt.texture.size.x == width,
            rt.texture.size.y == height,
            final(gl)@ == old(gl)@ + Self::create_calls(
                frame_buffer,
                render_buffer,
                texture,
                width,
                height,
            ),
    {
        let rt = RenderTexture {
            frame_buffer: FrameBuffer::new(gl, frame_buffer),
            render_buffer: RenderBuffer::new(
                gl,
                render_buffer,
                #[verifier::truncate] (width as i32),
                #[verifier::truncate] (height as i32),
            ),
            texture: Texture::from_memory(
                gl,
                texture,
                Vec::new(),
                width,
                height,
                TextureFormat::Rgb,
            ),
        };
        rt.frame_buffer.attach_texture(gl, &rt.texture);
        rt.frame_buffer.attach_render_buffer(gl, &rt.render_buffer);
        assert(gl@ =~= old(gl)@ + Self::create_calls(
            frame_buffer,
            render_buffer,
            texture,
            width,
            height,
        ));
        rt
    }

    /// The calls that give the three objects back to the driver.
    pub open spec fn delete_calls(self) -> Seq<GlCall<BlobView>> {
        seq![
            GlCall::DeleteFramebuffers { framebuffer: self.frame_buffer.id },
            GlCall::DeleteRenderbuffers { renderbuffer: self.render_buffer.id },
            GlCall::DeleteTextures { texture: self.texture.id },
        ]
    }

    /// Takes the driver's word on the framebuffer that is bound, `status`.
    /// Where it is complete, the window becomes the target again and the
    /// render texture is ready; where not, the three objects are given back
    /// and the failure is reported.
    pub fn complete(self, gl: &mut Gl, status: u32) -> (result: Result<Self, String>)
        ensures
            status == gl::FRAMEBUFFER_COMPLETE ==> result == Ok::<Self, String>(self) && final(gl)@
                == old(gl)@.push(
                GlCall::BindFramebuffer { target: gl::FRAMEBUFFER, framebuffer: 0 },
            ),
            status != gl::FRAMEBUFFER_COMPLETE ==> (result matches Err(report) && report@
                == INCOMPLETE_FRAMEBUFFER@) && final(gl)@ == old(gl)@ + self.delete_calls(),
    {
        if status != gl::FRAMEBUFFER_COMPLETE {
            self.delete(gl);
            return Err(String::from_str(INCOMPLETE_FRAMEBUFFER));
        }
        FrameBuffer::unbind(gl);
        Ok(self)
    }

    /// Gives the three objects back to the driver.
    pub fn delete(self, gl: &mut Gl)
        ensures
            final(gl)@ == old(gl)@ + self.delete_calls(),
    {
        let ghost calls = self.delete_calls();
        self.frame_buffer.delete(gl);
        self.render_buffer.delete(gl);
        self.texture.delete(gl);
        assert(gl@ =~= old(gl)@ + calls);
    }
}

} // verus!
