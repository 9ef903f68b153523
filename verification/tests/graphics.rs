use image::{DynamicImage, GrayImage, Rgb32FImage, RgbImage, Rgba32FImage, RgbaImage};
use ruckus::buffers::DataType;
use ruckus::graphics::{
    Mesh, RenderTexture, Shader, ShaderBuild, ShaderQuery, ShaderReply, ShaderSource, ShaderType,
    Texture,
    TextureFormat, DEFAULT_FRAG, DEFAULT_INSTANCED_VERT, DEFAULT_VERT, FRAG_TEMPLATE_MAIN,
    FRAG_TEMPLATE_VARS, VERT_TEMPLATE_DECLS, VERT_TEMPLATE_DECLS_INSTANCED, VERT_TEMPLATE_MAIN,
};
use ruckus::buffers::{DrawPrimitive, DrawUsage, ElementBuffer, VertexBuffer};
use ruckus::math::{Matrix, Scalar, Vec2};
use ruckus::opengl::gl::{self, bytes_read, component_size_of, components_of, Blob, Gl, GlCall};
use ruckus::opengl::{c_text, GL_MAX_LOG_BUFFER_LENGTH, NAME_SIZE};
use ruckus::picture::ColorKind;
use vstd::hash_map::StringHashMap;

fn recorded(gl: &Gl) -> Vec<GlCall<Blob>> {
    gl.calls().iter().map(|r| r.call().clone()).collect()
}

fn create_calls(id: u32, data: Option<Vec<u8>>, w: i32, h: i32) -> Vec<GlCall<Blob>> {
    let parameter = |name: u32, value: u32| GlCall::TexParameteri {
        target: gl::TEXTURE_2D,
        name,
        value: value as i32,
    };
    vec![
        GlCall::BindTexture { target: gl::TEXTURE_2D, texture: id },
        parameter(gl::TEXTURE_WRAP_S, gl::REPEAT),
        parameter(gl::TEXTURE_WRAP_T, gl::REPEAT),
        parameter(gl::TEXTURE_MIN_FILTER, gl::LINEAR),
        parameter(gl::TEXTURE_MAG_FILTER, gl::LINEAR),
        GlCall::TexImage2D {
            target: gl::TEXTURE_2D,
            level: 0,
            internal_format: gl::RGBA as i32,
            width: w,
            height: h,
            border: 0,
            format: gl::RGBA,
            ty: gl::UNSIGNED_BYTE,
            data: data.map(Blob::Bytes),
        },
        GlCall::GenerateMipmap { target: gl::TEXTURE_2D },
    ]
}

#[test]
fn texture_format_codes_are_the_drivers() {
    assert_eq!(TextureFormat::Alpha.code(), ::gl::ALPHA);
    assert_eq!(TextureFormat::Rgb.code(), ::gl::RGB);
    assert_eq!(TextureFormat::Rgba.code(), ::gl::RGBA);
}

#[test]
fn texture_format_follows_the_channels() {
    assert_eq!(TextureFormat::from_channels(3), TextureFormat::Rgb);
    assert_eq!(TextureFormat::from_channels(4), TextureFormat::Rgba);
    assert_eq!(TextureFormat::from_channels(1), TextureFormat::Alpha);
    assert_eq!(TextureFormat::from_channels(0), TextureFormat::Alpha);
    assert_eq!(TextureFormat::from_channels(2), TextureFormat::Alpha);
    assert_eq!(TextureFormat::from_channels(5), TextureFormat::Alpha);
}

#[test]
fn texture_from_memory_uploads_four_bytes_to_the_texel() {
    let mut gl = Gl::new();
    let data: Vec<u8> = (0..24).collect();
    let t = Texture::from_memory(&mut gl, 4, data.clone(), 3, 2, TextureFormat::Rgb);
    assert_eq!(t.id(), 4);
    assert_eq!(t.unit(), gl::TEXTURE0);
    assert_eq!((t.size.x, t.size.y), (3, 2));
    assert_eq!(recorded(&gl), create_calls(4, Some(data), 3, 2));
}

#[test]
fn texture_without_data_is_left_undefined() {
    let mut gl = Gl::new();
    let t = Texture::from_memory(&mut gl, 4, Vec::new(), 640, 480, TextureFormat::Rgba);
    assert_eq!((t.size.x, t.size.y), (640, 480));
    assert_eq!(recorded(&gl), create_calls(4, None, 640, 480));
}

#[test]
fn blank_texture_is_one_white_texel() {
    let mut gl = Gl::new();
    let t = Texture::new_blank(&mut gl, 1);
    assert_eq!(t.id, 1);
    assert_eq!((t.size.x, t.size.y), (1, 1));
    assert_eq!(recorded(&gl), create_calls(1, Some(vec![255, 255, 255, 255]), 1, 1));
}

#[test]
fn texture_unit_counts_from_the_first() {
    let mut gl = Gl::new();
    let mut t = Texture::new_blank(&mut gl, 1);
    gl.take();
    t.set_unit(0);
    assert_eq!(t.unit(), gl::TEXTURE0);
    t.set_unit(5);
    assert_eq!(t.unit(), gl::TEXTURE0 + 5);
    assert_eq!(t.id, 1);
    t.apply(&mut gl);
    t.delete(&mut gl);
    assert_eq!(
        recorded(&gl),
        vec![
            GlCall::ActiveTexture { unit: gl::TEXTURE0 + 5 },
            GlCall::BindTexture { target: gl::TEXTURE_2D, texture: 1 },
            GlCall::DeleteTextures { texture: 1 },
        ]
    );
}

#[test]
fn texture_write_replaces_a_region() {
    let mut gl = Gl::new();
    let t = Texture { id: 3, unit: gl::TEXTURE0, size: Vec2::new(8, 8) };
    t.write(
        &mut gl,
        Vec2::new(1, 2),
        2,
        2,
        TextureFormat::Rgb,
        DataType::Byte,
        vec![9; 14],
    );
    Texture::set_alignment(&mut gl, 1);
    assert_eq!(
        recorded(&gl),
        vec![
            GlCall::ActiveTexture { unit: gl::TEXTURE0 },
            GlCall::BindTexture { target: gl::TEXTURE_2D, texture: 3 },
            GlCall::TexSubImage2D {
                target: gl::TEXTURE_2D,
                level: 0,
                x: 1,
                y: 2,
                width: 2,
                height: 2,
                format: gl::RGB,
                ty: gl::BYTE,
                data: Blob::Bytes(vec![9; 14]),
            },
            GlCall::PixelStorei { name: gl::UNPACK_ALIGNMENT, value: 1 },
        ]
    );
}

#[test]
fn driver_reads_rows_at_the_alignment() {
    assert_eq!(bytes_read(2, 2, gl::RGB, gl::BYTE, 1), 12);
    assert_eq!(bytes_read(2, 2, gl::RGB, gl::BYTE, 2), 12);
    assert_eq!(bytes_read(2, 2, gl::RGB, gl::BYTE, 4), 14);
    assert_eq!(bytes_read(2, 2, gl::RGB, gl::BYTE, 8), 14);
    assert_eq!(bytes_read(3, 3, gl::RGB, gl::UNSIGNED_BYTE, 8), 41);
    assert_eq!(bytes_read(3, 2, gl::RGBA, gl::UNSIGNED_BYTE, 4), 24);
    assert_eq!(bytes_read(3, 2, gl::RGBA, gl::UNSIGNED_BYTE, 8), 28);
    assert_eq!(bytes_read(3, 1, gl::ALPHA, gl::SHORT, 4), 6);
    assert_eq!(bytes_read(3, 2, gl::ALPHA, gl::SHORT, 4), 14);
    assert_eq!(bytes_read(5, 4, gl::RGB, gl::FLOAT, 8), 3 * 64 + 60);
    assert_eq!(bytes_read(2, 2, gl::RGB, gl::BYTE, 0), 12);
    assert_eq!(bytes_read(2, 2, gl::RGB, gl::BYTE, -4), 12);
    assert_eq!(bytes_read(0, 2, gl::RGB, gl::BYTE, 4), 0);
    assert_eq!(bytes_read(2, 0, gl::RGB, gl::BYTE, 4), 0);
    assert_eq!(bytes_read(-1, 2, gl::RGB, gl::BYTE, 4), 0);
    assert_eq!(
        bytes_read(i32::MAX, i32::MAX, gl::RGBA, gl::FLOAT, 8),
        (16 * (i32::MAX as u128) + 0) / 8 * 8 * (i32::MAX as u128 - 1) + 16 * i32::MAX as u128
    );
    assert_eq!(components_of(gl::ALPHA), 1);
    assert_eq!(components_of(gl::RGB), 3);
    assert_eq!(components_of(gl::RGBA), 4);
    assert_eq!(components_of(0), 4);
    assert_eq!(component_size_of(gl::BYTE), 1);
    assert_eq!(component_size_of(gl::UNSIGNED_BYTE), 1);
    assert_eq!(component_size_of(gl::SHORT), 2);
    assert_eq!(component_size_of(gl::UNSIGNED_SHORT), 2);
    assert_eq!(component_size_of(gl::INT), 4);
    assert_eq!(component_size_of(gl::FLOAT), 4);
}

#[test]
fn upload_is_held_against_what_the_driver_reads() {
    let image = |bytes: usize| GlCall::TexSubImage2D {
        target: gl::TEXTURE_2D,
        level: 0,
        x: 0,
        y: 0,
        width: 2,
        height: 2,
        format: gl::RGB,
        ty: gl::BYTE,
        data: Blob::Bytes(vec![0; bytes]),
    };
    assert!(image(12).reads_within(1));
    assert!(!image(12).reads_within(4));
    assert!(image(14).reads_within(4));
    assert!(!image(13).reads_within(8));
    let buffer = |size: isize, words: usize| GlCall::BufferData {
        target: gl::ARRAY_BUFFER,
        size,
        data: Some(Blob::Words(vec![0; words])),
        usage: gl::STATIC_DRAW,
    };
    assert!(buffer(8, 2).reads_within(4));
    assert!(!buffer(9, 2).reads_within(4));
    assert!(buffer(-1, 0).reads_within(4));
    let room: GlCall<Blob> = GlCall::BufferData {
        target: gl::ARRAY_BUFFER,
        size: 64,
        data: None,
        usage: gl::STATIC_DRAW,
    };
    assert!(room.reads_within(4));
    let mut gl = Gl::new();
    Texture::from_memory(&mut gl, 1, vec![0; 60], 5, 3, TextureFormat::Rgba);
    for recorded in gl.calls() {
        assert!(recorded.call().reads_within(1));
        assert!(recorded.call().reads_within(2));
        assert!(recorded.call().reads_within(4));
    }
}

#[test]
fn loaded_image_is_upside_down() {
    let top = vec![1, 2, 3, 4, 5, 6, 7, 8];
    let middle = vec![11, 12, 13, 14, 15, 16, 17, 18];
    let bottom = vec![21, 22, 23, 24, 25, 26, 27, 28];
    let raw = [top.clone(), middle.clone(), bottom.clone()].concat();
    let im = DynamicImage::ImageRgba8(RgbaImage::from_raw(2, 3, raw).unwrap());
    let t = Texture::from_file("a.png", Ok(im)).unwrap();
    assert_eq!((t.width, t.height), (2, 3));
    assert_eq!(t.format, TextureFormat::Rgba);
    assert_eq!(t.data, [bottom, middle, top].concat());
}

#[test]
fn loaded_image_gets_four_bytes_to_the_pixel() {
    let im = DynamicImage::ImageRgb8(RgbImage::from_raw(1, 2, vec![1, 2, 3, 4, 5, 6]).unwrap());
    let t = Texture::try_from_file("a.jpg", Ok(im)).unwrap().unwrap();
    assert_eq!((t.width, t.height), (1, 2));
    assert_eq!(t.format, TextureFormat::Rgba);
    assert_eq!(t.data, vec![4, 5, 6, 255, 1, 2, 3, 255]);
    let grey = DynamicImage::ImageLuma8(GrayImage::from_raw(2, 1, vec![7, 9]).unwrap());
    let t = Texture::from_file("g.png", Ok(grey)).unwrap();
    assert_eq!(t.data, vec![7, 7, 7, 255, 9, 9, 9, 255]);
}

#[test]
fn kinds_of_whole_numbers_are_told_from_the_others() {
    for kind in [
        ColorKind::L8,
        ColorKind::La8,
        ColorKind::Rgb8,
        ColorKind::Rgba8,
        ColorKind::L16,
        ColorKind::La16,
        ColorKind::Rgb16,
        ColorKind::Rgba16,
    ] {
        assert!(kind.is_integer());
    }
    for kind in [ColorKind::Rgb32F, ColorKind::Rgba32F, ColorKind::Other] {
        assert!(!kind.is_integer());
    }
}

#[test]
fn image_of_fractions_is_not_copied() {
    let rgb = vec![0.5f32, f32::NAN, 1.0];
    let im = DynamicImage::ImageRgb32F(Rgb32FImage::from_raw(1, 1, rgb).unwrap());
    assert!(Texture::try_from_file("a.hdr", Ok(im)).is_none());
    let rgba = vec![0.0f32, 0.25, 0.5, 1.0];
    let im = DynamicImage::ImageRgba32F(Rgba32FImage::from_raw(1, 1, rgba).unwrap());
    assert!(Texture::try_from_file("a.exr", Ok(im)).is_none());
}

#[test]
fn image_of_sixteen_bits_gets_a_byte_to_the_sample() {
    let raw = vec![0u16, 257, 65535, 32896];
    let im = DynamicImage::ImageRgba16(image::ImageBuffer::from_raw(1, 1, raw).unwrap());
    let t = Texture::try_from_file("a.png", Ok(im)).unwrap().unwrap();
    assert_eq!(t.data, vec![0, 1, 255, 128]);
}

#[test]
fn loaded_image_without_pixels_is_empty() {
    let im = DynamicImage::ImageRgba8(RgbaImage::from_raw(0, 0, vec![]).unwrap());
    let t = Texture::from_file("none.png", Ok(im)).unwrap();
    assert_eq!((t.width, t.height), (0, 0));
    assert!(t.data.is_empty());
}

#[test]
fn unopened_image_is_reported_with_its_name() {
    let r = Texture::from_file("missing.png", Err(String::from("No such file")));
    assert_eq!(
        r.err().unwrap(),
        "Error loading file: missing.png :: ImageError: No such file"
    );
    let r = Texture::try_from_file("x", Err(String::new())).unwrap();
    assert_eq!(r.err().unwrap(), "Error loading file: x :: ImageError: ");
}

#[test]
fn loaded_image_makes_a_texture() {
    let im = DynamicImage::ImageRgba8(RgbaImage::from_raw(1, 2, (1..9).collect()).unwrap());
    let t = Texture::from_file("a.png", Ok(im)).unwrap();
    let mut gl = Gl::new();
    let texture = Texture::from_memory(&mut gl, 2, t.data, t.width, t.height, t.format);
    assert_eq!((texture.size.x, texture.size.y), (1, 2));
    assert_eq!(
        recorded(&gl),
        create_calls(2, Some(vec![5, 6, 7, 8, 1, 2, 3, 4]), 1, 2)
    );
}

#[test]
fn shader_type_codes_are_the_drivers() {
    assert_eq!(ShaderType::Vertex.code(), ::gl::VERTEX_SHADER);
    assert_eq!(ShaderType::Fragment.code(), ::gl::FRAGMENT_SHADER);
}

#[test]
fn sources_are_joined_in_order() {
    assert_eq!(Shader::concat_shader_sources(b"ab", b"", b"c\0d"), b"abc\0d".to_vec());
    assert_eq!(Shader::concat_shader_sources(b"", b"", b""), Vec::<u8>::new());
    assert_eq!(
        Shader::concat_shader_sources("é".as_bytes(), b"-", "ü".as_bytes()),
        "é-ü".as_bytes().to_vec()
    );
}

#[test]
fn source_text_is_valid_utf8() {
    assert!(Shader::is_source_text(b""));
    assert!(Shader::is_source_text(b"void main() {}\0"));
    assert!(Shader::is_source_text("é".as_bytes()));
    assert!(!Shader::is_source_text(&[0xff]));
    assert!(!Shader::is_source_text(&[b'a', 0xc3]));
}

fn sources(build: ShaderBuild) -> (Vec<u8>, Vec<u8>) {
    match build {
        ShaderBuild::CreateVertex { vert, frag: ShaderSource::Memory(frag) } => (vert, frag),
        _ => panic!("the building does not start with the vertex source"),
    }
}

fn around(head: &str, body: &[u8], tail: &str) -> Vec<u8> {
    [head.as_bytes(), body, tail.as_bytes()].concat()
}

#[test]
fn templates_end_with_a_zero() {
    for t in [
        FRAG_TEMPLATE_VARS,
        FRAG_TEMPLATE_MAIN,
        VERT_TEMPLATE_DECLS,
        VERT_TEMPLATE_MAIN,
        VERT_TEMPLATE_DECLS_INSTANCED,
        DEFAULT_VERT,
        DEFAULT_INSTANCED_VERT,
        DEFAULT_FRAG,
    ] {
        assert!(t.ends_with('\0'));
        assert_eq!(t.matches('\0').count(), 1);
        assert!(t.is_ascii());
    }
    assert!(VERT_TEMPLATE_DECLS.starts_with("#version 330\n"));
    assert!(FRAG_TEMPLATE_VARS.starts_with("\n#version 330\n"));
    assert!(DEFAULT_FRAG.contains("\tFragColor = texture(u_texture, TexCoord) * Color;"));
}

#[test]
fn template_puts_the_bodies_between_head_and_tail() {
    let (vert, frag) = sources(Shader::from_template(b"POS", b"FX"));
    assert_eq!(vert, around(VERT_TEMPLATE_DECLS, b"POS", VERT_TEMPLATE_MAIN));
    assert_eq!(frag, around(FRAG_TEMPLATE_VARS, b"FX", FRAG_TEMPLATE_MAIN));
}

#[test]
fn half_templates_take_the_default_for_the_other_half() {
    let (vert, frag) = sources(Shader::from_vert_template(b"POS"));
    assert_eq!(vert, around(VERT_TEMPLATE_DECLS, b"POS", VERT_TEMPLATE_MAIN));
    assert_eq!(frag, DEFAULT_FRAG.as_bytes());
    let (vert, frag) = sources(Shader::from_frag_template(b"FX"));
    assert_eq!(vert, DEFAULT_VERT.as_bytes());
    assert_eq!(frag, around(FRAG_TEMPLATE_VARS, b"FX", FRAG_TEMPLATE_MAIN));
}

#[test]
fn instanced_template_takes_either_half() {
    let (vert, frag) = sources(Shader::from_template_instanced(Some(b"POS".to_vec()), None));
    assert_eq!(vert, around(VERT_TEMPLATE_DECLS_INSTANCED, b"POS", VERT_TEMPLATE_MAIN));
    assert_eq!(frag, DEFAULT_FRAG.as_bytes());
    let (vert, frag) = sources(Shader::from_template_instanced(None, Some(b"FX".to_vec())));
    assert_eq!(vert, DEFAULT_INSTANCED_VERT.as_bytes());
    assert_eq!(frag, around(FRAG_TEMPLATE_VARS, b"FX", FRAG_TEMPLATE_MAIN));
    let (vert, frag) =
        sources(Shader::from_template_instanced(Some(b"P".to_vec()), Some(b"F".to_vec())));
    assert_eq!(vert, around(VERT_TEMPLATE_DECLS_INSTANCED, b"P", VERT_TEMPLATE_MAIN));
    assert_eq!(frag, around(FRAG_TEMPLATE_VARS, b"F", FRAG_TEMPLATE_MAIN));
}

#[test]
fn default_programs_use_the_default_sources() {
    let (vert, frag) = sources(Shader::default_program());
    assert_eq!(vert, DEFAULT_VERT.as_bytes());
    assert_eq!(frag, DEFAULT_FRAG.as_bytes());
    let (vert, frag) = sources(Shader::default_instanced());
    assert_eq!(vert, DEFAULT_INSTANCED_VERT.as_bytes());
    assert_eq!(frag, DEFAULT_FRAG.as_bytes());
}

#[test]
fn zero_terminated_text_stops_at_the_zero() {
    assert_eq!(c_text(b"u_model\0\0\0garbage"), Some(String::from("u_model")));
    assert_eq!(c_text(b"no zero"), Some(String::from("no zero")));
    assert_eq!(c_text(b"\0abc"), Some(String::new()));
    assert_eq!(c_text(b""), Some(String::new()));
    assert_eq!(c_text("é\0".as_bytes()), Some(String::from("é")));
    assert_eq!(c_text(&[0xff, 0]), None);
    assert_eq!(c_text(&[b'a', 0, 0xff]), Some(String::from("a")));
}

fn text(s: &str, capacity: usize) -> ShaderReply {
    let mut buffer = vec![0u8; capacity];
    buffer[..s.len()].copy_from_slice(s.as_bytes());
    ShaderReply::Text(buffer)
}

fn step(build: ShaderBuild, gl: &mut Gl, reply: ShaderReply) -> ShaderBuild {
    assert!(build.accepts(&reply));
    build.advance(gl, reply)
}

fn asks(build: &ShaderBuild) -> String {
    match build.query() {
        None => String::from("nothing"),
        Some(ShaderQuery::ReadFile { path }) => format!("file {}", path),
        Some(ShaderQuery::CreateShader { ty }) => format!("shader {:#x}", ty),
        Some(ShaderQuery::CompileStatus { shader }) => format!("compiled {}", shader),
        Some(ShaderQuery::ShaderInfoLog { shader, capacity }) => {
            format!("shader log {} {}", shader, capacity)
        }
        Some(ShaderQuery::CreateProgram) => String::from("program"),
        Some(ShaderQuery::LinkStatus { program }) => format!("linked {}", program),
        Some(ShaderQuery::ProgramInfoLog { program, capacity }) => {
            format!("program log {} {}", program, capacity)
        }
        Some(ShaderQuery::ActiveUniforms { program }) => format!("uniforms {}", program),
        Some(ShaderQuery::ActiveUniformName { program, index, capacity }) => {
            format!("uniform {} {} {}", program, index, capacity)
        }
        Some(ShaderQuery::UniformLocation { program, name }) => {
            format!("location {} {}", program, name)
        }
    }
}

#[test]
fn building_from_memory_compiles_links_and_finds_the_uniforms() {
    let mut gl = Gl::new();
    let b = Shader::from_memory(b"VERT\0".to_vec(), b"FRAG\0".to_vec());
    assert_eq!(asks(&b), "shader 0x8b31");
    let b = step(b, &mut gl, ShaderReply::Name(10));
    assert_eq!(
        recorded(&gl),
        vec![
            GlCall::ShaderSource { shader: 10, source: Blob::Bytes(b"VERT\0".to_vec()) },
            GlCall::CompileShader { shader: 10 },
        ]
    );
    gl.take();
    assert_eq!(asks(&b), "compiled 10");
    let b = step(b, &mut gl, ShaderReply::Int(1));
    assert_eq!(gl.len(), 0);
    assert_eq!(asks(&b), "shader 0x8b30");
    let b = step(b, &mut gl, ShaderReply::Name(11));
    assert_eq!(
        recorded(&gl),
        vec![
            GlCall::ShaderSource { shader: 11, source: Blob::Bytes(b"FRAG\0".to_vec()) },
            GlCall::CompileShader { shader: 11 },
        ]
    );
    gl.take();
    assert_eq!(asks(&b), "compiled 11");
    let b = step(b, &mut gl, ShaderReply::Int(-1));
    assert_eq!(gl.len(), 0);
    assert_eq!(asks(&b), "program");
    let b = step(b, &mut gl, ShaderReply::Name(12));
    assert_eq!(
        recorded(&gl),
        vec![
            GlCall::AttachShader { program: 12, shader: 10 },
            GlCall::AttachShader { program: 12, shader: 11 },
            GlCall::LinkProgram { program: 12 },
        ]
    );
    gl.take();
    assert_eq!(asks(&b), "linked 12");
    let b = step(b, &mut gl, ShaderReply::Int(1));
    assert_eq!(
        recorded(&gl),
        vec![GlCall::DeleteShader { shader: 10 }, GlCall::DeleteShader { shader: 11 }]
    );
    gl.take();
    assert_eq!(asks(&b), "uniforms 12");
    let b = step(b, &mut gl, ShaderReply::Int(2));
    assert_eq!(asks(&b), format!("uniform 12 0 {}", NAME_SIZE));
    let b = step(b, &mut gl, text("u_model", NAME_SIZE));
    assert_eq!(asks(&b), "location 12 u_model");
    let b = step(b, &mut gl, ShaderReply::Int(4));
    assert_eq!(asks(&b), "uniform 12 1 32");
    let b = step(b, &mut gl, text("u_view", NAME_SIZE));
    assert_eq!(asks(&b), "location 12 u_view");
    let b = step(b, &mut gl, ShaderReply::Int(-1));
    assert_eq!(asks(&b), "nothing");
    assert_eq!(gl.len(), 0);
    let shader = b.finish().unwrap().unwrap();
    assert_eq!(shader.id, 12);
    assert_eq!(shader.uniform_locations.len(), 2);
    assert_eq!(shader.uniform_location("u_model"), Some(4));
    assert_eq!(shader.uniform_location("u_view"), Some(-1));
    assert_eq!(shader.uniform_location("u_projection"), None);
}

#[test]
fn building_without_uniforms_ends_after_the_count() {
    for count in [0, -3] {
        let mut gl = Gl::new();
        let b = ShaderBuild::UniformCount { id: 5 };
        let b = step(b, &mut gl, ShaderReply::Int(count));
        assert_eq!(gl.len(), 0);
        let shader = b.finish().unwrap().unwrap();
        assert_eq!(shader.id, 5);
        assert!(shader.uniform_locations.is_empty());
    }
}

#[test]
fn later_uniform_of_a_name_wins() {
    let mut gl = Gl::new();
    let b = ShaderBuild::UniformCount { id: 5 };
    let b = step(b, &mut gl, ShaderReply::Int(2));
    let b = step(b, &mut gl, text("u", NAME_SIZE));
    let b = step(b, &mut gl, ShaderReply::Int(1));
    let b = step(b, &mut gl, text("u", NAME_SIZE));
    let b = step(b, &mut gl, ShaderReply::Int(2));
    let shader = b.finish().unwrap().unwrap();
    assert_eq!(shader.uniform_locations.len(), 1);
    assert_eq!(shader.uniform_location("u"), Some(2));
}

#[test]
fn failed_vertex_compilation_is_reported_with_the_log() {
    let mut gl = Gl::new();
    let b = Shader::from_memory(b"V".to_vec(), b"F".to_vec());
    let b = step(b, &mut gl, ShaderReply::Name(3));
    gl.take();
    let b = step(b, &mut gl, ShaderReply::Int(0));
    assert_eq!(gl.len(), 0);
    assert_eq!(asks(&b), format!("shader log 3 {}", GL_MAX_LOG_BUFFER_LENGTH));
    let b = step(b, &mut gl, text("0:1: syntax error", GL_MAX_LOG_BUFFER_LENGTH));
    assert_eq!(recorded(&gl), vec![GlCall::DeleteShader { shader: 3 }]);
    assert_eq!(asks(&b), "nothing");
    assert_eq!(
        b.finish().unwrap().err().unwrap(),
        "SHADER COMPILE ERROR\n\r--------------------\n\r0:1: syntax error"
    );
}

#[test]
fn failed_fragment_compilation_gives_up_the_fragment_shader() {
    let mut gl = Gl::new();
    let b = ShaderBuild::FragmentStatus { vs: 3, fs: 4 };
    let b = step(b, &mut gl, ShaderReply::Int(0));
    assert_eq!(asks(&b), "shader log 4 2564");
    let b = step(b, &mut gl, text("bad", 8));
    assert_eq!(recorded(&gl), vec![GlCall::DeleteShader { shader: 4 }]);
    assert_eq!(
        b.finish().unwrap().err().unwrap(),
        "SHADER COMPILE ERROR\n\r--------------------\n\rbad"
    );
}

#[test]
fn failed_link_gives_up_the_program() {
    let mut gl = Gl::new();
    let b = ShaderBuild::LinkStatus { id: 9, vs: 3, fs: 4 };
    let b = step(b, &mut gl, ShaderReply::Int(0));
    assert_eq!(gl.len(), 0);
    assert_eq!(asks(&b), "program log 9 2564");
    let b = step(b, &mut gl, text("unresolved", 16));
    assert_eq!(recorded(&gl), vec![GlCall::DeleteProgram { program: 9 }]);
    assert_eq!(
        b.finish().unwrap().err().unwrap(),
        "SHADER PROGRAM LINK ERROR\n\r-------------------\n\runresolved"
    );
}

#[test]
fn building_from_files_reads_each_before_it_compiles() {
    let mut gl = Gl::new();
    let b = Shader::from_file("a.vert", "a.frag");
    assert_eq!(asks(&b), "file a.vert");
    let b = step(b, &mut gl, ShaderReply::File(Ok(String::from("VERT"))));
    assert_eq!(asks(&b), "shader 0x8b31");
    let b = step(b, &mut gl, ShaderReply::Name(1));
    assert_eq!(
        recorded(&gl)[0],
        GlCall::ShaderSource { shader: 1, source: Blob::Bytes(b"VERT".to_vec()) }
    );
    let b = step(b, &mut gl, ShaderReply::Int(1));
    assert_eq!(asks(&b), "file a.frag");
    gl.take();
    let b = step(b, &mut gl, ShaderReply::File(Ok(String::from("FRAG"))));
    assert_eq!(asks(&b), "shader 0x8b30");
    let b = step(b, &mut gl, ShaderReply::Name(2));
    assert_eq!(
        recorded(&gl),
        vec![
            GlCall::ShaderSource { shader: 2, source: Blob::Bytes(b"FRAG".to_vec()) },
            GlCall::CompileShader { shader: 2 },
        ]
    );
    assert_eq!(asks(&b), "compiled 2");
}

#[test]
fn unread_file_is_reported() {
    let mut gl = Gl::new();
    let b = Shader::from_file("a.vert", "a.frag");
    let b = step(b, &mut gl, ShaderReply::File(Err(String::from("not found"))));
    assert_eq!(gl.len(), 0);
    assert_eq!(b.finish().unwrap().err().unwrap(), "FILE READ ERROR :: not found");
    let b = ShaderBuild::ReadFragment { vs: 1, path: String::from("a.frag") };
    let b = step(b, &mut gl, ShaderReply::File(Err(String::from("denied"))));
    assert_eq!(gl.len(), 0);
    assert_eq!(b.finish().unwrap().err().unwrap(), "FILE READ ERROR :: denied");
}

#[test]
fn replies_of_the_wrong_kind_are_not_accepted() {
    let b = Shader::from_memory(Vec::new(), Vec::new());
    assert!(b.accepts(&ShaderReply::Name(1)));
    assert!(!b.accepts(&ShaderReply::Int(1)));
    assert!(!b.accepts(&ShaderReply::Text(Vec::new())));
    assert!(!b.accepts(&ShaderReply::File(Ok(String::new()))));
    let b = ShaderBuild::VertexLog { vs: 1 };
    assert!(b.accepts(&ShaderReply::Text(b"fine\0".to_vec())));
    assert!(!b.accepts(&ShaderReply::Text(vec![0xff, 0])));
    assert!(!b.accepts(&ShaderReply::Name(1)));
    let mut gl = Gl::new();
    let b = b.advance(&mut gl, ShaderReply::Text(vec![0xff, 0]));
    let b = b.advance(&mut gl, ShaderReply::Int(7));
    assert_eq!(gl.len(), 0);
    assert_eq!(asks(&b), "shader log 1 2564");
    let b = ShaderBuild::Done(Err(String::from("kept")));
    let b = b.advance(&mut gl, ShaderReply::Name(1));
    assert_eq!(gl.len(), 0);
    assert!(!b.accepts(&ShaderReply::Name(1)));
    assert!(!b.accepts(&ShaderReply::Int(1)));
    assert!(b.query().is_none());
    assert_eq!(b.finish().unwrap().err().unwrap(), "kept");
    assert!(ShaderBuild::UniformCount { id: 1 }.finish().is_none());
}

fn shader(id: u32, uniforms: &[(&str, i32)]) -> Shader {
    let mut s = Shader::new(id, StringHashMap::new());
    for (name, location) in uniforms {
        s.register_uniform(name, *location);
    }
    s
}

#[test]
fn registered_uniforms_are_found_again() {
    let mut s = shader(7, &[("a", 1), ("b", 2)]);
    assert_eq!(s.id, 7);
    assert_eq!(s.uniform_location("a"), Some(1));
    assert_eq!(s.uniform_location("b"), Some(2));
    assert_eq!(s.uniform_location("c"), None);
    s.register_uniform("a", 5);
    assert_eq!(s.uniform_location("a"), Some(5));
    assert_eq!(s.uniform_locations.len(), 2);
}

#[test]
fn uniforms_are_set_on_the_program_in_use() {
    let s = shader(7, &[("i", 1), ("f", 2), ("f2", 3), ("f3", 4), ("f4", 5), ("m", 6)]);
    let one = Scalar::from_bits(1.0f32.to_bits());
    let two = Scalar::from_bits(2.0f32.to_bits());
    let mut gl = Gl::new();
    s.set_uniform_i(&mut gl, "i", -4);
    s.set_uniform_f(&mut gl, "f", one);
    s.set_uniform_2f(&mut gl, "f2", (one, two));
    s.set_uniform_3f(&mut gl, "f3", (one, two, one));
    s.set_uniform_4f(&mut gl, "f4", (two, two, one, one));
    s.set_uniform_matrix(&mut gl, "m", &Matrix::identity());
    s.set_uniform_matrix_xpose(&mut gl, "m", &Matrix::identity(), true);
    s.apply(&mut gl);
    s.delete(&mut gl);
    let in_use = GlCall::UseProgram { program: 7 };
    assert_eq!(
        recorded(&gl),
        vec![
            in_use.clone(),
            GlCall::Uniform1i { location: 1, v0: -4 },
            in_use.clone(),
            GlCall::Uniform1f { location: 2, v0: one },
            in_use.clone(),
            GlCall::Uniform2f { location: 3, v0: one, v1: two },
            in_use.clone(),
            GlCall::Uniform3f { location: 4, v0: one, v1: two, v2: one },
            in_use.clone(),
            GlCall::Uniform4f { location: 5, v0: two, v1: two, v2: one, v3: one },
            in_use.clone(),
            GlCall::UniformMatrix4fv { location: 6, transpose: false, value: Matrix::identity() },
            in_use.clone(),
            GlCall::UniformMatrix4fv { location: 6, transpose: true, value: Matrix::identity() },
            in_use,
            GlCall::DeleteProgram { program: 7 },
        ]
    );
}

#[test]
fn mesh_starts_with_nothing_of_its_own() {
    let mut gl = Gl::new();
    let vb = VertexBuffer::zeroed(&mut gl, 1, 36, 3, DrawUsage::Static, DrawPrimitive::Triangles);
    let m = Mesh::new(vb);
    assert_eq!(m.transform.0, Matrix::identity());
    assert_eq!(m.buffer.id, 1);
    assert!(m.indices.is_none());
    assert!(m.texture.is_none());
    assert!(m.shader.is_none());
}

#[test]
fn quad_mesh_uploads_the_unit_quad() {
    let mut gl = Gl::new();
    let m = Mesh::new_quad(&mut gl, 1, 2, DrawUsage::Stream);
    assert_eq!(m.buffer.id, 1);
    assert_eq!(m.buffer.size_bytes, 144);
    assert_eq!(m.buffer.vert_count, 4);
    assert_eq!(m.indices().id, 2);
    assert_eq!(m.indices().count, 2);
    let f = |x: f32| x.to_bits();
    let corner = |x: f32, y: f32, u: f32, v: f32| {
        vec![f(x), f(y), f(0.), f(u), f(v), f(1.), f(1.), f(1.), f(1.)]
    };
    let words = [
        corner(-0.5, 0.5, 0., 1.),
        corner(-0.5, -0.5, 0., 0.),
        corner(0.5, 0.5, 1., 1.),
        corner(0.5, -0.5, 1., 0.),
    ]
    .concat();
    assert_eq!(
        recorded(&gl),
        vec![
            GlCall::BindBuffer { target: gl::ARRAY_BUFFER, buffer: 1 },
            GlCall::BufferData {
                target: gl::ARRAY_BUFFER,
                size: 144,
                data: Some(Blob::Words(words)),
                usage: gl::STREAM_DRAW,
            },
            GlCall::BindBuffer { target: gl::ELEMENT_ARRAY_BUFFER, buffer: 2 },
            GlCall::BufferData {
                target: gl::ELEMENT_ARRAY_BUFFER,
                size: 8,
                data: Some(Blob::Words(vec![0, 6])),
                usage: gl::STATIC_DRAW,
            },
        ]
    );
}

#[test]
fn mesh_gives_back_what_it_holds() {
    let mut gl = Gl::new();
    let vb = VertexBuffer::zeroed(&mut gl, 1, 36, 3, DrawUsage::Static, DrawPrimitive::Triangles);
    let mut m = Mesh::new(vb);
    m.texture = Some(Texture::new_blank(&mut gl, 3));
    m.shader = Some(shader(4, &[]));
    gl.take();
    m.delete(&mut gl);
    assert_eq!(
        recorded(&gl),
        vec![
            GlCall::DeleteBuffers { buffer: 1 },
            GlCall::DeleteTextures { texture: 3 },
            GlCall::DeleteProgram { program: 4 },
        ]
    );
    let m = Mesh::new_quad(&mut gl, 5, 6, DrawUsage::Static);
    gl.take();
    m.delete(&mut gl);
    assert_eq!(
        recorded(&gl),
        vec![GlCall::DeleteBuffers { buffer: 5 }, GlCall::DeleteBuffers { buffer: 6 }]
    );
}

#[test]
fn mesh_hands_out_what_it_has() {
    let mut gl = Gl::new();
    let vb = VertexBuffer::zeroed(&mut gl, 1, 36, 3, DrawUsage::Static, DrawPrimitive::Triangles);
    let mut m = Mesh::new(vb);
    m.indices = Some(ElementBuffer { id: 2, count: 3 });
    m.texture = Some(Texture::new_blank(&mut gl, 3));
    m.shader = Some(shader(4, &[]));
    assert_eq!(m.indices().count, 3);
    assert_eq!(m.texture().id, 3);
    assert_eq!(m.shader().id, 4);
}

fn render_texture_calls() -> Vec<GlCall<Blob>> {
    let bind = GlCall::BindFramebuffer { target: gl::FRAMEBUFFER, framebuffer: 1 };
    let mut calls = vec![
        bind.clone(),
        GlCall::BindRenderbuffer { target: gl::RENDERBUFFER, renderbuffer: 2 },
        GlCall::RenderbufferStorage {
            target: gl::RENDERBUFFER,
            internal_format: gl::DEPTH24_STENCIL8,
            width: 320,
            height: 200,
        },
    ];
    calls.extend(create_calls(3, None, 320, 200));
    calls.extend([
        bind.clone(),
        GlCall::FramebufferTexture2D {
            target: gl::FRAMEBUFFER,
            attachment: gl::COLOR_ATTACHMENT0,
            texture_target: gl::TEXTURE_2D,
            texture: 3,
            level: 0,
        },
        bind,
        GlCall::FramebufferRenderbuffer {
            target: gl::FRAMEBUFFER,
            attachment: gl::DEPTH_STENCIL_ATTACHMENT,
            renderbuffer_target: gl::RENDERBUFFER,
            renderbuffer: 2,
        },
    ]);
    calls
}

#[test]
fn complete_render_texture_hands_the_window_back() {
    let mut gl = Gl::new();
    let rt = RenderTexture::new(&mut gl, 1, 2, 3, 320, 200);
    assert_eq!(recorded(&gl), render_texture_calls());
    gl.take();
    let rt = rt.complete(&mut gl, gl::FRAMEBUFFER_COMPLETE).ok().unwrap();
    assert_eq!((rt.frame_buffer.id, rt.render_buffer.id, rt.texture.id), (1, 2, 3));
    assert_eq!((rt.texture.size.x, rt.texture.size.y), (320, 200));
    assert_eq!(
        recorded(&gl),
        vec![GlCall::BindFramebuffer { target: gl::FRAMEBUFFER, framebuffer: 0 }]
    );
}

#[test]
fn incomplete_render_texture_is_given_back() {
    let mut gl = Gl::new();
    let rt = RenderTexture::new(&mut gl, 1, 2, 3, 320, 200);
    gl.take();
    let r = rt.complete(&mut gl, 0x8CD6);
    assert_eq!(
        r.err().unwrap(),
        "OpenGL :: Could not create RenderTexture. Framebuffer is not complete"
    );
    assert_eq!(
        recorded(&gl),
        vec![
            GlCall::DeleteFramebuffers { framebuffer: 1 },
            GlCall::DeleteRenderbuffers { renderbuffer: 2 },
            GlCall::DeleteTextures { texture: 3 },
        ]
    );
}
