//! Decoded images of the `image` crate, as far as textures are made of them.

use vstd::arithmetic::div_mod::{
    lemma_div_pos_is_pos, lemma_fundamental_div_mod, lemma_fundamental_div_mod_converse,
    lemma_mod_pos_bound,
};
use vstd::prelude::*;

verus! {

#[verifier::external_type_specification]
#[verifier::external_body]
pub struct ExDynamicImage(image::DynamicImage);

/// The width of a decoded image in pixels.
pub uninterp spec fn image_width(im: image::DynamicImage) -> u32;

/// The height of a decoded image in pixels.
pub uninterp spec fn image_height(im: image::DynamicImage) -> u32;

/// How the samples of a decoded image are kept: which channels a pixel
/// has, and in how many bits each.
#[derive(Debug, Copy, Clone, PartialEq, Eq, Structural)]
pub enum ColorKind {
    L8,
    La8,
    Rgb8,
    Rgba8,
    L16,
    La16,
    Rgb16,
    Rgba16,
    Rgb32F,
    Rgba32F,
    /// A kind that this library does not know.
    Other,
}

impl ColorKind {
    /// Whether the samples are whole numbers of 8 or 16 bits.
    pub open spec fn spec_is_integer(self) -> bool {
        !(self is Rgb32F || self is Rgba32F || self is Other)
    }

    /// Whether the samples are whole numbers of 8 or 16 bits.
    #[verifier::when_used_as_spec(spec_is_integer)]
    pub fn is_integer(self) -> (yes: bool)
        ensures
            yes == self.spec_is_integer(),
    {
        match self {
            ColorKind::Rgb32F | ColorKind::Rgba32F | ColorKind::Other => false,
            _ => true,
        }
    }
}

/// How the samples of a decoded image are kept.
pub uninterp spec fn image_color(im: image::DynamicImage) -> ColorKind;

/// The pixels of a decoded image as `get_pixel` gives them: row after row
/// from the top, left to right, four bytes to the pixel (red, green, blue,
/// alpha).
pub uninterp spec fn image_rgba(im: image::DynamicImage) -> Seq<u8>;

/// The samples of an image of `width` by `height` pixels with its rows in
/// the opposite order: row `y` of the result is row `height - 1 - y` of
/// `samples`. A pixel takes four samples.
pub open spec fn flipped_rows(samples: Seq<u8>, width: u32, height: u32) -> Seq<u8> {
    Seq::new(
        (4 * width * height) as nat,
        |i: int| samples[((height - 1 - i / (4 * width)) * (4 * width) + i % (4 * width))],
    )
}

/// Sample `i` of an image of rows of `row` samples lies in row `i / row`
/// at place `i % row`, and the sample at the same place of the mirrored
/// row lies in a row of the image too.
proof fn lemma_mirrored_sample(i: int, row: int, height: int)
    requires
        0 < row,
        0 <= i < row * height,
    ensures
        0 <= i / row < height,
        0 <= i % row < row,
        i == (i / row) * row + i % row,
        ((height - 1 - i / row) * row + i % row) / row == height - 1 - i / row,
        ((height - 1 - i / row) * row + i % row) % row == i % row,
        0 <= (height - 1 - i / row) * row + i % row < row * height,
{
    lemma_fundamental_div_mod(i, row);
    lemma_mod_pos_bound(i, row);
    lemma_div_pos_is_pos(i, row);
    let y = i / row;
    let x = i % row;
    assert(i == row * y + x);
    assert(y < height) by (nonlinear_arith)
        requires
            i == row * y + x,
            0 <= x,
            0 < row,
            i < row * height,
    ;
    let m = height - 1 - y;
    lemma_fundamental_div_mod_converse(m * row + x, row, m, x);
    assert(0 <= m * row + x < row * height) by (nonlinear_arith)
        requires
            0 <= m <= height - 1,
            0 <= x < row,
    ;
    assert(y * row == row * y) by (nonlinear_arith);
}

/// Turning an image upside down twice gives the image back.
pub proof fn lemma_flipped_twice(samples: Seq<u8>, width: u32, height: u32)
    requires
        samples.len() == 4 * width * height,
    ensures
        flipped_rows(flipped_rows(samples, width, height), width, height) == samples,
{
    let once = flipped_rows(samples, width, height);
    let twice = flipped_rows(once, width, height);
    let row = 4 * width as int;
    let h = height as int;
    assert(4 * width * height == row * h) by (nonlinear_arith)
        requires
            row == 4 * width,
            h == height,
    ;
    assert forall|i: int| 0 <= i < samples.len() implies twice[i] == samples[i] by {
        assert(0 < row) by (nonlinear_arith)
            requires
                0 <= i < row * h,
                0 <= row,
        ;
        lemma_mirrored_sample(i, row, h);
        let j = (h - 1 - i / row) * row + i % row;
        assert(twice[i] == once[j]);
        assert(once[j] == samples[(h - 1 - j / row) * row + j % row]);
    }
    assert(twice =~= samples);
}

/// An image turned upside down, as plain values.
pub struct Flipped {
    /// The samples, row after row, four bytes to the pixel.
    pub data: Vec<u8>,
    pub width: u32,
    pub height: u32,
    /// The number of samples to the pixel.
    pub channels: u8,
}

/// `DynamicImage::width` of the `image` crate.
#[verifier::external_body]
pub(crate) fn width_of(im: &image::DynamicImage) -> (width: u32)
    ensures
        width == image_width(*im),
{
    im.width()
}

/// `DynamicImage::height` of the `image` crate.
#[verifier::external_body]
pub(crate) fn height_of(im: &image::DynamicImage) -> (height: u32)
    ensures
        height == image_height(*im),
{
    im.height()
}

/// `DynamicImage::color` of the `image` crate, variant for variant.
#[verifier::external_body]
pub(crate) fn color_of(im: &image::DynamicImage) -> (kind: ColorKind)
    ensures
        kind == image_color(*im),
{
    match im.color() {
        image::ColorType::L8 => ColorKind::L8,
        image::ColorType::La8 => ColorKind::La8,
        image::ColorType::Rgb8 => ColorKind::Rgb8,
        image::ColorType::Rgba8 => ColorKind::Rgba8,
        image::ColorType::L16 => ColorKind::L16,
        image::ColorType::La16 => ColorKind::La16,
        image::ColorType::Rgb16 => ColorKind::Rgb16,
        image::ColorType::Rgba16 => ColorKind::Rgba16,
        image::ColorType::Rgb32F => ColorKind::Rgb32F,
        image::ColorType::Rgba32F => ColorKind::Rgba32F,
        _ => ColorKind::Other,
    }
}

/// `image::imageops::flip_vertical`: a new buffer of the same width and
/// height that holds each pixel of `im`, read with `get_pixel`, at the same
/// column and the mirrored row. Its pixels are four bytes each.
///
/// The call does not return for every image. The size of a row of the
/// buffer is computed first and has to fit a `usize`; the buffer is
/// allocated before it is filled, so its whole size has to fit one
/// allocation; and `get_pixel` turns each sample into a byte, which fails
/// on a sample that is not a number, as only the kinds with fractions can
/// hold.
#[verifier::external_body]
pub(crate) fn flip_vertical(im: &image::DynamicImage) -> (out: Flipped)
    requires
        4 * image_width(*im) <= usize::MAX,
        4 * image_width(*im) * image_height(*im) <= isize::MAX,
        image_color(*im).spec_is_integer(),
    ensures
        out.width == image_width(*im),
        out.height == image_height(*im),
        out.channels == 4,
        out.data@ == flipped_rows(image_rgba(*im), image_width(*im), image_height(*im)),
{
    let flipped = image::imageops::flip_vertical(im);
    let channels = flipped.sample_layout().channels;
    let (width, height) = (flipped.width(), flipped.height());
    Flipped { data: flipped.into_raw(), width, height, channels }
}

} // verus!
