//! A decoded image, drawn as a block of pixels.
use vstd::arithmetic::mul::lemma_mul_upper_bound;
use vstd::prelude::*;

use crate::drawable::{Blit, DrawList, Drawable, KnownSize, State};
use crate::geometry::Position;

verus! {

/// The colour layout of decoded pixel samples.
#[derive(Clone, Copy, Debug, PartialEq, Eq, Structural)]
pub enum PixelFormat {
    /// Three bytes per pixel: red, green, blue.
    Rgb,
    /// Four bytes per pixel: red, green, blue, alpha.
    Rgba,
    /// Any other layout (grey, palette, ...).
    Other,
}

/// Why decoded samples could not become an image.
#[derive(Clone, Copy, Debug, PartialEq, Eq, Structural)]
pub enum ImageError {
    /// The colour layout is neither RGB nor RGBA.
    UnsupportedColor,
    /// The sample buffer does not hold exactly `width * height` pixels.
    WrongLength,
    /// The image does not fit in memory.
    TooLarge,
}

/// Bytes per pixel of a supported layout.
pub open spec fn samples(f: PixelFormat) -> nat {
    match f {
        PixelFormat::Rgb => 3,
        PixelFormat::Rgba => 4,
        PixelFormat::Other => 0,
    }
}

/// Byte `k` (0..4) of pixel `p` in the stored layout: alpha, blue, green,
/// red, taken from samples in layout `f`; RGB pixels are opaque.
pub open spec fn stored_byte(f: PixelFormat, src: Seq<u8>, p: int, k: int) -> u8 {
    let s = samples(f) as int;
    if k == 0 {
        if f == PixelFormat::Rgba { src[p * s + 3] } else { 255u8 }
    } else {
        src[p * s + (3 - k)]
    }
}

/// The stored bytes of `n` pixels taken from samples in layout `f`.
pub open spec fn stored_pixels(f: PixelFormat, src: Seq<u8>, n: nat) -> Seq<u8> {
    Seq::new(4 * n, |i: int| stored_byte(f, src, i / 4, i % 4))
}

/// Why samples in layout `f`, `len` bytes for a `width` by `height` image,
/// cannot become an image, if they cannot.
pub open spec fn sample_error(width: u32, height: u32, f: PixelFormat, len: nat) -> Option<ImageError> {
    if f == PixelFormat::Other {
        Some(ImageError::UnsupportedColor)
    } else if len != samples(f) * (width * height) {
        Some(ImageError::WrongLength)
    } else if 4 * (width * height) > usize::MAX {
        Some(ImageError::TooLarge)
    } else {
        None
    }
}

/// The layout of pixels with `channels` samples each.
pub open spec fn format_of_channels(channels: u8) -> PixelFormat {
    if channels == 3 {
        PixelFormat::Rgb
    } else if channels == 4 {
        PixelFormat::Rgba
    } else {
        PixelFormat::Other
    }
}

/// What the PNG decoder makes of `bytes`: width, height, samples per
/// pixel (3 for RGB, 4 for RGBA, 1 or 2 for grey or palette layouts) and
/// the samples,
/// or `None` where it refuses them.
pub uninterp spec fn png_frame(bytes: Seq<u8>) -> Option<(u32, u32, u8, Seq<u8>)>;

#[verifier::external_type_specification]
#[verifier::external_body]
pub struct ExDecodingError(png::DecodingError);

/// Relies on png's `Decoder::new`, `Decoder::set_transformations`,
/// `Decoder::read_info`, `Reader::output_buffer_size`, `Reader::next_frame`,
/// `OutputInfo::buffer_size` and `ColorType::samples`: decodes the first
/// frame of a PNG held in memory, with 16-bit samples cut to 8 bits. The
/// result depends on the bytes alone. RGB and RGBA frames then have 8-bit
/// samples, so their rows are `samples * width` bytes; the buffer is never
/// longer than `isize::MAX`.
#[verifier::external_body]
fn decode_png(bytes: &Vec<u8>) -> (r: Result<(u32, u32, u8, Vec<u8>), png::DecodingError>)
    ensures
        match r {
            Ok(f) => {
                &&& png_frame(bytes@) == Some((f.0, f.1, f.2, f.3@))
                &&& (f.2 == 3 || f.2 == 4) ==> f.3@.len() == f.2 * (f.0 * f.1)
                &&& f.3@.len() <= isize::MAX
            },
            Err(_) => png_frame(bytes@) is None,
        },
{
    let mut decoder = png::Decoder::new(std::io::Cursor::new(bytes.as_slice()));
    decoder.set_transformations(png::Transformations::STRIP_16);
    let mut reader = decoder.read_info()?;
    let mut buf = vec![0u8; reader.output_buffer_size().unwrap_or(0)];
    let info = reader.next_frame(&mut buf)?;
    buf.truncate(info.buffer_size());
    Ok((info.width, info.height, info.color_type.samples() as u8, buf))
}

/// Why PNG data could not become an image.
pub enum DecodeError {
    /// The PNG decoder refused the data.
    Png(png::DecodingError),
    /// The decoded samples could not become an image.
    Image(ImageError),
}

/// The x coordinate of the origin of `pos`; 0 where it is not a rectangle.
pub open spec fn origin_x(pos: Position) -> i32 {
    match pos {
        Position::Rect(r) => r.x,
        Position::Intrinsic => 0,
    }
}

/// The y coordinate of the origin of `pos`; 0 where it is not a rectangle.
pub open spec fn origin_y(pos: Position) -> i32 {
    match pos {
        Position::Rect(r) => r.y,
        Position::Intrinsic => 0,
    }
}

fn copy_bytes(v: &Vec<u8>) -> (r: Vec<u8>)
    ensures
        r@ == v@,
{
    let mut r: Vec<u8> = Vec::new();
    let mut i: usize = 0;
    while i < v.len()
        invariant
            i <= v@.len(),
            r@ == v@.take(i as int),
        decreases v@.len() - i,
    {
        r.push(v[i]);
        i = i + 1;
        proof {
            assert(r@ =~= v@.take(i as int));
        }
    }
    proof {
        assert(v@.take(i as int) =~= v@);
    }
    r
}

/// An image held as stored pixel bytes, four per pixel, row-major.
pub struct PngImage {
    width: u32,
    height: u32,
    data: Vec<u8>,
}

impl PngImage {
    pub closed spec fn spec_data(&self) -> Seq<u8> {
        self.data@
    }

    pub closed spec fn wf(&self) -> bool {
        self.data@.len() == 4 * (self.width * self.height)
    }

    /// `self` is the `width` by `height` image of samples `src` in layout `f`.
    pub open spec fn holds(&self, width: u32, height: u32, f: PixelFormat, src: Seq<u8>) -> bool {
        &&& self.wf()
        &&& self.spec_width() == width
        &&& self.spec_height() == height
        &&& self.spec_data() == stored_pixels(f, src, (width * height) as nat)
    }

    /// Decodes PNG data held in memory. Only RGB and RGBA images are
    /// accepted.
    pub fn decode(bytes: &Vec<u8>) -> (r: Result<PngImage, DecodeError>)
        ensures
            match png_frame(bytes@) {
                None => r matches Err(DecodeError::Png(_)),
                Some(f) => match sample_error(f.0, f.1, format_of_channels(f.2), f.3.len()) {
                    Some(e) => r matches Err(DecodeError::Image(e2)) && e2 == e,
                    None => r matches Ok(img) && img.holds(f.0, f.1, format_of_channels(f.2), f.3),
                },
            },
            png_frame(bytes@) matches Some(f) && (f.2 == 3 || f.2 == 4) ==> r is Ok,
    {
        match decode_png(bytes) {
            Err(e) => Err(DecodeError::Png(e)),
            Ok((width, height, channels, src)) => {
                proof {
                    if channels == 3 || channels == 4 {
                        assert(4 * (width * height) <= usize::MAX) by (nonlinear_arith)
                            requires
                                src@.len() == channels * (width * height),
                                src@.len() <= isize::MAX,
                                channels >= 3;
                    }
                }
                let format = if channels == 3 {
                    PixelFormat::Rgb
                } else if channels == 4 {
                    PixelFormat::Rgba
                } else {
                    PixelFormat::Other
                };
                match PngImage::from_samples(width, height, format, &src) {
                    Ok(img) => Ok(img),
                    Err(e) => Err(DecodeError::Image(e)),
                }
            },
        }
    }

    /// Builds an image from decoded samples: `width * height` pixels,
    /// row-major, in layout `format`.
    pub fn from_samples(width: u32, height: u32, format: PixelFormat, src: &Vec<u8>) -> (r: Result<PngImage, ImageError>)
        ensures
            match sample_error(width, height, format, src@.len()) {
                Some(e) => r == Err::<PngImage, ImageError>(e),
                None => r matches Ok(img) && img.holds(width, height, format, src@),
            },
    {
        let s: usize = match format {
            PixelFormat::Rgb => 3,
            PixelFormat::Rgba => 4,
            PixelFormat::Other => { return Err(ImageError::UnsupportedColor); },
        };
        proof {
            lemma_mul_upper_bound(width as int, 0xffff_ffff, height as int, 0xffff_ffff);
        }
        let n: u64 = width as u64 * height as u64;
        let total: u128 = if s == 3 { n as u128 * 3 } else { n as u128 * 4 };
        if src.len() as u128 != total {
            return Err(ImageError::WrongLength);
        }
        if n > (usize::MAX / 4) as u64 {
            return Err(ImageError::TooLarge);
        }
        let n: usize = n as usize;
        let mut data: Vec<u8> = Vec::new();
        let mut p: usize = 0;
        while p < n
            invariant
                p <= n,
                n == width * height,
                n * 4 <= usize::MAX,
                s == samples(format),
                s == 3 || s == 4,
                format != PixelFormat::Other,
                src@.len() == s * n,
                data@ == stored_pixels(format, src@, p as nat),
            decreases n - p,
        {
            assert(p * s + s <= n * s) by (nonlinear_arith) requires p < n;
            let b: usize = p * s;
            let a: u8 = if s == 4 { src[b + 3] } else { 255u8 };
            data.push(a);
            data.push(src[b + 2]);
            data.push(src[b + 1]);
            data.push(src[b]);
            p = p + 1;
            proof {
                assert(data@ =~= stored_pixels(format, src@, p as nat)) by {
                    assert forall|i: int| 0 <= i < 4 * p implies data@[i] == stored_byte(format, src@, i / 4, i % 4) by {
                        if i >= 4 * (p - 1) {
                            assert(i / 4 == p - 1);
                        }
                    }
                }
            }
        }
        Ok(PngImage { width, height, data })
    }

    /// The stored pixel bytes.
    pub fn data(&self) -> (r: &Vec<u8>)
        ensures
            r@ == self.spec_data(),
    {
        &self.data
    }
}

impl Drawable for PngImage {
    open spec fn registers_to(&self, next: &Self) -> bool {
        *next == *self
    }

    open spec fn loads_to(&self, next: &Self) -> bool {
        *next == *self
    }

    open spec fn updates_to(&self, dt_us: u64, next: &Self) -> bool {
        *next == *self
    }

    open spec fn steps_to(&self, next: &Self) -> bool {
        *next == *self
    }

    open spec fn phase(&self) -> State {
        State::Done
    }

    /// One block: the stored pixels at the image's own size, at the origin
    /// of `pos`, or at the origin of the frame where `pos` is not a
    /// rectangle.
    open spec fn draws(&self, pos: Position, before: &DrawList, after: &DrawList) -> bool {
        after.view() == before.view().push(
            (origin_x(pos), origin_y(pos), self.spec_width(), self.spec_height(), self.spec_data()),
        )
    }

    fn register(&mut self) {
    }

    fn load(&mut self) {
    }

    fn update(&mut self, dt_us: u64) {
    }

    fn step(&mut self) {
    }

    fn state(&self) -> (r: State) {
        State::Done
    }

    fn draw(&self, out: &mut DrawList, pos: Position) {
        let (x, y) = match pos {
            Position::Rect(r) => (r.x, r.y),
            Position::Intrinsic => (0i32, 0i32),
        };
        let data = copy_bytes(&self.data);
        out.push(Blit { x, y, width: self.width, height: self.height, data });
    }
}

impl KnownSize for PngImage {
    closed spec fn spec_width(&self) -> u32 {
        self.width
    }

    closed spec fn spec_height(&self) -> u32 {
        self.height
    }

    fn width(&self) -> (r: u32) {
        self.width
    }

    fn height(&self) -> (r: u32) {
        self.height
    }
}

} // verus!
