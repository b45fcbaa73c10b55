use ytesrev::drawable::{DrawList, Drawable, KnownSize, State};
use ytesrev::geometry::{Position, Rect};
use ytesrev::image::{DecodeError, ImageError, PixelFormat, PngImage};

#[test]
fn rgb_pixels_become_opaque_abgr() {
    let img = PngImage::from_samples(1, 2, PixelFormat::Rgb, &vec![1, 2, 3, 7, 8, 9]).unwrap();
    assert_eq!(img.data(), &vec![255, 3, 2, 1, 255, 9, 8, 7]);
    assert_eq!((img.width(), img.height()), (1, 2));
}

#[test]
fn rgba_pixels_keep_alpha() {
    let img = PngImage::from_samples(1, 1, PixelFormat::Rgba, &vec![10, 20, 30, 40]).unwrap();
    assert_eq!(img.data(), &vec![40, 30, 20, 10]);
    assert_eq!(img.state(), State::Done);
}

#[test]
fn other_layout_is_refused() {
    assert_eq!(
        PngImage::from_samples(1, 1, PixelFormat::Other, &vec![1]).err(),
        Some(ImageError::UnsupportedColor)
    );
}

#[test]
fn wrong_sample_count_is_refused() {
    assert_eq!(
        PngImage::from_samples(2, 2, PixelFormat::Rgb, &vec![0; 11]).err(),
        Some(ImageError::WrongLength)
    );
    assert_eq!(
        PngImage::from_samples(2, 2, PixelFormat::Rgba, &vec![0; 12]).err(),
        Some(ImageError::WrongLength)
    );
}

#[test]
fn empty_image() {
    let img = PngImage::from_samples(0, 5, PixelFormat::Rgba, &vec![]).unwrap();
    assert!(img.data().is_empty());
}

fn encode(width: u32, height: u32, color: png::ColorType, data: &[u8]) -> Vec<u8> {
    let mut out = Vec::new();
    {
        let mut enc = png::Encoder::new(&mut out, width, height);
        enc.set_color(color);
        enc.set_depth(png::BitDepth::Eight);
        let mut w = enc.write_header().unwrap();
        w.write_image_data(data).unwrap();
    }
    out
}

#[test]
fn decode_rgb_png() {
    let bytes = encode(2, 1, png::ColorType::Rgb, &[1, 2, 3, 4, 5, 6]);
    let img = PngImage::decode(&bytes).ok().unwrap();
    assert_eq!((img.width(), img.height()), (2, 1));
    assert_eq!(img.data(), &vec![255, 3, 2, 1, 255, 6, 5, 4]);
}

#[test]
fn decode_rgba_png() {
    let bytes = encode(1, 2, png::ColorType::Rgba, &[1, 2, 3, 4, 5, 6, 7, 8]);
    let img = PngImage::decode(&bytes).ok().unwrap();
    assert_eq!(img.data(), &vec![4, 3, 2, 1, 8, 7, 6, 5]);
}

#[test]
fn decode_grayscale_png_is_refused() {
    let bytes = encode(2, 2, png::ColorType::Grayscale, &[0, 50, 100, 150]);
    assert!(matches!(
        PngImage::decode(&bytes),
        Err(DecodeError::Image(ImageError::UnsupportedColor))
    ));
}

#[test]
fn decode_garbage_is_refused() {
    assert!(matches!(PngImage::decode(&vec![1, 2, 3, 4]), Err(DecodeError::Png(_))));
}

#[test]
fn drawn_image_is_one_block_at_the_origin() {
    let img = PngImage::from_samples(2, 1, PixelFormat::Rgba, &vec![1, 2, 3, 4, 5, 6, 7, 8]).unwrap();
    let mut out = DrawList::new();
    img.draw(&mut out, Position::Rect(Rect::new(7, 9, 100, 100)));
    img.draw(&mut out, Position::Intrinsic);
    assert_eq!(out.len(), 2);
    let b = out.get(0);
    assert_eq!((b.x, b.y, b.width, b.height), (7, 9, 2, 1));
    assert_eq!(b.data, vec![4, 3, 2, 1, 8, 7, 6, 5]);
    assert_eq!((out.get(1).x, out.get(1).y), (0, 0));
}
