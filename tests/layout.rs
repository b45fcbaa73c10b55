use ytesrev::anchor::{anchor_position, anchor_rect, Anchor, AnchorDirection};
use ytesrev::drawable::{DrawList, Drawable};
use ytesrev::geometry::{Position, Rect};
use ytesrev::image::PngImage;
use ytesrev::image::PixelFormat;

fn parent() -> Rect {
    Rect::new(0, 0, 100, 60)
}

fn corner(dir: AnchorDirection) -> (i32, i32) {
    let r = anchor_rect(dir, parent(), 20, 10);
    assert_eq!((r.width, r.height), (20, 10));
    (r.x, r.y)
}

#[test]
fn anchor_every_direction() {
    assert_eq!(corner(AnchorDirection::North), (40, 0));
    assert_eq!(corner(AnchorDirection::NorthEast), (80, 0));
    assert_eq!(corner(AnchorDirection::East), (80, 25));
    assert_eq!(corner(AnchorDirection::SouthEast), (80, 50));
    assert_eq!(corner(AnchorDirection::South), (40, 50));
    assert_eq!(corner(AnchorDirection::SouthWest), (0, 50));
    assert_eq!(corner(AnchorDirection::West), (0, 25));
    assert_eq!(corner(AnchorDirection::NorthWest), (0, 0));
}

#[test]
fn anchor_offset_parent() {
    let r = anchor_rect(AnchorDirection::East, Rect::new(-10, 5, 31, 21), 10, 10);
    assert_eq!(r, Rect::new(11, 10, 10, 10));
}

#[test]
fn anchor_larger_child_sticks_out() {
    let r = anchor_rect(AnchorDirection::North, Rect::new(0, 0, 10, 10), 15, 5);
    assert_eq!((r.x, r.y), (-2, 0));
    let r = anchor_rect(AnchorDirection::SouthEast, Rect::new(0, 0, 10, 10), 15, 12);
    assert_eq!((r.x, r.y), (-5, -2));
}

#[test]
fn anchor_forwards_non_rect_position() {
    let dirs = [
        AnchorDirection::North,
        AnchorDirection::East,
        AnchorDirection::South,
        AnchorDirection::West,
        AnchorDirection::NorthEast,
        AnchorDirection::SouthEast,
        AnchorDirection::SouthWest,
        AnchorDirection::NorthWest,
    ];
    for d in dirs {
        assert_eq!(anchor_position(d, Position::Intrinsic, 20, 10), Some(Position::Intrinsic));
    }
}

#[test]
fn anchor_position_rect_and_overflow() {
    assert_eq!(
        anchor_position(AnchorDirection::SouthEast, Position::Rect(parent()), 20, 10),
        Some(Position::Rect(Rect::new(80, 50, 20, 10)))
    );
    let far = Rect::new(i32::MAX, 0, 100, 10);
    assert_eq!(anchor_position(AnchorDirection::East, Position::Rect(far), 1, 1), None);
}

fn two_by_one() -> PngImage {
    PngImage::from_samples(2, 1, PixelFormat::Rgb, &vec![1, 2, 3, 4, 5, 6]).unwrap()
}

#[test]
fn anchored_image_is_drawn_at_its_corner() {
    let a = Anchor::new(AnchorDirection::SouthEast, two_by_one());
    let mut out = DrawList::new();
    a.draw(&mut out, Position::Rect(Rect::new(0, 0, 10, 10)));
    assert_eq!(out.len(), 1);
    let b = out.get(0);
    assert_eq!((b.x, b.y, b.width, b.height), (8, 9, 2, 1));
    assert_eq!(b.data, vec![255, 3, 2, 1, 255, 6, 5, 4]);
}

#[test]
fn anchored_image_intrinsic_is_drawn_at_origin() {
    let a = Anchor::new(AnchorDirection::SouthEast, two_by_one());
    let mut out = DrawList::new();
    a.draw(&mut out, Position::Intrinsic);
    assert_eq!((out.get(0).x, out.get(0).y), (0, 0));
}

#[test]
fn anchor_content_is_the_inner_drawable() {
    let mut a = Anchor::new(AnchorDirection::West, two_by_one());
    assert_eq!(a.content().len(), 1);
    assert_eq!(a.content_mut().len(), 1);
    assert_eq!(a.content_mut()[0].data().len(), 8);
}

#[test]
fn anchored_image_larger_than_parent_sticks_out() {
    let img = PngImage::from_samples(15, 15, PixelFormat::Rgb, &vec![0; 15 * 15 * 3]).unwrap();
    let a = Anchor::new(AnchorDirection::North, img);
    let mut out = DrawList::new();
    a.draw(&mut out, Position::Rect(Rect::new(0, 0, 10, 10)));
    assert_eq!((out.get(0).x, out.get(0).y, out.get(0).width, out.get(0).height), (-2, 0, 15, 15));
}

#[test]
fn anchored_placement_outside_coordinates_draws_nothing() {
    let a = Anchor::new(AnchorDirection::East, two_by_one());
    let mut out = DrawList::new();
    a.draw(&mut out, Position::Rect(Rect::new(i32::MAX, 0, 100, 10)));
    assert_eq!(out.len(), 0);
}
