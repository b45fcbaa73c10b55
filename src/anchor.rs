//! An anchor sticks a sized drawable to one side or corner of the rectangle
//! it is drawn into.
use vstd::prelude::*;

use crate::drawable::{DrawList, Drawable, KnownSize, State};
use crate::geometry::{Position, Rect};

verus! {

/// The side or corner to anchor to.
#[derive(Clone, Copy, Debug, PartialEq, Eq, Structural)]
pub enum AnchorDirection {
    North,
    East,
    South,
    West,
    NorthEast,
    SouthEast,
    SouthWest,
    NorthWest,
}

/// Half of `d`, rounded toward zero.
pub open spec fn half_toward_zero(d: int) -> int {
    if d >= 0 { d / 2 } else { -((-d) / 2) }
}

/// The x coordinate of a child of width `iw` anchored inside `r`.
pub open spec fn anchored_x(dir: AnchorDirection, r: Rect, iw: int) -> int {
    match dir {
        AnchorDirection::North | AnchorDirection::South => r.x + half_toward_zero(r.width - iw),
        AnchorDirection::East | AnchorDirection::NorthEast | AnchorDirection::SouthEast => r.x + r.width - iw,
        AnchorDirection::West | AnchorDirection::NorthWest | AnchorDirection::SouthWest => r.x as int,
    }
}

/// The y coordinate of a child of height `ih` anchored inside `r`.
pub open spec fn anchored_y(dir: AnchorDirection, r: Rect, ih: int) -> int {
    match dir {
        AnchorDirection::East | AnchorDirection::West => r.y + half_toward_zero(r.height - ih),
        AnchorDirection::South | AnchorDirection::SouthEast | AnchorDirection::SouthWest => r.y + r.height - ih,
        AnchorDirection::North | AnchorDirection::NorthEast | AnchorDirection::NorthWest => r.y as int,
    }
}

/// The anchored placement is representable in window coordinates.
pub open spec fn anchor_fits(dir: AnchorDirection, r: Rect, iw: u32, ih: u32) -> bool {
    &&& i32::MIN <= anchored_x(dir, r, iw as int) <= i32::MAX
    &&& i32::MIN <= anchored_y(dir, r, ih as int) <= i32::MAX
}

fn half_toward_zero_exec(d: i64) -> (h: i64)
    requires
        -0x1_0000_0000i64 <= d <= 0x1_0000_0000i64,
    ensures
        h == half_toward_zero(d as int),
{
    if d >= 0 {
        d / 2
    } else {
        let n: i64 = -d;
        -(n / 2)
    }
}

/// The corner of the anchored placement, in a range wide enough for any input.
fn anchored_corner(dir: AnchorDirection, r: Rect, iw: u32, ih: u32) -> (c: (i64, i64))
    ensures
        c.0 == anchored_x(dir, r, iw as int),
        c.1 == anchored_y(dir, r, ih as int),
{
    let dw: i64 = r.width as i64 - iw as i64;
    let dh: i64 = r.height as i64 - ih as i64;
    let x: i64 = match dir {
        AnchorDirection::North | AnchorDirection::South => r.x as i64 + half_toward_zero_exec(dw),
        AnchorDirection::East | AnchorDirection::NorthEast | AnchorDirection::SouthEast => r.x as i64 + dw,
        AnchorDirection::West | AnchorDirection::NorthWest | AnchorDirection::SouthWest => r.x as i64,
    };
    let y: i64 = match dir {
        AnchorDirection::East | AnchorDirection::West => r.y as i64 + half_toward_zero_exec(dh),
        AnchorDirection::South | AnchorDirection::SouthEast | AnchorDirection::SouthWest => r.y as i64 + dh,
        AnchorDirection::North | AnchorDirection::NorthEast | AnchorDirection::NorthWest => r.y as i64,
    };
    (x, y)
}

/// The rectangle of size `(iw, ih)` placed inside `r` according to `dir`.
/// A child larger than `r` sticks out of it; nothing is clamped.
pub fn anchor_rect(dir: AnchorDirection, r: Rect, iw: u32, ih: u32) -> (res: Rect)
    requires
        anchor_fits(dir, r, iw, ih),
    ensures
        res.x == anchored_x(dir, r, iw as int),
        res.y == anchored_y(dir, r, ih as int),
        res.width == iw,
        res.height == ih,
{
    let (x, y) = anchored_corner(dir, r, iw, ih);
    Rect { x: x as i32, y: y as i32, width: iw, height: ih }
}

/// The position handed on to an anchored child of size `(iw, ih)`.
/// A position that is not a rectangle is handed on as it is; a placement
/// that leaves the window coordinate space gives `None`.
pub open spec fn anchored_position(dir: AnchorDirection, pos: Position, iw: u32, ih: u32) -> Option<Position> {
    match pos {
        Position::Rect(r) => if anchor_fits(dir, r, iw, ih) {
            Some(Position::Rect(Rect {
                x: anchored_x(dir, r, iw as int) as i32,
                y: anchored_y(dir, r, ih as int) as i32,
                width: iw,
                height: ih,
            }))
        } else {
            None
        },
        _ => Some(pos),
    }
}

/// Computes `anchored_position`.
pub fn anchor_position(dir: AnchorDirection, pos: Position, iw: u32, ih: u32) -> (res: Option<Position>)
    ensures
        res == anchored_position(dir, pos, iw, ih),
{
    match pos {
        Position::Rect(r) => {
            let (x, y) = anchored_corner(dir, r, iw, ih);
            if i32::MIN as i64 <= x && x <= i32::MAX as i64 && i32::MIN as i64 <= y && y <= i32::MAX as i64 {
                Some(Position::Rect(anchor_rect(dir, r, iw, ih)))
            } else {
                None
            }
        },
        _ => Some(pos),
    }
}

/// A child no larger than the rectangle is placed inside it, flush with the
/// edges that the direction names and centred on the other axis; where the
/// rectangle lies within window coordinates, so does the placement.
pub proof fn lemma_anchor_inside(dir: AnchorDirection, r: Rect, iw: u32, ih: u32)
    requires
        iw <= r.width,
        ih <= r.height,
    ensures
        r.x + r.width <= i32::MAX && r.y + r.height <= i32::MAX ==> anchor_fits(dir, r, iw, ih),
        r.x <= anchored_x(dir, r, iw as int),
        anchored_x(dir, r, iw as int) + iw <= r.x + r.width,
        r.y <= anchored_y(dir, r, ih as int),
        anchored_y(dir, r, ih as int) + ih <= r.y + r.height,
        match dir {
            AnchorDirection::North | AnchorDirection::NorthEast | AnchorDirection::NorthWest =>
                anchored_y(dir, r, ih as int) == r.y,
            AnchorDirection::South | AnchorDirection::SouthEast | AnchorDirection::SouthWest =>
                anchored_y(dir, r, ih as int) + ih == r.y + r.height,
            AnchorDirection::East | AnchorDirection::West =>
                anchored_y(dir, r, ih as int) - r.y == (r.y + r.height) - (anchored_y(dir, r, ih as int) + ih)
                || anchored_y(dir, r, ih as int) - r.y + 1 == (r.y + r.height) - (anchored_y(dir, r, ih as int) + ih),
        },
        match dir {
            AnchorDirection::West | AnchorDirection::NorthWest | AnchorDirection::SouthWest =>
                anchored_x(dir, r, iw as int) == r.x,
            AnchorDirection::East | AnchorDirection::NorthEast | AnchorDirection::SouthEast =>
                anchored_x(dir, r, iw as int) + iw == r.x + r.width,
            AnchorDirection::North | AnchorDirection::South =>
                anchored_x(dir, r, iw as int) - r.x == (r.x + r.width) - (anchored_x(dir, r, iw as int) + iw)
                || anchored_x(dir, r, iw as int) - r.x + 1 == (r.x + r.width) - (anchored_x(dir, r, iw as int) + iw),
        },
{
}

/// Moving the rectangle moves the anchored placement by the same amount.
pub proof fn lemma_anchor_shift(dir: AnchorDirection, r: Rect, dx: int, dy: int, iw: u32, ih: u32)
    requires
        i32::MIN <= r.x + dx <= i32::MAX,
        i32::MIN <= r.y + dy <= i32::MAX,
    ensures
        anchored_x(dir, Rect { x: (r.x + dx) as i32, y: (r.y + dy) as i32, width: r.width, height: r.height }, iw as int)
            == anchored_x(dir, r, iw as int) + dx,
        anchored_y(dir, Rect { x: (r.x + dx) as i32, y: (r.y + dy) as i32, width: r.width, height: r.height }, ih as int)
            == anchored_y(dir, r, ih as int) + dy,
{
}

/// A sized drawable stuck to one side or corner of whatever rectangle it is
/// drawn into. Every other operation goes straight to the inner drawable.
pub struct Anchor<T: Drawable + KnownSize> {
    /// The anchored drawable.
    pub inner: T,
    /// Where it is anchored.
    pub direction: AnchorDirection,
}

impl<T: Drawable + KnownSize> Anchor<T> {
    pub fn new(direction: AnchorDirection, inner: T) -> (a: Anchor<T>)
        ensures
            a.direction == direction,
            a.inner == inner,
    {
        Anchor { direction, inner }
    }

    /// The one child: the anchored drawable.
    pub fn content(&self) -> (r: Vec<&T>)
        ensures
            r@.len() == 1,
            *r@[0] == self.inner,
    {
        vec![&self.inner]
    }

    /// The one child, for changing it.
    pub fn content_mut(&mut self) -> (r: Vec<&mut T>)
        ensures
            r@.len() == 1,
            *r@[0] == old(self).inner,
    {
        let mut r: Vec<&mut T> = Vec::new();
        r.push(&mut self.inner);
        r
    }
}

impl<T: Drawable + KnownSize> Drawable for Anchor<T> {
    open spec fn registers_to(&self, next: &Self) -> bool {
        next.direction == self.direction && self.inner.registers_to(&next.inner)
    }

    open spec fn loads_to(&self, next: &Self) -> bool {
        next.direction == self.direction && self.inner.loads_to(&next.inner)
    }

    open spec fn updates_to(&self, dt_us: u64, next: &Self) -> bool {
        next.direction == self.direction && self.inner.updates_to(dt_us, &next.inner)
    }

    open spec fn steps_to(&self, next: &Self) -> bool {
        next.direction == self.direction && self.inner.steps_to(&next.inner)
    }

    open spec fn phase(&self) -> State {
        self.inner.phase()
    }

    /// The inner drawable draws at the anchored position, read with its
    /// current size; a placement outside the window coordinate space draws
    /// nothing.
    open spec fn draws(&self, pos: Position, before: &DrawList, after: &DrawList) -> bool {
        match anchored_position(self.direction, pos, self.inner.spec_width(), self.inner.spec_height()) {
            Some(p) => self.inner.draws(p, before, after),
            None => *after == *before,
        }
    }

    fn register(&mut self) {
        self.inner.register();
    }

    fn load(&mut self) {
        self.inner.load();
    }

    fn update(&mut self, dt_us: u64) {
        self.inner.update(dt_us);
    }

    fn step(&mut self) {
        self.inner.step();
    }

    fn state(&self) -> (r: State) {
        self.inner.state()
    }

    fn draw(&self, out: &mut DrawList, pos: Position) {
        let w = self.inner.width();
        let h = self.inner.height();
        match anchor_position(self.direction, pos, w, h) {
            Some(p) => self.inner.draw(out, p),
            None => {},
        }
    }
}

impl<T: Drawable + KnownSize> KnownSize for Anchor<T> {
    open spec fn spec_width(&self) -> u32 {
        self.inner.spec_width()
    }

    open spec fn spec_height(&self) -> u32 {
        self.inner.spec_height()
    }

    fn width(&self) -> (r: u32) {
        self.inner.width()
    }

    fn height(&self) -> (r: u32) {
        self.inner.height()
    }
}

} // verus!
