//! The protocol that every visual element follows, and the pass-through
//! container that nests elements.
use vstd::prelude::*;

use crate::geometry::Position;

verus! {

/// The lifecycle phase of a drawable.
#[derive(Clone, Copy, Debug, PartialEq, Eq, Structural)]
pub enum State {
    /// Not yet ready to be shown.
    Pending,
    /// Animating, or waiting for the next step.
    Active,
    /// Finished.
    Done,
}

/// How far along a phase is: `Pending < Active < Done`.
pub open spec fn state_rank(s: State) -> nat {
    match s {
        State::Pending => 0,
        State::Active => 1,
        State::Done => 2,
    }
}

/// The least advanced of two phases.
pub open spec fn least_state(a: State, b: State) -> State {
    if state_rank(a) <= state_rank(b) { a } else { b }
}

fn least_state_exec(a: State, b: State) -> (r: State)
    ensures
        r == least_state(a, b),
{
    let ra: u8 = match a { State::Pending => 0, State::Active => 1, State::Done => 2 };
    let rb: u8 = match b { State::Pending => 0, State::Active => 1, State::Done => 2 };
    if ra <= rb { a } else { b }
}

/// One block of pixels to show: `width` by `height` pixels, row-major,
/// four bytes each (alpha, blue, green, red), with the top left corner at
/// `(x, y)`.
pub struct Blit {
    pub x: i32,
    pub y: i32,
    pub width: u32,
    pub height: u32,
    pub data: Vec<u8>,
}

impl Blit {
    pub open spec fn view(&self) -> (i32, i32, u32, u32, Seq<u8>) {
        (self.x, self.y, self.width, self.height, self.data@)
    }
}

/// The blocks of pixels a frame shows, in drawing order.
pub struct DrawList {
    blits: Vec<Blit>,
}

impl DrawList {
    /// The blocks drawn so far, in order.
    pub closed spec fn view(&self) -> Seq<(i32, i32, u32, u32, Seq<u8>)> {
        self.blits@.map_values(|b: Blit| b.view())
    }

    /// An empty frame.
    pub fn new() -> (l: DrawList)
        ensures
            l.view() == Seq::<(i32, i32, u32, u32, Seq<u8>)>::empty(),
    {
        DrawList { blits: Vec::new() }
    }

    /// Adds a block on top of what is drawn.
    pub fn push(&mut self, b: Blit)
        ensures
            final(self).view() == old(self).view().push(b.view()),
    {
        self.blits.push(b);
        proof {
            assert(self.view() =~= old(self).view().push(b.view()));
        }
    }

    /// The number of blocks drawn.
    pub fn len(&self) -> (r: usize)
        ensures
            r == self.view().len(),
    {
        self.blits.len()
    }

    /// The block at `i`.
    pub fn get(&self, i: usize) -> (r: &Blit)
        requires
            i < self.view().len(),
        ensures
            r.view() == self.view()[i as int],
    {
        &self.blits[i]
    }
}

/// Relies on `<[T]>::split_first_mut`: `None` exactly on an empty slice,
/// else the first element and the rest.
pub assume_specification<X>[ <[X]>::split_first_mut ](s: &mut [X]) -> (r: Option<(&mut X, &mut [X])>)
    ensures
        r is None <==> old(s)@.len() == 0,
        r matches Some(p) ==> *p.0 == old(s)@[0] && p.1@ == old(s)@.subrange(1, old(s)@.len() as int),
;

/// A visual element. Each operation changes the element's own state only;
/// the spec functions say how an implementation changes it.
pub trait Drawable: Sized {
    /// `next` is what one-time registration turns `self` into.
    spec fn registers_to(&self, next: &Self) -> bool;

    /// `next` is what loading resources turns `self` into.
    spec fn loads_to(&self, next: &Self) -> bool;

    /// `next` is what advancing time by `dt_us` microseconds turns `self`
    /// into.
    spec fn updates_to(&self, dt_us: u64, next: &Self) -> bool;

    /// `next` is what one discrete step turns `self` into.
    spec fn steps_to(&self, next: &Self) -> bool;

    /// The current lifecycle phase.
    spec fn phase(&self) -> State;

    /// Drawing at `pos` turns the frame `before` into `after`.
    spec fn draws(&self, pos: Position, before: &DrawList, after: &DrawList) -> bool;

    /// Registers what must be known before anything is loaded.
    fn register(&mut self)
        ensures
            old(self).registers_to(final(self)),
    ;

    /// Acquires heavy resources, once.
    fn load(&mut self)
        ensures
            old(self).loads_to(final(self)),
    ;

    /// Advances time by `dt_us` microseconds.
    fn update(&mut self, dt_us: u64)
        ensures
            old(self).updates_to(dt_us, final(self)),
    ;

    /// Advances to the next discrete unit.
    fn step(&mut self)
        ensures
            old(self).steps_to(final(self)),
    ;

    /// The current lifecycle phase.
    fn state(&self) -> (r: State)
        ensures
            r == self.phase(),
    ;

    /// Renders into `pos`.
    fn draw(&self, out: &mut DrawList, pos: Position)
        ensures
            self.draws(pos, old(out), final(out)),
    ;
}

/// A drawable of a known fixed size in pixels.
pub trait KnownSize {
    spec fn spec_width(&self) -> u32;

    spec fn spec_height(&self) -> u32;

    fn width(&self) -> (r: u32)
        ensures
            r == self.spec_width(),
    ;

    fn height(&self) -> (r: u32)
        ensures
            r == self.spec_height(),
    ;
}

} // verus!

verus! {

/// The least advanced of a sequence of phases, and `Done` when there are
/// none.
pub open spec fn least_of(ps: Seq<State>) -> State
    decreases ps.len(),
{
    if ps.len() == 0 {
        State::Done
    } else {
        least_state(least_of(ps.drop_last()), ps.last())
    }
}

/// A pass-through container: each operation goes to every child in order,
/// and each child is drawn at the position the group is given.
pub struct Group<T> {
    pub children: Vec<T>,
}

impl<T: Drawable> Group<T> {
    pub fn new(children: Vec<T>) -> (g: Group<T>)
        ensures
            g.children@ == children@,
    {
        Group { children }
    }

    /// The children, in order.
    pub fn content(&self) -> (r: Vec<&T>)
        ensures
            r@.len() == self.children@.len(),
            forall|i: int| 0 <= i < r@.len() ==> *r@[i] == self.children@[i],
    {
        let mut r: Vec<&T> = Vec::new();
        let mut i: usize = 0;
        while i < self.children.len()
            invariant
                i <= self.children@.len(),
                r@.len() == i,
                forall|j: int| 0 <= j < i ==> *r@[j] == self.children@[j],
            decreases self.children@.len() - i,
        {
            r.push(&self.children[i]);
            i = i + 1;
        }
        r
    }

    /// The children, in order, for changing them.
    pub fn content_mut(&mut self) -> (r: Vec<&mut T>)
        ensures
            r@.len() == old(self).children@.len(),
            forall|i: int| 0 <= i < r@.len() ==> *r@[i] == old(self).children@[i],
    {
        let ghost all = self.children@;
        let mut r: Vec<&mut T> = Vec::new();
        let mut rest: &mut [T] = self.children.as_mut_slice();
        loop
            invariant
                all == old(self).children@,
                r@.len() + rest@.len() == all.len(),
                forall|i: int| 0 <= i < r@.len() ==> *r@[i] == all[i],
                rest@ == all.subrange(r@.len() as int, all.len() as int),
            decreases rest@.len(),
        {
            match rest.split_first_mut() {
                Some((first, tail)) => {
                    r.push(first);
                    rest = tail;
                },
                None => {
                    return r;
                },
            }
        }
    }

    /// The child at `i`, for changing it.
    pub fn child_mut(&mut self, i: usize) -> (r: &mut T)
        requires
            i < old(self).children@.len(),
        ensures
            *r == old(self).children@[i as int],
            final(self).children@ == old(self).children@.update(i as int, *final(r)),
    {
        &mut self.children[i]
    }
}

impl<T: Drawable> Drawable for Group<T> {
    open spec fn registers_to(&self, next: &Self) -> bool {
        &&& next.children@.len() == self.children@.len()
        &&& forall|i: int| 0 <= i < self.children@.len() ==> self.children@[i].registers_to(&next.children@[i])
    }

    open spec fn loads_to(&self, next: &Self) -> bool {
        &&& next.children@.len() == self.children@.len()
        &&& forall|i: int| 0 <= i < self.children@.len() ==> self.children@[i].loads_to(&next.children@[i])
    }

    open spec fn updates_to(&self, dt_us: u64, next: &Self) -> bool {
        &&& next.children@.len() == self.children@.len()
        &&& forall|i: int| 0 <= i < self.children@.len() ==> self.children@[i].updates_to(dt_us, &next.children@[i])
    }

    open spec fn steps_to(&self, next: &Self) -> bool {
        &&& next.children@.len() == self.children@.len()
        &&& forall|i: int| 0 <= i < self.children@.len() ==> self.children@[i].steps_to(&next.children@[i])
    }

    /// The least advanced of the children's phases.
    open spec fn phase(&self) -> State {
        least_of(self.children@.map_values(|c: T| c.phase()))
    }

    /// Each child in turn draws at `pos`, from `before` to `after`.
    open spec fn draws(&self, pos: Position, before: &DrawList, after: &DrawList) -> bool {
        exists|mids: Seq<DrawList>| #[trigger] mids.len() == self.children@.len() + 1
            && mids[0] == *before && mids.last() == *after
            && forall|i: int| 0 <= i < self.children@.len() ==> self.children@[i].draws(pos, &mids[i], &mids[i + 1])
    }

    fn register(&mut self) {
        let n = self.children.len();
        let mut i: usize = 0;
        while i < n
            invariant
                n == old(self).children@.len(),
                self.children@.len() == n,
                i <= n,
                forall|j: int| 0 <= j < i ==> old(self).children@[j].registers_to(&self.children@[j]),
                forall|j: int| i <= j < n ==> self.children@[j] == old(self).children@[j],
            decreases n - i,
        {
            self.children[i].register();
            i = i + 1;
        }
    }

    fn load(&mut self) {
        let n = self.children.len();
        let mut i: usize = 0;
        while i < n
            invariant
                n == old(self).children@.len(),
                self.children@.len() == n,
                i <= n,
                forall|j: int| 0 <= j < i ==> old(self).children@[j].loads_to(&self.children@[j]),
                forall|j: int| i <= j < n ==> self.children@[j] == old(self).children@[j],
            decreases n - i,
        {
            self.children[i].load();
            i = i + 1;
        }
    }

    fn update(&mut self, dt_us: u64) {
        let n = self.children.len();
        let mut i: usize = 0;
        while i < n
            invariant
                n == old(self).children@.len(),
                self.children@.len() == n,
                i <= n,
                forall|j: int| 0 <= j < i ==> old(self).children@[j].updates_to(dt_us, &self.children@[j]),
                forall|j: int| i <= j < n ==> self.children@[j] == old(self).children@[j],
            decreases n - i,
        {
            self.children[i].update(dt_us);
            i = i + 1;
        }
    }

    fn step(&mut self) {
        let n = self.children.len();
        let mut i: usize = 0;
        while i < n
            invariant
                n == old(self).children@.len(),
                self.children@.len() == n,
                i <= n,
                forall|j: int| 0 <= j < i ==> old(self).children@[j].steps_to(&self.children@[j]),
                forall|j: int| i <= j < n ==> self.children@[j] == old(self).children@[j],
            decreases n - i,
        {
            self.children[i].step();
            i = i + 1;
        }
    }

    fn state(&self) -> (r: State) {
        let ghost phases = self.children@.map_values(|c: T| c.phase());
        let mut r = State::Done;
        let mut i: usize = 0;
        while i < self.children.len()
            invariant
                i <= self.children@.len(),
                phases == self.children@.map_values(|c: T| c.phase()),
                r == least_of(phases.take(i as int)),
            decreases self.children@.len() - i,
        {
            let s = self.children[i].state();
            proof {
                assert(phases.take(i as int + 1).drop_last() =~= phases.take(i as int));
            }
            r = least_state_exec(r, s);
            i = i + 1;
        }
        proof {
            assert(phases.take(i as int) =~= phases);
        }
        r
    }

    fn draw(&self, out: &mut DrawList, pos: Position) {
        let ghost mut mids: Seq<DrawList> = seq![*out];
        let mut i: usize = 0;
        while i < self.children.len()
            invariant
                i <= self.children@.len(),
                mids.len() == i + 1,
                mids[0] == *old(out),
                mids.last() == *out,
                forall|j: int| 0 <= j < i ==> self.children@[j].draws(pos, &mids[j], &mids[j + 1]),
            decreases self.children@.len() - i,
        {
            self.children[i].draw(out, pos);
            proof {
                mids = mids.push(*out);
            }
            i = i + 1;
        }
    }
}

} // verus!
