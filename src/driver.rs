//! The frame driver: scene setup, input translation and the per-frame
//! update of the active scene.
use vstd::prelude::*;

use crate::drawable::{DrawList, Drawable};
use crate::geometry::{Position, Rect};
use crate::timer::{elapsed, later, FpsReport, TimeManager};

verus! {

/// A semantic input event, as a scene receives it.
pub enum YEvent<E> {
    /// Advance the current element by one step.
    Step,
    /// Move on to what comes next.
    Next,
    /// Any other raw input, handed on as it came.
    Other(E),
}

/// The keys that the driver tells apart.
#[derive(Clone, Copy, Debug, PartialEq, Eq, Structural)]
pub enum Key {
    Escape,
    Return,
    Space,
    /// Any other key, or a key press without a key code.
    Other,
}

/// What the driver reads of a raw input event.
#[derive(Clone, Copy, Debug, PartialEq, Eq, Structural)]
pub enum InputKind {
    /// The window was asked to close.
    Quit,
    /// A key went down.
    KeyDown(Key),
    /// A pointer button went down.
    PointerDown,
    /// Anything else.
    Other,
}

/// The input ends the loop.
pub open spec fn is_stop(kind: InputKind) -> bool {
    kind == InputKind::Quit || kind == InputKind::KeyDown(Key::Escape)
}

/// The semantic event of a raw event `raw` of kind `kind`, or `None` where
/// it ends the loop.
pub open spec fn semantic<E>(kind: InputKind, raw: E) -> Option<YEvent<E>> {
    match kind {
        InputKind::Quit | InputKind::KeyDown(Key::Escape) => None,
        InputKind::KeyDown(Key::Return) => Some(YEvent::Next),
        InputKind::KeyDown(Key::Space) | InputKind::PointerDown => Some(YEvent::Step),
        _ => Some(YEvent::Other(raw)),
    }
}

/// Translates one raw event: `None` ends the loop, else the event to
/// dispatch.
pub fn translate<E>(kind: InputKind, raw: E) -> (r: Option<YEvent<E>>)
    ensures
        r == semantic(kind, raw),
        r is None <==> is_stop(kind),
{
    match kind {
        InputKind::Quit | InputKind::KeyDown(Key::Escape) => None,
        InputKind::KeyDown(Key::Return) => Some(YEvent::Next),
        InputKind::KeyDown(Key::Space) | InputKind::PointerDown => Some(YEvent::Step),
        _ => Some(YEvent::Other(raw)),
    }
}

/// Some event of `evs` ends the loop.
pub open spec fn stops<E>(evs: Seq<(InputKind, E)>) -> bool
    decreases evs.len(),
{
    evs.len() > 0 && (stops(evs.drop_last()) || is_stop(evs.last().0))
}

/// The semantic events of `evs` that come before the first one that ends
/// the loop, in order.
pub open spec fn dispatched<E>(evs: Seq<(InputKind, E)>) -> Seq<YEvent<E>>
    decreases evs.len(),
{
    if evs.len() == 0 {
        Seq::empty()
    } else if stops(evs.drop_last()) {
        dispatched(evs.drop_last())
    } else {
        match semantic(evs.last().0, evs.last().1) {
            Some(y) => dispatched(evs.drop_last()).push(y),
            None => dispatched(evs.drop_last()),
        }
    }
}

/// One full page of content, which also receives input.
pub trait Scene<E>: Drawable {
    /// `next` is what handling `e` turns `self` into.
    spec fn handles(&self, e: YEvent<E>, next: &Self) -> bool;

    /// Handles one semantic input event.
    fn event(&mut self, e: YEvent<E>)
        ensures
            old(self).handles(e, final(self)),
    ;
}

/// `last` is what handling the events `ys` in order turns `first` into.
pub open spec fn handles_all<E, S: Scene<E>>(first: S, ys: Seq<YEvent<E>>, last: S) -> bool
    decreases ys.len(),
{
    if ys.len() == 0 {
        last == first
    } else {
        exists|mid: S| handles_all(first, ys.drop_last(), mid) && #[trigger] mid.handles(ys.last(), &last)
    }
}

/// Registering and then loading turns `first` into `last`.
pub open spec fn prepared<S: Drawable>(first: S, last: S) -> bool {
    exists|mid: S| #[trigger] first.registers_to(&mid) && mid.loads_to(&last)
}

/// Drives the active scene and keeps the other scenes loaded.
pub struct WindowManager<S> {
    /// The scene that is updated, drawn and receives input.
    pub curr_scene: S,
    /// Scenes that are registered and loaded, but not run.
    pub other_scenes: Vec<S>,
    /// Times the frames; absent until the first frame.
    pub time_manager: Option<TimeManager>,
}

impl<S: Drawable> WindowManager<S> {
    /// No frame has been processed yet.
    pub open spec fn is_fresh(&self) -> bool {
        self.time_manager is None
    }

    /// Either no frame has been processed, or the timer is running.
    pub open spec fn wf(&self) -> bool {
        self.is_fresh() || self.is_running()
    }

    /// The frame timer is running and well formed.
    pub open spec fn is_running(&self) -> bool {
        self.time_manager matches Some(tm) && tm.wf()
    }

    /// When the previous frame was timed.
    pub open spec fn spec_last_time(&self) -> u64 {
        self.time_manager->Some_0.spec_last_time()
    }

    /// Takes the scenes, registers each of them, the active one first, then
    /// the others in order, and once all are registered loads them in the
    /// same order.
    pub fn init_window(curr_scene: S, other_scenes: Vec<S>) -> (wm: WindowManager<S>)
        ensures
            wm.wf(),
            wm.is_fresh(),
            prepared(curr_scene, wm.curr_scene),
            wm.other_scenes@.len() == other_scenes@.len(),
            forall|i: int| 0 <= i < other_scenes@.len() ==> prepared(other_scenes@[i], #[trigger] wm.other_scenes@[i]),
    {
        let mut wm = WindowManager::register_scenes(curr_scene, other_scenes);
        let ghost registered = wm;
        wm.load_scenes();
        proof {
            assert forall|i: int| 0 <= i < other_scenes@.len() implies prepared(other_scenes@[i], #[trigger] wm.other_scenes@[i]) by {
                assert(other_scenes@[i].registers_to(&registered.other_scenes@[i]));
                assert(registered.other_scenes@[i].loads_to(&wm.other_scenes@[i]));
            }
        }
        wm
    }

    fn register_scenes(curr_scene: S, other_scenes: Vec<S>) -> (wm: WindowManager<S>)
        ensures
            wm.is_fresh(),
            curr_scene.registers_to(&wm.curr_scene),
            wm.other_scenes@.len() == other_scenes@.len(),
            forall|i: int| 0 <= i < other_scenes@.len() ==> other_scenes@[i].registers_to(&wm.other_scenes@[i]),
    {
        let mut wm = WindowManager { curr_scene, other_scenes, time_manager: None };
        wm.curr_scene.register();
        let n = wm.other_scenes.len();
        let mut i: usize = 0;
        while i < n
            invariant
                n == other_scenes@.len(),
                wm.other_scenes@.len() == n,
                i <= n,
                wm.is_fresh(),
                curr_scene.registers_to(&wm.curr_scene),
                forall|j: int| 0 <= j < i ==> other_scenes@[j].registers_to(&wm.other_scenes@[j]),
                forall|j: int| i <= j < n ==> wm.other_scenes@[j] == other_scenes@[j],
            decreases n - i,
        {
            wm.other_scenes[i].register();
            i = i + 1;
        }
        wm
    }

    fn load_scenes(&mut self)
        ensures
            final(self).is_fresh() == old(self).is_fresh(),
            final(self).time_manager == old(self).time_manager,
            old(self).curr_scene.loads_to(&final(self).curr_scene),
            final(self).other_scenes@.len() == old(self).other_scenes@.len(),
            forall|i: int| 0 <= i < old(self).other_scenes@.len()
                ==> old(self).other_scenes@[i].loads_to(&final(self).other_scenes@[i]),
    {
        self.curr_scene.load();
        let n = self.other_scenes.len();
        let mut i: usize = 0;
        while i < n
            invariant
                n == old(self).other_scenes@.len(),
                self.other_scenes@.len() == n,
                i <= n,
                self.time_manager == old(self).time_manager,
                old(self).curr_scene.loads_to(&self.curr_scene),
                forall|j: int| 0 <= j < i ==> old(self).other_scenes@[j].loads_to(&self.other_scenes@[j]),
                forall|j: int| i <= j < n ==> self.other_scenes@[j] == old(self).other_scenes@[j],
            decreases n - i,
        {
            self.other_scenes[i].load();
            i = i + 1;
        }
    }

    /// Draws the active scene into the whole client area, `w` by `h`.
    pub fn draw(&self, out: &mut DrawList, w: u32, h: u32)
        ensures
            self.curr_scene.draws(Position::Rect(Rect { x: 0, y: 0, width: w, height: h }), old(out), final(out)),
    {
        self.curr_scene.draw(out, Position::Rect(Rect::new(0, 0, w, h)));
    }
}


impl<S: Drawable> WindowManager<S> {
    /// Processes one frame's input. The first frame only starts the frame
    /// timer at `now_us`, and hands `events` back untouched for the next
    /// frame. Every later frame advances the active scene by the
    /// time since the previous frame, then hands it the semantic events of
    /// `events` in order; the first event that ends the loop stops the
    /// dispatch, and the events after it are dropped. Returns whether the
    /// loop goes on, the timer's frame rate report, if one is due, and the
    /// events left for the next frame.
    pub fn process_events<E>(&mut self, now_us: u64, mut events: Vec<(InputKind, E)>) -> (r: (bool, Option<FpsReport>, Vec<(InputKind, E)>))
        where S: Scene<E>
        requires
            old(self).wf(),
        ensures
            final(self).is_running(),
            final(self).other_scenes == old(self).other_scenes,
            old(self).is_fresh() ==> {
                &&& r.0
                &&& r.1 is None
                &&& r.2@ == events@
                &&& final(self).spec_last_time() == now_us
                &&& final(self).curr_scene == old(self).curr_scene
            },
            !old(self).is_fresh() ==> {
                &&& r.0 == !stops(events@)
                &&& r.2@.len() == 0
                &&& old(self).time_manager->Some_0.dt_step(now_us, &final(self).time_manager->Some_0,
                    (elapsed(old(self).spec_last_time(), now_us), r.1))
                &&& final(self).spec_last_time() == later(old(self).spec_last_time(), now_us)
                &&& exists|mid: S| #[trigger] old(self).curr_scene.updates_to(elapsed(old(self).spec_last_time(), now_us), &mid)
                    && handles_all(mid, dispatched(events@), final(self).curr_scene)
            },
    {
        let report = match &mut self.time_manager {
            None => {
                self.time_manager = Some(TimeManager::new(now_us));
                return (true, None, events);
            },
            Some(tm) => {
                let (dt, report) = tm.dt(now_us);
                self.curr_scene.update(dt);
                report
            },
        };
        let ghost mid = self.curr_scene;
        let ghost timed = self.time_manager;
        let ghost evs = events@;
        let n: usize = events.len();
        let mut i: usize = 0;
        let mut running = true;
        proof {
            assert(evs.take(0) =~= Seq::<(InputKind, E)>::empty());
        }
        while events.len() > 0
            invariant_except_break
                events@ == evs.subrange(i as int, evs.len() as int),
                !stops(evs.take(i as int)),
                handles_all(mid, dispatched(evs.take(i as int)), self.curr_scene),
                running,
            invariant
                i <= evs.len(),
                evs.len() == n,
                self.other_scenes == old(self).other_scenes,
                !old(self).is_fresh(),
                old(self).curr_scene.updates_to(elapsed(old(self).spec_last_time(), now_us), &mid),
                self.time_manager == timed,
                old(self).time_manager->Some_0.dt_step(now_us, &timed->Some_0,
                    (elapsed(old(self).spec_last_time(), now_us), report)),
                self.is_running(),
                self.spec_last_time() == later(old(self).spec_last_time(), now_us),
            ensures
                i <= evs.len(),
                running ==> i == evs.len() && !stops(evs.take(i as int))
                    && handles_all(mid, dispatched(evs.take(i as int)), self.curr_scene),
                !running ==> stops(evs) && handles_all(mid, dispatched(evs), self.curr_scene),
                self.other_scenes == old(self).other_scenes,
                self.is_running(),
                self.spec_last_time() == later(old(self).spec_last_time(), now_us),
            decreases events@.len(),
        {
            assert(i < evs.len());
            let (kind, raw) = events.remove(0);
            proof {
                assert(evs[i as int] == (kind, raw));
                assert(evs.take(i as int + 1).drop_last() =~= evs.take(i as int));
                assert(evs.take(i as int + 1).last() == (kind, raw));
            }
            let ghost before = self.curr_scene;
            match translate(kind, raw) {
                None => {
                    proof {
                        assert(stops(evs.take(i as int + 1)));
                        assert(dispatched(evs.take(i as int + 1)) == dispatched(evs.take(i as int)));
                        lemma_stop_prefix(evs, i as int + 1);
                    }
                    running = false;
                    break;
                },
                Some(y) => {
                    self.curr_scene.event(y);
                    proof {
                        let ys = dispatched(evs.take(i as int + 1));
                        assert(ys.drop_last() == dispatched(evs.take(i as int)));
                        assert(handles_all(mid, ys.drop_last(), before) && before.handles(ys.last(), &self.curr_scene));
                    }
                },
            }
            i = i + 1;
            proof {
                assert(events@ =~= evs.subrange(i as int, evs.len() as int));
            }
        }
        proof {
            if running {
                assert(evs.take(i as int) =~= evs);
            }
        }
        (running, report, Vec::new())
    }
}

/// Once some prefix of `evs` ends the loop, so does `evs`, and the events
/// after that prefix dispatch nothing.
proof fn lemma_stop_prefix<E>(evs: Seq<(InputKind, E)>, i: int)
    requires
        0 <= i <= evs.len(),
        stops(evs.take(i)),
    ensures
        stops(evs),
        dispatched(evs) == dispatched(evs.take(i)),
    decreases evs.len(),
{
    if i == evs.len() {
        assert(evs.take(i) =~= evs);
    } else {
        assert(evs.drop_last().take(i) =~= evs.take(i));
        lemma_stop_prefix(evs.drop_last(), i);
    }
}

} // verus!
