use std::cell::RefCell;
use std::rc::Rc;

use ytesrev::drawable::{DrawList, Drawable, Group, State};
use ytesrev::driver::{translate, InputKind, Key, Scene, WindowManager, YEvent};
use ytesrev::geometry::Position;

type Log = Rc<RefCell<Vec<String>>>;

struct Node {
    name: &'static str,
    log: Log,
    state: State,
}

impl Node {
    fn new(name: &'static str, log: &Log) -> Node {
        Node { name, log: log.clone(), state: State::Pending }
    }

    fn note(&self, what: String) {
        self.log.borrow_mut().push(format!("{} {}", self.name, what));
    }
}

impl Drawable for Node {
    fn registers_to(&self, _next: &Self) -> bool {
        true
    }
    fn loads_to(&self, _next: &Self) -> bool {
        true
    }
    fn updates_to(&self, _dt_us: u64, _next: &Self) -> bool {
        true
    }
    fn steps_to(&self, _next: &Self) -> bool {
        true
    }
    fn phase(&self) -> State {
        self.state
    }
    fn draws(&self, _pos: Position, _before: &DrawList, _after: &DrawList) -> bool {
        true
    }
    fn register(&mut self) {
        self.note("register".to_string());
    }
    fn load(&mut self) {
        self.note("load".to_string());
    }
    fn update(&mut self, dt_us: u64) {
        self.note(format!("update {}", dt_us));
    }
    fn step(&mut self) {
        self.note("step".to_string());
    }
    fn state(&self) -> State {
        self.state
    }
    fn draw(&self, _out: &mut DrawList, pos: Position) {
        self.note(format!("draw {:?}", pos));
    }
}

impl Scene<u32> for Node {
    fn handles(&self, _e: YEvent<u32>, _next: &Self) -> bool {
        true
    }
    fn event(&mut self, e: YEvent<u32>) {
        let s = match e {
            YEvent::Step => "event step".to_string(),
            YEvent::Next => "event next".to_string(),
            YEvent::Other(v) => format!("event other {}", v),
        };
        self.note(s);
    }
}

fn entries(log: &Log) -> Vec<String> {
    log.borrow().clone()
}

#[test]
fn group_content_in_order() {
    let log: Log = Rc::new(RefCell::new(Vec::new()));
    let g = Group::new(vec![Node::new("A", &log), Node::new("B", &log), Node::new("C", &log)]);
    let names: Vec<&str> = g.content().iter().map(|n| n.name).collect();
    assert_eq!(names, vec!["A", "B", "C"]);
}

#[test]
fn group_child_mut_reaches_each_child() {
    let log: Log = Rc::new(RefCell::new(Vec::new()));
    let mut g = Group::new(vec![Node::new("A", &log), Node::new("B", &log), Node::new("C", &log)]);
    let mut names = Vec::new();
    for i in 0..3 {
        names.push(g.child_mut(i).name);
    }
    assert_eq!(names, vec!["A", "B", "C"]);
}

#[test]
fn group_propagates_in_order_once() {
    let log: Log = Rc::new(RefCell::new(Vec::new()));
    let mut g = Group::new(vec![Node::new("A", &log), Node::new("B", &log), Node::new("C", &log)]);
    g.update(7);
    g.load();
    g.step();
    assert_eq!(
        entries(&log),
        vec![
            "A update 7", "B update 7", "C update 7", "A load", "B load", "C load", "A step", "B step",
            "C step",
        ]
    );
}

#[test]
fn group_state_is_least_advanced() {
    let log: Log = Rc::new(RefCell::new(Vec::new()));
    let mut a = Node::new("A", &log);
    let mut b = Node::new("B", &log);
    a.state = State::Done;
    b.state = State::Active;
    let g = Group::new(vec![a, b]);
    assert_eq!(g.state(), State::Active);
    let empty: Group<Node> = Group::new(Vec::new());
    assert_eq!(empty.state(), State::Done);
}

#[test]
fn translation_table() {
    assert!(matches!(translate(InputKind::KeyDown(Key::Return), 1u32), Some(YEvent::Next)));
    assert!(matches!(translate(InputKind::KeyDown(Key::Space), 2u32), Some(YEvent::Step)));
    assert!(matches!(translate(InputKind::PointerDown, 3u32), Some(YEvent::Step)));
    assert!(translate(InputKind::Quit, 4u32).is_none());
    assert!(translate(InputKind::KeyDown(Key::Escape), 5u32).is_none());
    assert!(matches!(translate(InputKind::KeyDown(Key::Other), 6u32), Some(YEvent::Other(6))));
    assert!(matches!(translate(InputKind::Other, 7u32), Some(YEvent::Other(7))));
}

#[test]
fn init_registers_all_before_loading() {
    let log: Log = Rc::new(RefCell::new(Vec::new()));
    let _wm = WindowManager::init_window(
        Node::new("cur", &log),
        vec![Node::new("o1", &log), Node::new("o2", &log)],
    );
    assert_eq!(
        entries(&log),
        vec!["cur register", "o1 register", "o2 register", "cur load", "o1 load", "o2 load"]
    );
}

#[test]
fn first_tick_does_nothing_second_updates_once() {
    let log: Log = Rc::new(RefCell::new(Vec::new()));
    let mut wm = WindowManager::init_window(Node::new("cur", &log), Vec::new());
    log.borrow_mut().clear();
    let first = wm.process_events(1_000, vec![(InputKind::KeyDown(Key::Return), 0u32)]);
    assert_eq!(first, (true, None, vec![(InputKind::KeyDown(Key::Return), 0u32)]));
    assert!(entries(&log).is_empty());
    let second = wm.process_events(6_000, Vec::new());
    assert_eq!(second, (true, None, Vec::new()));
    assert_eq!(entries(&log), vec!["cur update 5000"]);
}

#[test]
fn events_dispatch_in_order_until_stop() {
    let log: Log = Rc::new(RefCell::new(Vec::new()));
    let mut wm = WindowManager::init_window(Node::new("cur", &log), Vec::new());
    wm.process_events(0, Vec::new());
    log.borrow_mut().clear();
    let r = wm.process_events(
        10,
        vec![
            (InputKind::KeyDown(Key::Return), 0u32),
            (InputKind::KeyDown(Key::Space), 1),
            (InputKind::PointerDown, 2),
            (InputKind::Other, 3),
            (InputKind::KeyDown(Key::Escape), 4),
            (InputKind::KeyDown(Key::Return), 5),
        ],
    );
    assert!(!r.0);
    assert_eq!(
        entries(&log),
        vec!["cur update 10", "cur event next", "cur event step", "cur event step", "cur event other 3"]
    );
}

#[test]
fn quit_stops_with_no_dispatch() {
    let log: Log = Rc::new(RefCell::new(Vec::new()));
    let mut wm = WindowManager::init_window(Node::new("cur", &log), Vec::new());
    wm.process_events(0, Vec::new());
    log.borrow_mut().clear();
    let r = wm.process_events(5, vec![(InputKind::Quit, 9u32), (InputKind::KeyDown(Key::Space), 1)]);
    assert!(!r.0);
    assert_eq!(entries(&log), vec!["cur update 5"]);
}

#[test]
fn draw_uses_whole_client_area() {
    let log: Log = Rc::new(RefCell::new(Vec::new()));
    let wm = WindowManager::init_window(Node::new("cur", &log), Vec::new());
    log.borrow_mut().clear();
    wm.draw(&mut DrawList::new(), 640, 480);
    assert_eq!(
        entries(&log),
        vec!["cur draw Rect(Rect { x: 0, y: 0, width: 640, height: 480 })"]
    );
}

#[test]
fn group_content_mut_in_order() {
    let log: Log = Rc::new(RefCell::new(Vec::new()));
    let mut g = Group::new(vec![Node::new("A", &log), Node::new("B", &log), Node::new("C", &log)]);
    let mut refs = g.content_mut();
    assert_eq!(refs.len(), 3);
    for r in refs.iter_mut() {
        r.step();
    }
    assert_eq!(entries(&log), vec!["A step", "B step", "C step"]);
}
