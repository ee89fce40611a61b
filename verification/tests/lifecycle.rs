use std::cell::Cell;
use std::cell::RefCell;
use std::rc::Rc;
use std::sync::mpsc::channel;
use std::sync::mpsc::Receiver;
use std::sync::Arc;
use std::sync::Mutex;

use wna::loop_step;
use wna::Dispatch;
use wna::Error;
use wna::Event;
use wna::LoopState;
use wna::MenuItem;
use wna::Repr;
use wna::Surface;
use wna::WnaBuilder;

/// A surface double that records every call and can be switched to reject
/// all calls.
struct TestSurface {
    log: Rc<RefCell<Vec<String>>>,
    fail: Rc<Cell<bool>>,
}

impl TestSurface {
    fn reply(&self, what: String) -> Result<(), String> {
        self.log.borrow_mut().push(what);
        if self.fail.get() {
            Err("rejected".to_string())
        } else {
            Ok(())
        }
    }
}

impl Surface for TestSurface {
    fn set_icon(&self, _icon: &wna::Icon) -> Result<(), String> {
        self.reply("set_icon".to_string())
    }

    fn set_tip(&self, tip: &str) -> Result<(), String> {
        self.reply(format!("set_tip {}", tip))
    }

    fn add_menu_item(&self, id: u32, title: &str) -> Result<(), String> {
        self.reply(format!("add_menu_item {} {}", id, title))
    }

    fn add_menu_separator(&self, id: u32) -> Result<(), String> {
        self.reply(format!("add_menu_separator {}", id))
    }

    fn show_balloon(&self, title: &str, body: &str) -> Result<(), String> {
        self.reply(format!("show_balloon {} {}", title, body))
    }

    fn close(&mut self) {
        self.log.borrow_mut().push("close".to_string());
    }
}

#[test]
fn loop_state_advances_only_on_shutdown_or_disconnect() {
    let running = LoopState::Running;
    assert_eq!(loop_step(running, Some(Event::Menu(0))), LoopState::Running);
    assert_eq!(loop_step(running, Some(Event::Balloon)), LoopState::Running);
    assert_eq!(loop_step(running, Some(Event::Quit)), LoopState::Terminated);
    assert_eq!(loop_step(running, None), LoopState::Terminated);
    // Terminated is absorbing: queued events are not processed.
    let done = LoopState::Terminated;
    assert_eq!(loop_step(done, Some(Event::Menu(0))), LoopState::Terminated);
    assert_eq!(loop_step(done, Some(Event::Quit)), LoopState::Terminated);
    assert_eq!(loop_step(done, None), LoopState::Terminated);
}

#[test]
fn builder_applies_configuration_in_call_order() {
    let log = Rc::new(RefCell::new(Vec::new()));
    let fail = Rc::new(Cell::new(false));
    let surface = TestSurface { log: Rc::clone(&log), fail };
    let (sender, _receiver) = channel();
    let builder = WnaBuilder::new()
        .tip("Hello!")
        .menu_item(MenuItem::Action("Quit".to_string(), 1u32))
        .menu_item(MenuItem::Separator);
    let repr = builder.finalize(surface, sender).unwrap();
    assert_eq!(
        *log.borrow(),
        vec![
            "set_tip Hello!".to_string(),
            "add_menu_item 0 Quit".to_string(),
            "add_menu_separator 1".to_string(),
        ]
    );
    assert_eq!(repr.last_menu_id(), 2);
    assert_eq!(repr.menu_action(0), Some(1));
    assert_eq!(repr.menu_action(1), None);
    assert!(!repr.is_closed());
}

#[test]
fn builder_accumulates_without_touching_the_surface() {
    let builder: WnaBuilder<u32> = WnaBuilder::default();
    assert!(builder.window_class.is_none());
    assert!(builder.icon.is_none());
    assert!(builder.tip.is_none());
    assert!(builder.menu_items.is_empty());
    let builder = builder
        .window_class("my_class")
        .icon(wna::Icon::ResourceByOrd(5))
        .tip("tip")
        .menu_item(MenuItem::Separator);
    assert_eq!(builder.window_class, Some("my_class"));
    assert!(matches!(builder.icon, Some(wna::Icon::ResourceByOrd(5))));
    assert_eq!(builder.tip.as_deref(), Some("tip"));
    assert_eq!(builder.menu_items.len(), 1);
}

#[test]
fn empty_configuration_always_finalizes() {
    let log = Rc::new(RefCell::new(Vec::new()));
    // Even a surface that rejects everything is never asked anything by an
    // empty configuration, so finalize must succeed.
    let fail = Rc::new(Cell::new(true));
    let surface = TestSurface { log: Rc::clone(&log), fail };
    let (sender, _receiver) = channel();
    let repr = match WnaBuilder::<u32>::new().finalize(surface, sender) {
        Ok(repr) => repr,
        Err(_) => panic!("finalize rejected the empty configuration"),
    };
    assert!(log.borrow().is_empty());
    assert_eq!(repr.last_menu_id(), 0);
    assert!(!repr.is_closed());
}

#[test]
fn window_class_defaults_until_set() {
    let builder = WnaBuilder::<u32>::new();
    assert_eq!(builder.effective_window_class(), "wna_window_class");
    let builder = builder.window_class("my_class");
    assert_eq!(builder.effective_window_class(), "my_class");
}

#[test]
fn finalize_applies_icon_then_tip_then_entries() {
    let log = Rc::new(RefCell::new(Vec::new()));
    let fail = Rc::new(Cell::new(false));
    let surface = TestSurface { log: Rc::clone(&log), fail };
    let (sender, _receiver) = channel();
    let builder = WnaBuilder::new()
        .menu_item(MenuItem::Action("entry".to_string(), 3u32))
        .icon(wna::Icon::File("a.ico".to_string()))
        .tip("tooltip");
    let repr = builder.finalize(surface, sender).unwrap();
    assert_eq!(
        *log.borrow(),
        vec![
            "set_icon".to_string(),
            "set_tip tooltip".to_string(),
            "add_menu_item 0 entry".to_string(),
        ]
    );
    assert_eq!(repr.menu_action(0), Some(3));
}

#[test]
fn builder_aborts_finalize_on_first_rejection() {
    let log = Rc::new(RefCell::new(Vec::new()));
    let fail = Rc::new(Cell::new(true));
    let surface = TestSurface { log: Rc::clone(&log), fail };
    let (sender, _receiver) = channel();
    let builder = WnaBuilder::new()
        .tip("Hello!")
        .menu_item(MenuItem::Action("Quit".to_string(), 1u32));
    let e = match builder.finalize(surface, sender) {
        Err(e) => e,
        Ok(_) => panic!("finalize accepted a rejected configuration"),
    };
    assert!(matches!(e, Error::SurfaceOperationFailure(_)));
    // The rejected tooltip aborted finalize before any menu entry.
    assert_eq!(*log.borrow(), vec!["set_tip Hello!".to_string()]);
}

#[test]
fn clones_of_the_shared_state_observe_one_configuration() {
    let log = Rc::new(RefCell::new(Vec::new()));
    let fail = Rc::new(Cell::new(false));
    let surface = TestSurface { log, fail };
    let (sender, _receiver) = channel();
    let original = Arc::new(Mutex::new(Repr::new(surface, sender)));
    let clone = Arc::clone(&original);
    original
        .lock()
        .unwrap()
        .add_menu_item(&MenuItem::Action("shared".to_string(), 5u32))
        .unwrap();
    // A mutation through one reference is visible through the other.
    assert_eq!(clone.lock().unwrap().menu_action(0), Some(5));
    clone.lock().unwrap().show_balloon("t", "b", 9).unwrap();
    assert_eq!(original.lock().unwrap().take_balloon_action(), Some(9));
}

/// The handle a dispatched action receives: a fresh reference to the same
/// shared state, plus a count of invocations.
struct Ctx {
    shared: Arc<Mutex<Repr<Cb, TestSurface>>>,
    invoked: Rc<Cell<u32>>,
}

/// A menu action: a plain function pointer, as the facade stores them.
#[derive(Clone, Copy)]
struct Cb(fn(&mut Ctx));

fn quit_action(ctx: &mut Ctx) {
    ctx.invoked.set(ctx.invoked.get() + 1);
    ctx.shared.lock().unwrap().close().unwrap();
}

fn count_action(ctx: &mut Ctx) {
    ctx.invoked.set(ctx.invoked.get() + 1);
}

/// Feeds one event through the same decision path the dispatch loop runs:
/// look up under the lock, release the lock, then invoke.
fn dispatch_once(
    shared: &Arc<Mutex<Repr<Cb, TestSurface>>>,
    invoked: &Rc<Cell<u32>>,
    state: LoopState,
    received: Option<Event>,
) -> LoopState {
    let decision = shared.lock().unwrap().dispatch_event(received);
    if let Dispatch::Invoke(Cb(f)) = decision {
        let mut ctx = Ctx { shared: Arc::clone(shared), invoked: Rc::clone(invoked) };
        f(&mut ctx);
    }
    loop_step(state, received)
}

fn drain(receiver: &Receiver<Event>) -> Vec<Event> {
    let mut events = Vec::new();
    while let Ok(event) = receiver.try_recv() {
        events.push(event);
    }
    events
}

#[test]
fn menu_selection_runs_quit_action_once_and_stops_the_loop() {
    let log = Rc::new(RefCell::new(Vec::new()));
    let fail = Rc::new(Cell::new(false));
    let surface = TestSurface { log: Rc::clone(&log), fail };
    let (sender, receiver) = channel();
    let builder = WnaBuilder::new()
        .tip("Hello!")
        .menu_item(MenuItem::Action("Quit".to_string(), Cb(quit_action)));
    let shared = Arc::new(Mutex::new(builder.finalize(surface, sender).unwrap()));
    let invoked = Rc::new(Cell::new(0u32));

    let mut state = LoopState::Running;
    state = dispatch_once(&shared, &invoked, state, Some(Event::Menu(0)));
    // The quit action ran exactly once, with a handle able to close.
    assert_eq!(invoked.get(), 1);
    assert!(shared.lock().unwrap().is_closed());
    assert!(log.borrow().contains(&"close".to_string()));
    // The close emitted the shutdown event, which terminates the loop.
    let events = drain(&receiver);
    assert_eq!(events, vec![Event::Quit]);
    assert_eq!(state, LoopState::Running);
    state = dispatch_once(&shared, &invoked, state, Some(Event::Quit));
    assert_eq!(state, LoopState::Terminated);
    assert_eq!(invoked.get(), 1);
}

#[test]
fn balloon_click_runs_latest_callback_exactly_once() {
    let log = Rc::new(RefCell::new(Vec::new()));
    let fail = Rc::new(Cell::new(false));
    let surface = TestSurface { log, fail };
    let (sender, _receiver) = channel();
    let shared = Arc::new(Mutex::new(Repr::<Cb, TestSurface>::new(surface, sender)));
    let invoked = Rc::new(Cell::new(0u32));
    shared.lock().unwrap().show_balloon("t", "b", Cb(quit_action)).unwrap();
    shared.lock().unwrap().show_balloon("t", "b", Cb(count_action)).unwrap();
    let mut state = LoopState::Running;
    state = dispatch_once(&shared, &invoked, state, Some(Event::Balloon));
    // Only the second balloon's callback fired; the first never ran (the
    // quit action would have closed the handle).
    assert_eq!(invoked.get(), 1);
    assert!(!shared.lock().unwrap().is_closed());
    // A second click finds no pending callback and is silently dropped.
    state = dispatch_once(&shared, &invoked, state, Some(Event::Balloon));
    assert_eq!(invoked.get(), 1);
    assert_eq!(state, LoopState::Running);
}
