use std::any::TypeId;
use std::cell::RefCell;
use std::rc::Rc;

use moegl::app::{Context, ContextBuilder, GameState, Plugin, PluginRegistry, WindowSignal};
use moegl::input::InputPlugin;
use moegl::MoeglError;

#[test]
fn plugin_test() {
    struct UserApp {}
    impl Plugin for UserApp {
        fn init(&mut self, _ctx: &mut Context) {}

        fn update(&mut self, _ctx: &mut Context) {}
    }

    let result = ContextBuilder::new()
        .with_title("moegl test")
        .with_plugin(InputPlugin::default())
        .with_app(UserApp {})
        .build();
    let ctx = result.ok().unwrap();
    assert_eq!(ctx.window().title, "moegl test");
    assert_eq!(ctx.plugin_count(), 2);
}

struct Recorder {
    id: u32,
    log: Rc<RefCell<Vec<(&'static str, u32)>>>,
}

impl Plugin for Recorder {
    fn init(&mut self, _ctx: &mut Context) {
        self.log.borrow_mut().push(("init", self.id));
    }

    fn update(&mut self, _ctx: &mut Context) {
        self.log.borrow_mut().push(("update", self.id));
    }
}

struct First(Recorder);
struct Second(Recorder);
struct Third(Recorder);

impl Plugin for First {
    fn init(&mut self, ctx: &mut Context) {
        self.0.init(ctx)
    }
    fn update(&mut self, ctx: &mut Context) {
        self.0.update(ctx)
    }
}
impl Plugin for Second {
    fn init(&mut self, ctx: &mut Context) {
        self.0.init(ctx)
    }
    fn update(&mut self, ctx: &mut Context) {
        self.0.update(ctx)
    }
}
impl Plugin for Third {
    fn init(&mut self, ctx: &mut Context) {
        self.0.init(ctx)
    }
    fn update(&mut self, ctx: &mut Context) {
        self.0.update(ctx)
    }
}

#[test]
fn hooks_visit_plugins_in_registration_order() {
    let log = Rc::new(RefCell::new(Vec::new()));
    let rec = |id| Recorder { id, log: log.clone() };
    let mut registry = PluginRegistry::new();
    registry.register(Second(rec(2)));
    registry.register(Third(rec(3)));
    registry.register(First(rec(1)));
    let mut ctx = ContextBuilder::new().build().ok().unwrap();
    registry.for_each_init(&mut ctx);
    registry.for_each_update(&mut ctx);
    registry.for_each_update(&mut ctx);
    assert_eq!(
        *log.borrow(),
        vec![
            ("init", 2),
            ("init", 3),
            ("init", 1),
            ("update", 2),
            ("update", 3),
            ("update", 1),
            ("update", 2),
            ("update", 3),
            ("update", 1),
        ]
    );
}

#[test]
fn frame_updates_follow_registration_order() {
    let log = Rc::new(RefCell::new(Vec::new()));
    let rec = |id| Recorder { id, log: log.clone() };
    let mut ctx = ContextBuilder::new()
        .with_fps(10)
        .with_plugin(Third(rec(3)))
        .with_plugin(First(rec(1)))
        .with_app(Second(rec(2)))
        .build()
        .ok()
        .unwrap();
    ctx.frame_loop(100_000_000);
    assert_eq!(*log.borrow(), vec![("update", 3), ("update", 1), ("update", 2)]);
}

struct Counter {
    label: u32,
    updates: u32,
}

impl Plugin for Counter {
    fn init(&mut self, _ctx: &mut Context) {}

    fn update(&mut self, _ctx: &mut Context) {
        self.updates += 1;
    }
}

struct Unregistered;

impl Plugin for Unregistered {
    fn init(&mut self, _ctx: &mut Context) {}
}

#[test]
fn lookup_finds_the_registered_instance() {
    let mut ctx = ContextBuilder::new()
        .with_fps(1)
        .with_plugin(InputPlugin::default())
        .with_app(Counter { label: 7, updates: 0 })
        .build()
        .ok()
        .unwrap();
    assert_eq!(ctx.get_plugin::<Counter>().unwrap().label, 7);
    assert_eq!(ctx.get_plugin::<Counter>().unwrap().updates, 0);
    assert!(ctx.get_plugin::<InputPlugin>().is_some());
    ctx.frame_loop(1_000_000_000);
    assert_eq!(ctx.get_plugin::<Counter>().unwrap().updates, 1);
}

#[test]
fn lookup_of_unregistered_type_is_empty() {
    let ctx = ContextBuilder::new()
        .with_plugin(Counter { label: 1, updates: 0 })
        .build()
        .ok()
        .unwrap();
    assert!(ctx.get_plugin::<Unregistered>().is_none());
    assert!(ctx.get_plugin::<InputPlugin>().is_none());
    assert_eq!(ctx.plugin_slot(&TypeId::of::<Unregistered>()), None);
    assert_eq!(ctx.plugin_slot(&TypeId::of::<Counter>()), Some(0));
}

#[test]
fn later_registration_of_a_type_shadows_the_earlier() {
    let log = Rc::new(RefCell::new(Vec::new()));
    let mut ctx = ContextBuilder::new()
        .with_fps(1)
        .with_plugin(Counter { label: 1, updates: 0 })
        .with_plugin(First(Recorder { id: 9, log: log.clone() }))
        .with_plugin(Counter { label: 2, updates: 10 })
        .build()
        .ok()
        .unwrap();
    assert_eq!(ctx.plugin_count(), 3);
    assert_eq!(ctx.get_plugin::<Counter>().unwrap().label, 2);
    assert_eq!(ctx.plugin_slot(&TypeId::of::<Counter>()), Some(2));
    assert_eq!(ctx.plugin_slot(&TypeId::of::<First>()), Some(1));
    ctx.frame_loop(1_000_000_000);
    assert_eq!(ctx.get_plugin::<Counter>().unwrap().updates, 11);
    assert_eq!(*log.borrow(), vec![("update", 9)]);
}

#[test]
fn registry_register_returns_the_type_identity() {
    let mut registry = PluginRegistry::new();
    let a = registry.register(Counter { label: 1, updates: 0 });
    let b = registry.register(InputPlugin::default());
    let c = registry.register(Counter { label: 2, updates: 0 });
    assert_eq!(a, TypeId::of::<Counter>());
    assert_eq!(b, TypeId::of::<InputPlugin>());
    assert_eq!(a, c);
    assert_eq!(registry.len(), 3);
    assert_eq!(registry.slot_of(&a), Some(2));
    assert_eq!(registry.slot_of(&b), Some(1));
    assert_eq!(registry.slot_of(&TypeId::of::<Unregistered>()), None);
    assert_eq!(registry.get::<Counter>().unwrap().label, 2);
}

#[test]
fn run_without_backend_reports_no_run_strategy() {
    let ctx = ContextBuilder::new().build().ok().unwrap();
    assert_eq!(ctx.run(), Err(MoeglError::NoRunStrategyError));
    let ctx = ContextBuilder::new()
        .with_plugin(InputPlugin::default())
        .build()
        .ok()
        .unwrap();
    assert_eq!(ctx.run(), Err(MoeglError::NoRunStrategyError));
}

struct Backend {
    seen: Rc<RefCell<Option<(GameState, usize)>>>,
}

impl Plugin for Backend {
    fn init(&mut self, ctx: &mut Context) {
        let seen = self.seen.clone();
        ctx.set_runner(move |c: Context| {
            *seen.borrow_mut() = Some((c.state(), c.plugin_count()));
            Err(MoeglError::BackendError)
        });
    }
}

#[test]
fn run_hands_the_running_context_to_the_installed_strategy() {
    let seen = Rc::new(RefCell::new(None));
    let ctx = ContextBuilder::new()
        .with_plugin(InputPlugin::default())
        .with_plugin(Backend { seen: seen.clone() })
        .build()
        .ok()
        .unwrap();
    assert!(!ctx.has_runner());
    assert_eq!(ctx.run(), Err(MoeglError::BackendError));
    assert_eq!(*seen.borrow(), Some((GameState::Running, 2)));
}

struct Quitter;

impl Plugin for Quitter {
    fn init(&mut self, ctx: &mut Context) {
        ctx.set_gamestate(GameState::QuitRequested);
        ctx.set_runner(|c: Context| {
            if c.state() == GameState::QuitRequested {
                Ok(())
            } else {
                Err(MoeglError::BackendError)
            }
        });
    }
}

#[test]
fn quit_requested_during_init_stays_requested() {
    let ctx = ContextBuilder::new().with_app(Quitter).build().ok().unwrap();
    assert_eq!(ctx.run(), Ok(()));
}

#[test]
fn fps_two_updates_twice_in_one_point_one_seconds() {
    let mut ctx = ContextBuilder::new()
        .with_fps(2)
        .with_app(Counter { label: 0, updates: 0 })
        .build()
        .ok()
        .unwrap();
    let mut fired_at = Vec::new();
    for step in 1..=11u64 {
        let now = step * 100_000_000;
        let before = ctx.get_plugin::<Counter>().unwrap().updates;
        ctx.handle_event(WindowSignal::RedrawRequested, now);
        if ctx.get_plugin::<Counter>().unwrap().updates > before {
            fired_at.push(now);
        }
    }
    assert_eq!(ctx.get_plugin::<Counter>().unwrap().updates, 2);
    assert_eq!(fired_at, vec![500_000_000, 1_000_000_000]);
    assert_eq!(ctx.timer().total_time(), 1_000_000_000);
    assert_eq!(ctx.timer().delta_time(), 500_000_000);
}

struct FpsSetter;

impl Plugin for FpsSetter {
    fn init(&mut self, _ctx: &mut Context) {}

    fn update(&mut self, ctx: &mut Context) {
        ctx.set_fps(1);
    }
}

#[test]
fn plugin_changes_to_target_rate_apply_to_next_check() {
    let mut ctx = ContextBuilder::new().with_fps(10).with_app(FpsSetter).build().ok().unwrap();
    ctx.frame_loop(100_000_000);
    assert_eq!(ctx.window().fps, 1);
    assert_eq!(ctx.timer().last_tick(), 100_000_000);
    ctx.frame_loop(200_000_000);
    assert_eq!(ctx.timer().last_tick(), 100_000_000);
    ctx.frame_loop(1_100_000_000);
    assert_eq!(ctx.timer().last_tick(), 1_100_000_000);
}

#[test]
fn same_type_plugins_both_get_their_hooks() {
    let log = Rc::new(RefCell::new(Vec::new()));
    let mut ctx = ContextBuilder::new()
        .with_fps(1)
        .with_plugin(First(Recorder { id: 1, log: log.clone() }))
        .with_plugin(First(Recorder { id: 2, log: log.clone() }))
        .build()
        .ok()
        .unwrap();
    ctx.init_plugins();
    ctx.frame_loop(1_000_000_000);
    assert_eq!(
        *log.borrow(),
        vec![("init", 1), ("init", 2), ("update", 1), ("update", 2)]
    );
    assert_eq!(ctx.plugin_count(), 2);
}

#[test]
fn hand_over_without_strategy_reports_no_run_strategy() {
    let ctx = ContextBuilder::new()
        .with_plugin(InputPlugin::default())
        .build()
        .ok()
        .unwrap();
    assert_eq!(ctx.hand_over(), Err(MoeglError::NoRunStrategyError));
}

#[test]
fn hand_over_gives_the_strategy_a_running_context() {
    let seen = Rc::new(RefCell::new(None));
    let mut ctx = ContextBuilder::new()
        .with_plugin(Backend { seen: seen.clone() })
        .build()
        .ok()
        .unwrap();
    ctx.init_plugins();
    assert!(ctx.has_runner());
    assert_eq!(ctx.state(), GameState::Initializing);
    assert_eq!(ctx.hand_over(), Err(MoeglError::BackendError));
    assert_eq!(*seen.borrow(), Some((GameState::Running, 1)));
}
