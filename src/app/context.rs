use std::any::TypeId;
use vstd::prelude::*;

use crate::app::plugin::{init_pass, last_slot, update_pass, HookCall, Plugin, PluginRegistry};
use crate::app::timer::{Timer, TimerView};
use crate::error::MoeglError;
use crate::input::{KeyCode, KeyEvent, Keyboard, KeyboardView};
use crate::window::{BuilderView, Window};

verus! {

/// The coarse phase of the application.
#[derive(Debug, Clone, Copy, PartialEq, Eq, Structural)]
pub enum GameState {
    Initializing,
    Running,
    QuitRequested,
}

/// The lifecycle's transitions: `Initializing` moves once to `Running`, `Running` moves to
/// `QuitRequested`, a quit may also be requested while initializing, and `QuitRequested` is
/// terminal. Staying in the same state is always allowed.
pub open spec fn transition_allowed(from: GameState, to: GameState) -> bool {
    from == to || from == GameState::Initializing || (from == GameState::Running && to
        == GameState::QuitRequested)
}

/// The replaceable one-shot procedure that takes over a fully initialized context.
///
/// Kept opaque: Verus cannot represent a boxed `dyn FnOnce`.
#[verifier::external_body]
pub struct RunStrategy {
    run: Box<dyn FnOnce(Context) -> Result<(), MoeglError>>,
}

/// Relies on std's unsizing of `Box<F>` to `Box<dyn FnOnce>`: boxes the callable so that the
/// context can hold it as its run strategy.
#[verifier::external_body]
fn boxed_strategy<F: FnOnce(Context) -> Result<(), MoeglError> + 'static>(f: F) -> RunStrategy {
    RunStrategy { run: Box::new(f) }
}

/// Relies on std's `FnOnce::call_once`: hands the context to the stored run strategy and
/// returns what it returns. The strategy receives a context past initialization that holds its
/// plugins.
#[verifier::external_body]
fn call_strategy(s: RunStrategy, ctx: Context) -> Result<(), MoeglError>
    requires
        ctx@.state != GameState::Initializing,
        ctx@.plugins is Some,
{
    (s.run)(ctx)
}

/// What a [`Context`] holds.
pub struct ContextView {
    pub window: Window,
    pub state: GameState,
    pub timer: TimerView,
    pub keyboard: KeyboardView,
    /// The registered plugins' type identities; none while a pass over the plugins runs.
    pub plugins: Option<Seq<TypeId>>,
    /// Whether a run strategy is installed.
    pub has_runner: bool,
    /// Every hook call that the passes over the registered plugins made, in order; none while
    /// a pass runs.
    pub calls: Option<Seq<HookCall>>,
}

impl ContextView {
    /// A context just built from the builder settings `b`: its window settings, initializing,
    /// no time accumulated, no key down, the builder's plugins, no run strategy.
    pub open spec fn built_from(self, b: BuilderView) -> bool {
        &&& self.window.matches(b)
        &&& self.state == GameState::Initializing
        &&& self.timer == (TimerView { total_time: 0, delta_time: 0, last_tick: 0 })
        &&& self.keyboard.pressed.is_empty()
        &&& self.keyboard.timestep_pressed.is_empty()
        &&& self.plugins == Some(b.plugins)
        &&& !self.has_runner
    }
}

/// The application context: lifecycle state, frame timer, keyboard, plugin registry, window
/// settings with the target frame rate, and the run strategy.
///
/// While a pass runs the plugins' hooks, the registry is held by the pass and the context has
/// none, so that the hooks can have the context mutably. A hook can change the target rate, the
/// lifecycle state and the run strategy, and read the rest; it has no way to change the timer,
/// so a frame commits its boundary on the timer as it was read before the hooks ran.
pub struct Context {
    window: Window,
    state: GameState,
    timer: Timer,
    keyboard: Keyboard,
    plugins: Option<PluginRegistry>,
    runner: Option<RunStrategy>,
}

impl View for Context {
    type V = ContextView;

    closed spec fn view(&self) -> ContextView {
        ContextView {
            window: self.window,
            state: self.state,
            timer: self.timer@,
            keyboard: self.keyboard@,
            plugins: match self.plugins {
                Some(r) => Some(r@),
                None => None,
            },
            has_runner: self.runner is Some,
            calls: match self.plugins {
                Some(r) => Some(r.calls()),
                None => None,
            },
        }
    }
}

impl Context {
    /// The context built from the builder's settings; the builder's plugins move into it and
    /// the builder is left with none.
    fn new(settings: &mut ContextBuilder) -> (r: Context)
        ensures
            r@.built_from(old(settings)@),
            final(settings)@ == old(settings)@.without_plugins(),
    {
        let window = Window::new(settings);
        let plugins = settings.take_plugins();
        Context {
            window,
            state: GameState::Initializing,
            timer: Timer::new(),
            keyboard: Keyboard::new(),
            plugins: Some(plugins),
            runner: None,
        }
    }

    /// The window settings, with the target frame rate.
    pub fn window(&self) -> (r: &Window)
        ensures
            *r == self@.window,
    {
        &self.window
    }

    /// The lifecycle state.
    pub fn state(&self) -> (r: GameState)
        ensures
            r == self@.state,
    {
        self.state
    }

    /// The frame timer.
    pub fn timer(&self) -> (r: &Timer)
        ensures
            r@ == self@.timer,
    {
        &self.timer
    }

    /// The keyboard state.
    pub fn keyboard(&self) -> (r: &Keyboard)
        ensures
            r@ == self@.keyboard,
    {
        &self.keyboard
    }

    /// Whether a run strategy is installed.
    pub fn has_runner(&self) -> (r: bool)
        ensures
            r == self@.has_runner,
    {
        self.runner.is_some()
    }

    /// Number of registered plugins; zero while a pass over the plugins runs.
    pub fn plugin_count(&self) -> (r: usize)
        ensures
            r == match self@.plugins {
                Some(keys) => keys.len(),
                None => 0,
            },
    {
        match &self.plugins {
            Some(registry) => registry.len(),
            None => 0,
        }
    }

    /// The plugin of concrete type `P`: the last one registered with that type. None when no
    /// plugin of that type was registered, and while a pass over the plugins runs.
    pub fn get_plugin<P: Plugin + 'static>(&self) -> (r: Option<&P>)
        ensures
            r is Some ==> (self@.plugins matches Some(keys) && keys.len() > 0),
    {
        match &self.plugins {
            Some(registry) => registry.get::<P>(),
            None => None,
        }
    }

    /// Position of the plugin that typed lookup finds for the type identity `k`: the last one
    /// registered under `k`. None when no plugin was registered under `k`, and while a pass over
    /// the plugins runs.
    pub fn plugin_slot(&self, k: &TypeId) -> (r: Option<usize>)
        ensures
            r == match self@.plugins {
                Some(keys) => match last_slot(keys, *k) {
                    Some(i) => Some(i as usize),
                    None => None::<usize>,
                },
                None => None,
            },
    {
        match &self.plugins {
            Some(registry) => registry.slot_of(k),
            None => None,
        }
    }

    /// Installs `f` as the run strategy, replacing the one installed before.
    pub fn set_runner<F: FnOnce(Context) -> Result<(), MoeglError> + 'static>(&mut self, f: F)
        ensures
            final(self)@ == (ContextView { has_runner: true, ..old(self)@ }),
    {
        self.runner = Some(boxed_strategy(f));
    }

    /// Records a key event on the keyboard.
    pub(crate) fn handle_key(&mut self, event: &KeyEvent)
        ensures
            final(self)@ == (ContextView { keyboard: old(self)@.keyboard.handle(*event), ..old(self)@ }),
    {
        self.keyboard.handle_input(event);
    }

    /// Sets the target frame rate; the next frame check uses it. A rate of zero stops frames.
    pub fn set_fps(&mut self, target: u32)
        ensures
            final(self)@ == (ContextView { window: old(self)@.window.with_fps(target), ..old(self)@ }),
    {
        self.window.set_fps(target);
    }

    /// Moves to `state` when the lifecycle allows that transition, and otherwise stays.
    pub fn set_gamestate(&mut self, state: GameState)
        ensures
            final(self)@ == (ContextView {
                state: if transition_allowed(old(self)@.state, state) {
                    state
                } else {
                    old(self)@.state
                },
                ..old(self)@
            }),
    {
        if self.state == state || self.state == GameState::Initializing || (self.state
            == GameState::Running && state == GameState::QuitRequested) {
            self.state = state;
        }
    }
}

impl Context {
    /// One redraw opportunity at timestamp `now`: when a frame boundary is due for the target
    /// rate, every plugin's `update` runs in registration order, then the boundary is committed
    /// to the timer and a new keyboard timestep starts. Otherwise nothing changes, and nothing
    /// changes either while a pass over the plugins runs.
    pub fn frame_loop(&mut self, now: u64)
        ensures
            frame_step(*old(self), now, *final(self)),
    {
        if self.plugins.is_none() {
            return;
        }
        if !self.timer.should_advance(now, self.window.fps) {
            return;
        }
        let timer = self.timer;
        let mut registry = PluginRegistry::new();
        match self.plugins.take() {
            Some(r) => {
                registry = r;
            },
            None => {},
        }
        registry.for_each_update(self);
        self.plugins = Some(registry);
        let mut committed = timer;
        committed.commit_tick(now);
        self.timer = committed;
        self.keyboard.reset_timestep();
    }

    /// Starts the application, once: [`Context::init_plugins`] runs every plugin's `init` in
    /// registration order, then [`Context::hand_over`] moves the context to `Running` (unless a
    /// plugin asked to quit) and hands it to the run strategy, whose result is returned. Without
    /// a run strategy the result is [`MoeglError::NoRunStrategyError`].
    pub fn run(self) -> (r: Result<(), MoeglError>)
        requires
            self@.plugins is Some,
        ensures
            self@.plugins == Some(Seq::<TypeId>::empty()) && !self@.has_runner ==> r == Err::<
                (),
                MoeglError,
            >(MoeglError::NoRunStrategyError),
    {
        let mut ctx = self;
        ctx.init_plugins();
        ctx.hand_over()
    }

    /// Runs every plugin's `init` hook once, in registration order, with this context; the
    /// plugins stay registered as they were. The hooks may change the rest of the context (the
    /// target rate, the lifecycle state, the run strategy).
    pub fn init_plugins(&mut self)
        ensures
            final(self)@.plugins == old(self)@.plugins,
            old(self)@.plugins matches Some(keys) ==> final(self)@.calls == Some(
                old(self)@.calls->Some_0 + init_pass(keys.len()),
            ),
            old(self)@.plugins matches Some(keys) && keys.len() == 0 ==> *final(self) == *old(
                self,
            ),
            old(self)@.plugins is None ==> *final(self) == *old(self),
    {
        match self.plugins.take() {
            Some(registry) => {
                let mut registry = registry;
                registry.for_each_init(self);
                self.plugins = Some(registry);
            },
            None => {},
        }
    }

    /// Hands the context, as the plugins' `init` hooks left it, to the run strategy: the context
    /// moves to `Running` unless a quit was requested, and the strategy's result is returned.
    /// Without a run strategy the result is [`MoeglError::NoRunStrategyError`].
    pub fn hand_over(self) -> (r: Result<(), MoeglError>)
        requires
            self@.plugins is Some,
        ensures
            !self@.has_runner ==> r == Err::<(), MoeglError>(MoeglError::NoRunStrategyError),
    {
        let mut ctx = self;
        ctx.set_gamestate(GameState::Running);
        match ctx.runner.take() {
            Some(strategy) => call_strategy(strategy, ctx),
            None => Err(MoeglError::NoRunStrategyError),
        }
    }
}

/// What one call of [`Context::frame_loop`] at `now` does: when the context holds its plugins
/// and a frame is due, every plugin's `update` runs once in registration order, the timer
/// commits the boundary at `now`, the plugins stay registered as they were and a new keyboard
/// timestep starts (the hooks may have changed the rest); otherwise the context is unchanged.
pub open spec fn frame_step(before: Context, now: u64, after: Context) -> bool {
    if before@.plugins is Some && before@.timer.due(now as nat, before@.window.fps) {
        &&& after@.timer == before@.timer.commit(now as nat)
        &&& after@.plugins == before@.plugins
        &&& after@.calls == Some(before@.calls->Some_0 + update_pass(before@.plugins->Some_0.len()))
        &&& after@.keyboard.timestep_pressed == Set::<KeyCode>::empty()
    } else {
        after == before
    }
}

/// Accumulates the settings and the plugins of an application before building its context.
pub struct ContextBuilder {
    title: String,
    width: u32,
    height: u32,
    fps: u32,
    plugins: PluginRegistry,
}

impl Default for ContextBuilder {
    fn default() -> (r: ContextBuilder)
        ensures
            r@ == BuilderView::default_spec(),
    {
        ContextBuilder::new()
    }
}

impl View for ContextBuilder {
    type V = BuilderView;

    closed spec fn view(&self) -> BuilderView {
        BuilderView {
            title: self.title@,
            width: self.width,
            height: self.height,
            fps: self.fps,
            plugins: self.plugins@,
        }
    }
}

impl ContextBuilder {
    /// The default settings: title "mogl", 1280 by 720, 60 frames per second, no plugin.
    pub fn new() -> (r: ContextBuilder)
        ensures
            r@ == BuilderView::default_spec(),
    {
        ContextBuilder {
            title: "mogl".to_string(),
            width: 1280,
            height: 720,
            fps: 60,
            plugins: PluginRegistry::new(),
        }
    }

    /// The window title.
    pub fn title(&self) -> (r: &str)
        ensures
            r@ == self@.title,
    {
        self.title.as_str()
    }

    /// The window width.
    pub fn width(&self) -> (r: u32)
        ensures
            r == self@.width,
    {
        self.width
    }

    /// The window height.
    pub fn height(&self) -> (r: u32)
        ensures
            r == self@.height,
    {
        self.height
    }

    /// The target frame rate.
    pub fn fps(&self) -> (r: u32)
        ensures
            r == self@.fps,
    {
        self.fps
    }

    /// Number of plugins registered so far.
    pub fn plugin_count(&self) -> (r: usize)
        ensures
            r == self@.plugins.len(),
    {
        self.plugins.len()
    }

    /// Sets the window height.
    pub fn with_height(&mut self, height: u32) -> (r: &mut Self)
        ensures
            r@ == (BuilderView { height, ..old(self)@ }),
            *final(self) == *final(r),
    {
        self.height = height;
        self
    }

    /// Sets the window width.
    pub fn with_width(&mut self, width: u32) -> (r: &mut Self)
        ensures
            r@ == (BuilderView { width, ..old(self)@ }),
            *final(self) == *final(r),
    {
        self.width = width;
        self
    }

    /// Sets the window title.
    pub fn with_title(&mut self, title: &str) -> (r: &mut Self)
        ensures
            r@ == (BuilderView { title: title@, ..old(self)@ }),
            *final(self) == *final(r),
    {
        self.title = title.to_string();
        self
    }

    /// Sets the target frame rate.
    pub fn with_fps(&mut self, fps: u32) -> (r: &mut Self)
        ensures
            r@ == (BuilderView { fps, ..old(self)@ }),
            *final(self) == *final(r),
    {
        self.fps = fps;
        self
    }

    /// Registers a plugin; it moves into the context at build time.
    pub fn with_plugin<P: Plugin + 'static>(&mut self, plugin: P) -> (r: &mut Self)
        requires
            old(self)@.plugins.len() < usize::MAX,
        ensures
            r@.plugins.len() == old(self)@.plugins.len() + 1,
            r@.plugins.drop_last() == old(self)@.plugins,
            r@ == (BuilderView { plugins: r@.plugins, ..old(self)@ }),
            *final(self) == *final(r),
    {
        self.plugins.register(plugin);
        assert(self@.plugins.drop_last() =~= old(self)@.plugins);
        self
    }

    /// Registers the application's own plugin, the one that holds the user's logic; it is a
    /// plugin like any other.
    pub fn with_app<A: Plugin + 'static>(&mut self, app: A) -> (r: &mut Self)
        requires
            old(self)@.plugins.len() < usize::MAX,
        ensures
            r@.plugins.len() == old(self)@.plugins.len() + 1,
            r@.plugins.drop_last() == old(self)@.plugins,
            r@ == (BuilderView { plugins: r@.plugins, ..old(self)@ }),
            *final(self) == *final(r),
    {
        self.plugins.register(app);
        assert(self@.plugins.drop_last() =~= old(self)@.plugins);
        self
    }

    /// Moves the plugins out, leaving none.
    fn take_plugins(&mut self) -> (r: PluginRegistry)
        ensures
            r@ == old(self)@.plugins,
            final(self)@ == old(self)@.without_plugins(),
    {
        let mut taken = PluginRegistry::new();
        std::mem::swap(&mut self.plugins, &mut taken);
        taken
    }

    /// Builds the context: the settings are checked, and the plugins move into the context,
    /// leaving the builder with none. A zero width, height or frame rate is refused, and then
    /// the builder is left as it was.
    pub fn build(&mut self) -> (r: Result<Context, MoeglError>)
        ensures
            old(self)@.valid() ==> (r matches Ok(ctx) && ctx@.built_from(old(self)@)),
            old(self)@.valid() ==> final(self)@ == old(self)@.without_plugins(),
            !old(self)@.valid() ==> r == Err::<Context, MoeglError>(MoeglError::ConfigurationError),
            !old(self)@.valid() ==> final(self)@ == old(self)@,
    {
        if self.width == 0 || self.height == 0 || self.fps == 0 {
            return Err(MoeglError::ConfigurationError);
        }
        Ok(Context::new(self))
    }
}

} // verus!
