mod context;
mod driver;
mod plugin;
mod timer;

pub use context::{
    frame_step, transition_allowed, Context, ContextBuilder, ContextView, GameState, RunStrategy,
};
pub use driver::{
    handles, is_quit_key, lemma_close_stops_frames, requests_quit, LoopAction, WindowSignal,
};
pub use plugin::{
    init_pass, last_slot, lemma_last_slot, lemma_last_slot_push, lemma_later_registration_shadows,
    update_pass, HookCall, Plugin, PluginRegistry,
};
pub use timer::{elapsed, frame_due, lemma_commit_then_not_due, Timer, TimerView, NANOS_PER_SEC};
