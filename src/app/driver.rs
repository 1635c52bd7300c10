use vstd::prelude::*;

use crate::app::context::{frame_step, Context, GameState};
use crate::input::{ElementState, KeyEvent, ESCAPE};

verus! {

/// A signal from the windowing backend's event source.
#[derive(Debug, Clone, Copy, PartialEq, Eq, Structural)]
pub enum WindowSignal {
    /// The user asked to close the window.
    CloseRequested,
    /// A key went down or up.
    Key(KeyEvent),
    /// The window has a new size.
    Resized { width: u32, height: u32 },
    /// The window may be redrawn: the moment to check for a frame boundary.
    RedrawRequested,
    /// Any other signal, which the context ignores.
    Other,
}

/// What the event loop must do after a signal was handled.
#[derive(Debug, Clone, Copy, PartialEq, Eq, Structural)]
pub enum LoopAction {
    /// Stop the event loop: the application quits.
    Exit,
    /// Nothing to do.
    Continue,
    /// Hand the new size to the graphics collaborator.
    Resize { width: u32, height: u32 },
    /// Present the frame and ask for the next redraw.
    Redraw,
}

/// Whether the key event asks the application to quit: Escape going down.
pub open spec fn is_quit_key(event: KeyEvent) -> bool {
    event.code == ESCAPE && event.state == ElementState::Pressed
}

/// What one call of [`Context::handle_event`] does with `signal` at timestamp `now`, taking the
/// context from `before` to `after` and answering `action`.
///
/// Once a quit was requested every signal answers `Exit` and changes nothing. Otherwise a close
/// request or the quit key requests the quit and answers `Exit`; another key event goes to the
/// keyboard; a resize is passed on without touching the context; a redraw opportunity runs the
/// frame loop; anything else is ignored.
pub open spec fn handles(
    before: Context,
    signal: WindowSignal,
    now: u64,
    after: Context,
    action: LoopAction,
) -> bool {
    if before@.state == GameState::QuitRequested {
        action == LoopAction::Exit && after == before
    } else {
        match signal {
            WindowSignal::CloseRequested => action == LoopAction::Exit && after@ == (
            crate::app::ContextView { state: GameState::QuitRequested, ..before@ }),
            WindowSignal::Key(event) => if is_quit_key(event) {
                action == LoopAction::Exit && after@ == (crate::app::ContextView {
                    state: GameState::QuitRequested,
                    ..before@
                })
            } else {
                action == LoopAction::Continue && after@ == (crate::app::ContextView {
                    keyboard: before@.keyboard.handle(event),
                    ..before@
                })
            },
            WindowSignal::Resized { width, height } => action == (LoopAction::Resize {
                width,
                height,
            }) && after == before,
            WindowSignal::RedrawRequested => action == LoopAction::Redraw && frame_step(
                before,
                now,
                after,
            ),
            WindowSignal::Other => action == LoopAction::Continue && after == before,
        }
    }
}

impl Context {
    /// Handles one signal of the windowing backend at timestamp `now` and tells the event loop
    /// what to do next. See [`handles`].
    pub fn handle_event(&mut self, signal: WindowSignal, now: u64) -> (action: LoopAction)
        ensures
            handles(*old(self), signal, now, *final(self), action),
    {
        if self.state() == GameState::QuitRequested {
            return LoopAction::Exit;
        }
        match signal {
            WindowSignal::CloseRequested => {
                self.set_gamestate(GameState::QuitRequested);
                LoopAction::Exit
            },
            WindowSignal::Key(event) => {
                if event.code == ESCAPE && event.state == ElementState::Pressed {
                    self.set_gamestate(GameState::QuitRequested);
                    LoopAction::Exit
                } else {
                    self.handle_key(&event);
                    LoopAction::Continue
                }
            },
            WindowSignal::Resized { width, height } => LoopAction::Resize { width, height },
            WindowSignal::RedrawRequested => {
                self.frame_loop(now);
                LoopAction::Redraw
            },
            WindowSignal::Other => LoopAction::Continue,
        }
    }
}

/// Whether the signal asks the application to quit: a close request, or the quit key.
pub open spec fn requests_quit(signal: WindowSignal) -> bool {
    match signal {
        WindowSignal::CloseRequested => true,
        WindowSignal::Key(event) => is_quit_key(event),
        _ => false,
    }
}

/// In a run of the event loop where `contexts[i]` becomes `contexts[i + 1]` by handling
/// `signals[i]` at `times[i]` with answer `actions[i]`: from the first close request or quit key
/// at position `k` on, the quit is requested, every answer is `Exit` and the context stays as
/// that signal left it, so no frame runs after it.
pub proof fn lemma_close_stops_frames(
    contexts: Seq<Context>,
    signals: Seq<WindowSignal>,
    times: Seq<u64>,
    actions: Seq<LoopAction>,
    k: int,
)
    requires
        contexts.len() == signals.len() + 1,
        times.len() == signals.len(),
        actions.len() == signals.len(),
        forall|i: int|
            0 <= i < signals.len() ==> handles(
                #[trigger] contexts[i],
                signals[i],
                times[i],
                contexts[i + 1],
                actions[i],
            ),
        0 <= k < signals.len(),
        requests_quit(signals[k]),
    ensures
        contexts[k + 1]@.state == GameState::QuitRequested,
        forall|j: int| k <= j < signals.len() ==> #[trigger] actions[j] == LoopAction::Exit,
        forall|j: int| k < j <= signals.len() ==> #[trigger] contexts[j] == contexts[k + 1],
{
    assert(handles(contexts[k], signals[k], times[k], contexts[k + 1], actions[k]));
    assert forall|j: int| k < j <= signals.len() implies #[trigger] contexts[j] == contexts[k + 1] by {
        lemma_quit_persists(contexts, signals, times, actions, k, j);
    }
    assert forall|j: int| k <= j < signals.len() implies #[trigger] actions[j] == LoopAction::Exit by {
        if j > k {
            lemma_quit_persists(contexts, signals, times, actions, k, j);
            assert(handles(contexts[j], signals[j], times[j], contexts[j + 1], actions[j]));
        }
    }
}

proof fn lemma_quit_persists(
    contexts: Seq<Context>,
    signals: Seq<WindowSignal>,
    times: Seq<u64>,
    actions: Seq<LoopAction>,
    k: int,
    j: int,
)
    requires
        contexts.len() == signals.len() + 1,
        times.len() == signals.len(),
        actions.len() == signals.len(),
        forall|i: int|
            0 <= i < signals.len() ==> handles(
                #[trigger] contexts[i],
                signals[i],
                times[i],
                contexts[i + 1],
                actions[i],
            ),
        0 <= k < signals.len(),
        requests_quit(signals[k]),
        k < j <= signals.len(),
    ensures
        contexts[j] == contexts[k + 1],
        contexts[k + 1]@.state == GameState::QuitRequested,
    decreases j - k,
{
    assert(handles(contexts[k], signals[k], times[k], contexts[k + 1], actions[k]));
    if j > k + 1 {
        lemma_quit_persists(contexts, signals, times, actions, k, j - 1);
        assert(handles(contexts[j - 1], signals[j - 1], times[j - 1], contexts[j], actions[j - 1]));
    }
}

} // verus!
