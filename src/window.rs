use std::any::TypeId;
use vstd::prelude::*;

use crate::app::ContextBuilder;

verus! {

/// What a [`ContextBuilder`] holds.
pub struct BuilderView {
    pub title: Seq<char>,
    pub width: u32,
    pub height: u32,
    pub fps: u32,
    /// The type identities of the registered plugins, in registration order.
    pub plugins: Seq<TypeId>,
}

impl BuilderView {
    /// The settings of a new builder.
    pub open spec fn default_spec() -> BuilderView {
        BuilderView {
            title: "mogl"@,
            width: 1280,
            height: 720,
            fps: 60,
            plugins: Seq::empty(),
        }
    }

    /// The settings that a context can be built from: width, height and frame rate non-zero.
    pub open spec fn valid(self) -> bool {
        self.width > 0 && self.height > 0 && self.fps > 0
    }

    /// The same settings with no plugin.
    pub open spec fn without_plugins(self) -> BuilderView {
        BuilderView { plugins: Seq::empty(), ..self }
    }
}

/// The settings of the application window: title, size and target frame rate.
#[derive(Debug)]
pub struct Window {
    pub title: String,
    pub fps: u32,
    pub width: u32,
    pub height: u32,
}

impl Window {
    /// Whether these settings are the ones the builder holds.
    pub open spec fn matches(self, b: BuilderView) -> bool {
        self.title@ == b.title && self.fps == b.fps && self.width == b.width && self.height
            == b.height
    }

    /// The same settings with the frame rate `fps`.
    pub open spec fn with_fps(self, fps: u32) -> Window {
        Window { fps, ..self }
    }

    /// The window settings that the builder holds.
    pub fn new(settings: &ContextBuilder) -> (r: Window)
        ensures
            r.matches(settings@),
    {
        Window {
            title: settings.title().to_string(),
            fps: settings.fps(),
            width: settings.width(),
            height: settings.height(),
        }
    }

    /// Sets the target frame rate.
    pub fn set_fps(&mut self, fps: u32)
        ensures
            *final(self) == old(self).with_fps(fps),
    {
        self.fps = fps;
    }
}

} // verus!
