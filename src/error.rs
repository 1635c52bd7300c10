use vstd::prelude::*;

verus! {

/// Failures surfaced to the caller of `build` and `run`.
#[derive(Debug, Clone, Copy, PartialEq, Eq, Structural)]
pub enum MoeglError {
    /// The builder holds an invalid setting: a zero width, height or target rate.
    ConfigurationError,
    /// `run` found no run strategy: no plugin installed a backend during `init`.
    NoRunStrategyError,
    /// The windowing backend's event loop failed.
    BackendError,
    /// The windowing backend could not create its window.
    WindowError,
}

impl MoeglError {
    /// A short human-readable description of the error.
    pub fn message(&self) -> (r: String)
        ensures
            r@ == self.message_spec(),
    {
        match self {
            MoeglError::ConfigurationError => "Context error".to_string(),
            MoeglError::NoRunStrategyError => "No run strategy".to_string(),
            MoeglError::BackendError => "Winit error".to_string(),
            MoeglError::WindowError => "Error in creating window".to_string(),
        }
    }

    /// The description that [`MoeglError::message`] returns.
    pub open spec fn message_spec(&self) -> Seq<char> {
        match self {
            MoeglError::ConfigurationError => "Context error"@,
            MoeglError::NoRunStrategyError => "No run strategy"@,
            MoeglError::BackendError => "Winit error"@,
            MoeglError::WindowError => "Error in creating window"@,
        }
    }
}

} // verus!
