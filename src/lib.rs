//! Application-runtime kernel of a small interactive-application framework: a fixed-timestep
//! frame timer, a registry of plugins addressable by concrete type, and the context that ties
//! them to a windowing backend through a one-shot run strategy.

pub mod app;
mod error;
pub mod event;
pub mod input;
pub mod window;

pub use error::MoeglError;
