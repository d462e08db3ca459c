//! Terminal-surface rendering and interaction runtime for a retained-mode
//! widget toolkit.
//!
//! The library turns widget draw results into a tree of drawable primitives,
//! threads cascading style overrides through nested containers, flattens the
//! primitive tree into a sequence of paint operations for a character grid,
//! translates raw terminal input into an abstract event vocabulary, and
//! provides the per-tick decision logic of the frame loop together with the
//! result queue and subscription pool of the background executor.

pub mod event;
pub mod paint;
pub mod primitive;
pub mod render;
pub mod shell;
pub mod style;
