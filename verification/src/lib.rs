//! A statically-typed, capability-oriented facade over a reflection-style UI
//! automation surface: a graph of shared object handles ("elements") that can
//! be queried for "patterns" -- capability interfaces identified by numeric
//! ids (Invoke, SelectionItem, Dock, Window, ...).
//!
//! The automation objects themselves are represented explicitly as
//! reference-counted values (`native`): an element records its identity, the
//! outcomes of its property queries, and the capability objects it exposes.
//! On top of that surface this crate verifies the binding discipline: the
//! identity cast that turns an opaque capability reference into a typed
//! pattern wrapper and fails closed (`patterns`), the control-type check that
//! guards control wrappers (`controls`), the forwarding of capability methods
//! from controls to patterns (`actions`), and the unified error model
//! (`errors`).

pub mod actions;
pub mod controls;
pub mod decimal;
pub mod element;
pub mod errors;
pub mod native;
pub mod patterns;
pub mod types;

pub use element::UIElement;
pub use errors::Error;
pub use errors::Result;
