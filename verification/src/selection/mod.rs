//! Selection of Gaussians via viewport interactions, such as rectangle and
//! brush selection.

pub mod viewport_selector;

pub use viewport_selector::{ViewportSelectorState, ViewportSelectorType, ViewportSelectorWrites};
