//! Decision logic of a 3D Gaussian splatting viewer, verified with Verus.
//!
//! The GPU side of the viewer (buffers, pipelines, passes) only moves data; the
//! choices it makes stand here: which models a frame renders and in what order,
//! how the viewport selector moves between its states, how the crop-bounds
//! uniform is laid out, when a model is too large for the device, and which
//! compute dispatches a preprocess pass issues.

pub mod buffer;
pub mod error;
pub mod multi_model;
pub mod preprocessor;
pub mod selection;

pub use buffer::CropBoundsPod;
pub use error::{ModelSizeExceedsDeviceLimit, MultiModelViewerAccessError};
pub use multi_model::MultiModelViewerModels;
pub use preprocessor::{preprocess_dispatches, PreprocessDispatch, PreprocessPass};
pub use selection::{ViewportSelectorState, ViewportSelectorType, ViewportSelectorWrites};
