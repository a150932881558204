pub mod crop_bounds;

pub use crop_bounds::CropBoundsPod;
