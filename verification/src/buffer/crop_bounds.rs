use vstd::prelude::*;

verus! {

/// The contents of the crop-bounds uniform.
///
/// Holds an axis-aligned bounding box in original Gaussian space (before the
/// model transform), used by the preprocess compute pass to cull Gaussians whose
/// center lies outside the box. `V` is the three-component vector type of the
/// corners.
///
/// The field order matches the `CropBounds` uniform of the preprocess shader:
/// each corner takes the first twelve bytes of a sixteen-byte slot, and the
/// scalars `enabled` and `_padding` fill the last four bytes of those slots.
/// When `enabled` is `0` the pass keeps every Gaussian.
#[derive(Debug, Clone, Copy, PartialEq, Eq)]
pub struct CropBoundsPod<V> {
    /// AABB minimum corner (original Gaussian space).
    pub min: V,
    /// Non-zero = cropping active; `0` = keep all Gaussians.
    pub enabled: u32,
    /// AABB maximum corner (original Gaussian space).
    pub max: V,
    /// Always `0`.
    pub _padding: u32,
}

/// The word that the uniform holds for a cropping switch.
pub open spec fn enabled_word(enabled: bool) -> u32 {
    if enabled { 1 } else { 0 }
}

impl<V> CropBoundsPod<V> {
    /// Whether the preprocess pass culls against this box.
    pub open spec fn is_cropping(&self) -> bool {
        self.enabled != 0
    }

    /// Create a new crop-bounds POD.
    pub fn new(min: V, max: V, enabled: bool) -> (r: Self)
        ensures
            r.min == min,
            r.max == max,
            r.enabled == enabled_word(enabled),
            enabled ==> r.enabled == 1,
            !enabled ==> r.enabled == 0,
            r._padding == 0,
            r.is_cropping() <==> enabled,
    {
        let word: u32 = if enabled { 1 } else { 0 };
        CropBoundsPod { min, enabled: word, max, _padding: 0 }
    }
}

} // verus!
