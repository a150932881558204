use vstd::prelude::*;

verus! {

/// The error type for accessing a model in a multi-model viewer.
#[derive(Debug, Clone, Copy, PartialEq, Eq, Structural)]
pub enum MultiModelViewerAccessError {
    /// No model is stored under the given key.
    ModelNotFound,
}

impl MultiModelViewerAccessError {
    /// The human-readable description of the error.
    pub fn message(&self) -> (r: &'static str)
        ensures
            r@ == "model with the given key does not exist"@,
    {
        match self {
            MultiModelViewerAccessError::ModelNotFound => "model with the given key does not exist",
        }
    }
}

/// A model whose Gaussians buffer is larger than the device lets a storage
/// buffer binding be.
#[derive(Debug, Clone, Copy, PartialEq, Eq, Structural)]
pub struct ModelSizeExceedsDeviceLimit {
    /// The size of the Gaussians buffer, in bytes.
    pub model_size: u64,
    /// The device's maximum storage buffer binding size, in bytes.
    pub device_limit: u64,
}

impl ModelSizeExceedsDeviceLimit {
    /// Whether a model of `model_size` bytes can be bound on a device whose
    /// storage buffer bindings hold at most `device_limit` bytes.
    pub open spec fn fits(model_size: u64, device_limit: u64) -> bool {
        model_size <= device_limit
    }

    /// Checks a model's size against the device limit, as renderers and
    /// preprocessors do before they are created.
    ///
    /// The model is refused exactly when the limit is smaller than its size; the
    /// error then carries both numbers.
    pub fn check(model_size: u64, device_limit: u64) -> (r: Result<(), ModelSizeExceedsDeviceLimit>)
        ensures
            r is Ok <==> model_size <= device_limit,
            r is Ok <==> Self::fits(model_size, device_limit),
            r is Err ==> r == Err::<(), ModelSizeExceedsDeviceLimit>(
                (ModelSizeExceedsDeviceLimit { model_size, device_limit }),
            ),
    {
        if device_limit < model_size {
            Err(ModelSizeExceedsDeviceLimit { model_size, device_limit })
        } else {
            Ok(())
        }
    }
}

/// A model fits the device exactly when its size is at most the device's
/// storage-buffer binding limit, whatever the two sizes are: no model within the
/// limit is refused and no model beyond it is accepted.
pub proof fn lemma_model_fits_iff_within_limit(model_size: u64, device_limit: u64)
    ensures
        ModelSizeExceedsDeviceLimit::fits(model_size, device_limit) <==> model_size <= device_limit,
        model_size <= device_limit ==> ModelSizeExceedsDeviceLimit::fits(model_size, device_limit),
        device_limit < model_size ==> !ModelSizeExceedsDeviceLimit::fits(model_size, device_limit),
{
}

} // verus!
