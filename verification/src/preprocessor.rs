use vstd::prelude::*;

verus! {

/// The compute passes of a preprocess, in the order they run.
#[derive(Debug, Clone, Copy, PartialEq, Eq, Structural)]
pub enum PreprocessPass {
    /// Resets the indirect arguments before the Gaussians are processed.
    Pre,
    /// Culls each Gaussian and computes its depth.
    Main,
    /// Finishes the indirect arguments for sorting and drawing.
    Post,
}

/// One dispatch of a preprocess pass, with its number of invocations.
#[derive(Debug, Clone, Copy, PartialEq, Eq, Structural)]
pub struct PreprocessDispatch {
    /// The pass dispatched.
    pub pass: PreprocessPass,
    /// The number of invocations.
    pub invocations: u32,
}

/// The dispatches that preprocessing `gaussian_count` Gaussians issues, in
/// order: the pre pass once, the main pass once per Gaussian, and the post pass
/// once.
pub fn preprocess_dispatches(gaussian_count: u32) -> (r: [PreprocessDispatch; 3])
    ensures
        r@ == seq![
            PreprocessDispatch { pass: PreprocessPass::Pre, invocations: 1 },
            PreprocessDispatch { pass: PreprocessPass::Main, invocations: gaussian_count },
            PreprocessDispatch { pass: PreprocessPass::Post, invocations: 1 },
        ],
{
    [
        PreprocessDispatch { pass: PreprocessPass::Pre, invocations: 1 },
        PreprocessDispatch { pass: PreprocessPass::Main, invocations: gaussian_count },
        PreprocessDispatch { pass: PreprocessPass::Post, invocations: 1 },
    ]
}

} // verus!
