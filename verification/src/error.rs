//! What can go wrong in the viewer, and what becomes of the viewer then.

use crate::model::AssetLoadError;
use crate::target::RenderTargetError;
use vstd::prelude::*;

verus! {

/// A failure of the viewer.
#[derive(Debug, PartialEq, Eq)]
pub enum ViewerError {
    /// An asset is missing, cannot be decoded or has no textured geometry.
    AssetLoad(AssetLoadError),
    /// The shader source at `path` is missing or does not compile.
    ShaderCompile { path: String },
    /// A render target or a frame could not be had.
    RenderTarget(RenderTargetError),
}

/// What the viewer does about a failure. No failure is passed over in
/// silence, and nothing is tried a second time within a frame.
#[derive(Clone, Copy, Debug, PartialEq, Eq, Structural)]
pub enum Recovery {
    /// The viewer stops: the failure comes from how it is set up and would
    /// come again.
    Stop,
    /// The frame is given up and the next frame starts afresh.
    DropFrame,
}

impl ViewerError {
    /// Assets and shaders are loaded once, at the start, and the viewer
    /// cannot do without them; a render target that cannot be had costs the
    /// frame that asked for it.
    pub open spec fn spec_recovery(self) -> Recovery {
        match self {
            ViewerError::AssetLoad(_) => Recovery::Stop,
            ViewerError::ShaderCompile { .. } => Recovery::Stop,
            ViewerError::RenderTarget(_) => Recovery::DropFrame,
        }
    }

    pub fn recovery(&self) -> (r: Recovery)
        ensures
            r == self.spec_recovery(),
    {
        match self {
            ViewerError::AssetLoad(_) => Recovery::Stop,
            ViewerError::ShaderCompile { .. } => Recovery::Stop,
            ViewerError::RenderTarget(_) => Recovery::DropFrame,
        }
    }
}

} // verus!
