use vstd::prelude::*;

verus! {

/// Why context construction aborted. Every failure is fatal to the whole
/// construction sequence: no partially built context survives it.
#[derive(Clone, Copy, Debug, PartialEq, Eq, Structural)]
pub enum InitError {
    /// The drawable could not be tagged/bound to the host surface.
    HandleBinding,
    /// No compatible surface, adapter or device could be negotiated.
    BackendNegotiation,
    /// The asset fetch failed, returned a non-success status, or the bytes
    /// did not decode to an image the renderer can upload.
    Asset,
}

/// Why a single render call failed. The context stays valid; the caller may
/// retry on the next scheduled frame.
#[derive(Clone, Copy, Debug, PartialEq, Eq, Structural)]
pub enum RenderError {
    /// No presentable surface texture could be acquired for this frame.
    SurfaceAcquisition,
}

} // verus!
