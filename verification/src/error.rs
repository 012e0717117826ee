//! Error taxonomy of the engine.
//!
//! Construction errors point at a corrupt asset and are surfaced as typed
//! failures; they are never retried and never silently defaulted.

use vstd::prelude::*;

verus! {

/// An error raised while building or loading an engine resource.
#[derive(Clone, Copy, Debug, PartialEq, Eq, Structural)]
pub enum EngineError {
    /// Raw vertex input whose length is zero, is not a multiple of the
    /// vertex stride, or is referenced by an out-of-range index.
    InvalidVertexData,
    /// Encoded image bytes that the decoder rejects.
    InvalidTextureData,
    /// A startup configuration document that does not parse or validate.
    InvalidApplicationConfig,
    /// The windowing layer could not create a window.
    CreateWinitWindowError,
}

} // verus!
