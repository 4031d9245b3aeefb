use vstd::prelude::*;

verus! {

/// Why an import step rejected its input.
#[derive(Clone, Copy, PartialEq, Eq, Debug, Structural)]
pub enum FormatError {
    /// A byte span does not hold exactly `count` scalars of the declared type.
    AccessorLengthMismatch,
    /// An index stream was declared with a floating-point component type.
    FloatIndices,
    /// An index refers past the end of a present vertex attribute.
    IndexOutOfRange,
    /// The source pixel layout is not one of the supported 8 or 16 bit layouts.
    UnsupportedPixelFormat,
    /// The pixel bytes do not cover exactly `width * height` pixels.
    PixelCountMismatch,
    /// A node refers to a node that does not exist, or the hierarchy is deeper
    /// than its node count and so holds a cycle.
    InvalidHierarchy,
}

/// Why the renderer refused a request.
#[derive(Clone, Copy, PartialEq, Eq, Debug, Structural)]
pub enum RenderError {
    /// A draw or the end of a frame was requested outside `begin_frame` / `end_frame`.
    NotBuilding,
    /// A draw names a model that was never loaded.
    UnknownModel,
    /// A framebuffer dimension is zero.
    ZeroSizedFramebuffer,
    /// A model holds two batches or two materials under one key, or a batch
    /// bound to a buffer slot that the renderer never handed out.
    InvalidModel,
    /// The texture table is full.
    TooManyTextures,
    /// The vertex buffer table is full.
    TooManyBuffers,
}

} // verus!
