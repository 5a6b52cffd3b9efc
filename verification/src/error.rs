use vstd::prelude::*;

verus! {

/// The ways in which an operation of this library can fail.
#[derive(Clone, Copy, Debug, PartialEq, Eq, Structural)]
pub enum ErrorKind {
    /// The adapter does not support the requested context.
    ContextCreation,
    /// The requested size or format of a surface is not supported.
    SurfaceCreation,
    /// A surface could not be attached to a context.
    Bind,
    /// There was no surface to detach from a context.
    Unbind,
    /// The context is not valid, is not the current one, or the platform
    /// refused to make it current.
    Currency,
    /// A surface could not be wrapped as a texture, or a texture could not
    /// be unwrapped by the context it was handed to.
    Import,
    /// An object was released while something still referred to it.
    Lifecycle,
    /// Source and destination of a transfer differ in size.
    SizeMismatch,
    /// The destination context of a transfer has no surface bound.
    UnboundDestination,
    /// A framebuffer was incomplete, or the driver reported an error, after
    /// a call that changes state.
    Integrity,
}

} // verus!
