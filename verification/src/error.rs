use vstd::prelude::*;

verus! {

/// Why a context could not be created.
#[derive(Clone, Debug, PartialEq, Eq)]
pub enum CreationError {
    /// The operating system refused a request; its message.
    OsError(String),
    /// The platform does not support what was asked; a description.
    NotSupported(String),
    /// The requested robustness is not supported.
    RobustnessNotSupported,
    /// The requested OpenGL version is not supported.
    OpenGlVersionNotSupported,
    /// No pixel format meets the requirements.
    NoAvailablePixelFormat,
    /// A platform-specific failure; its message.
    PlatformSpecific(String),
    /// The window that the context should live in could not be built; the
    /// windowing library's message.
    Window(String),
}

/// Why an operation on a live context failed.
#[derive(Clone, Debug, PartialEq, Eq)]
pub enum ContextError {
    /// The operating system refused a request; its message.
    OsError(String),
    /// The context was lost.
    ContextLost,
    /// The operation is not available on this platform.
    FunctionUnavailable,
}

} // verus!
