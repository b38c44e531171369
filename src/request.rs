use vstd::prelude::*;

verus! {

/// The family of OpenGL interfaces a context can expose.
#[derive(Clone, Copy, Debug, PartialEq, Eq, Structural)]
pub enum Api {
    OpenGl,
    OpenGlEs,
    WebGl,
}

/// A `major.minor` version number.
#[derive(Clone, Copy, Debug, PartialEq, Eq, Structural)]
pub struct GlVersion {
    pub major: u8,
    pub minor: u8,
}

/// What the caller asks for when creating a context.
#[derive(Clone, Copy, Debug, PartialEq, Eq, Structural)]
pub enum GlRequest {
    /// The most recent version that a backend can give.
    Latest,
    /// An exact API and version.
    Specific(Api, GlVersion),
    /// Desktop OpenGL if possible, OpenGL ES otherwise.
    GlThenGles { opengl_version: GlVersion, opengles_version: GlVersion },
}

/// The class into which the selection policy sorts a request.
#[derive(Clone, Copy, Debug, PartialEq, Eq, Structural)]
pub enum RequestClass {
    /// OpenGL, "latest" or "OpenGL then OpenGL ES": GLX first, EGL second.
    Desktop,
    /// OpenGL ES: EGL only.
    Embedded,
    /// Any other combination: never satisfiable.
    Unsupported,
}

pub open spec fn class_of(r: GlRequest) -> RequestClass {
    match r {
        GlRequest::Latest => RequestClass::Desktop,
        GlRequest::GlThenGles { .. } => RequestClass::Desktop,
        GlRequest::Specific(Api::OpenGl, _) => RequestClass::Desktop,
        GlRequest::Specific(Api::OpenGlEs, _) => RequestClass::Embedded,
        GlRequest::Specific(_, _) => RequestClass::Unsupported,
    }
}

/// Sorts a request into the class that decides which backends may serve it.
pub fn classify(r: &GlRequest) -> (c: RequestClass)
    ensures
        c == class_of(*r),
{
    match r {
        GlRequest::Latest => RequestClass::Desktop,
        GlRequest::GlThenGles { .. } => RequestClass::Desktop,
        GlRequest::Specific(Api::OpenGl, _) => RequestClass::Desktop,
        GlRequest::Specific(Api::OpenGlEs, _) => RequestClass::Embedded,
        GlRequest::Specific(_, _) => RequestClass::Unsupported,
    }
}

/// The OpenGL profile asked for.
#[derive(Clone, Copy, Debug, PartialEq, Eq, Structural)]
pub enum GlProfile {
    Compatibility,
    Core,
}

/// Which backend built a context; a sharing reference must name the backend being built.
#[derive(Clone, Copy, Debug, PartialEq, Eq, Structural)]
pub enum BackendKind {
    Glx,
    Egl,
}

/// The context attributes asked for by the caller.
#[derive(Clone, Copy, Debug)]
pub struct GlAttributes {
    pub version: GlRequest,
    pub profile: Option<GlProfile>,
    pub debug: bool,
    pub vsync: bool,
    /// The backend of the context to share resources with, if any.
    pub sharing: Option<BackendKind>,
}

/// Constraints on the pixel format; carried unchanged to the native negotiation.
#[derive(Clone, Copy, Debug, Default)]
pub struct PixelFormatRequirements {
    pub hardware_accelerated: Option<bool>,
    pub color_bits: Option<u8>,
    pub float_color_buffer: bool,
    pub alpha_bits: Option<u8>,
    pub depth_bits: Option<u8>,
    pub stencil_bits: Option<u8>,
    pub double_buffer: Option<bool>,
    pub multisampling: Option<u16>,
    pub stereoscopy: bool,
    pub srgb: bool,
}

/// The pixel format that a live context was created with.
#[derive(Clone, Copy, Debug)]
pub struct PixelFormat {
    pub hardware_accelerated: bool,
    pub color_bits: u8,
    pub alpha_bits: u8,
    pub depth_bits: u8,
    pub stencil_bits: u8,
    pub stereoscopy: bool,
    pub double_buffer: bool,
    pub multisampling: Option<u16>,
    pub srgb: bool,
}

/// Why a context could not be created.
#[derive(Clone, Debug)]
pub enum CreationError {
    /// No available backend can serve the requested API and version.
    NotSupported,
    /// Neither the GLX nor the EGL client library could be loaded; holds the names tried.
    NoBackendAvailable(String),
    /// A native display call reported an error or an unusable answer.
    NativeCallFailed(String),
    /// The caller asked for an invalid combination, such as sharing across backends.
    ConfigurationError(String),
    /// The prototype was finished before; it is consumed by its first finish.
    AlreadyFinished,
    /// The display connection the prototype was negotiated on is closed.
    DisplayClosed,
}

/// Why an operation on a live context failed.
#[derive(Clone, Debug)]
pub enum ContextError {
    /// The native call reported an error.
    IoError(String),
    /// The context was lost and must be created again.
    ContextLost,
}

/// The variant of a `CreationError`, without its detail.
#[derive(Clone, Copy, Debug, PartialEq, Eq, Structural)]
pub enum ErrorKind {
    NotSupported,
    NoBackendAvailable,
    NativeCallFailed,
    ConfigurationError,
    AlreadyFinished,
    DisplayClosed,
}

impl CreationError {
    pub open spec fn kind_of(&self) -> ErrorKind {
        match self {
            CreationError::NotSupported => ErrorKind::NotSupported,
            CreationError::NoBackendAvailable(_) => ErrorKind::NoBackendAvailable,
            CreationError::NativeCallFailed(_) => ErrorKind::NativeCallFailed,
            CreationError::ConfigurationError(_) => ErrorKind::ConfigurationError,
            CreationError::AlreadyFinished => ErrorKind::AlreadyFinished,
            CreationError::DisplayClosed => ErrorKind::DisplayClosed,
        }
    }

    pub fn kind(&self) -> (k: ErrorKind)
        ensures
            k == self.kind_of(),
    {
        match self {
            CreationError::NotSupported => ErrorKind::NotSupported,
            CreationError::NoBackendAvailable(_) => ErrorKind::NoBackendAvailable,
            CreationError::NativeCallFailed(_) => ErrorKind::NativeCallFailed,
            CreationError::ConfigurationError(_) => ErrorKind::ConfigurationError,
            CreationError::AlreadyFinished => ErrorKind::AlreadyFinished,
            CreationError::DisplayClosed => ErrorKind::DisplayClosed,
        }
    }
}

/// The outcome of a creation step with the error reduced to its kind.
pub open spec fn outcome<T>(r: Result<T, CreationError>) -> Result<T, ErrorKind> {
    match r {
        Ok(v) => Ok(v),
        Err(e) => Err(e.kind_of()),
    }
}

} // verus!
