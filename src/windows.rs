use vstd::prelude::*;

use crate::backend::LibraryHandle;
use crate::context::{Context, ContextBackend, NativeContext};
use crate::request::{CreationError, ErrorKind};

verus! {

/// Per-platform window options; none exist on this platform.
#[derive(Clone, Copy, Debug, Default)]
pub struct PlatformSpecificWindowBuilderAttributes;

/// Per-platform headless options; none exist on this platform.
#[derive(Clone, Copy, Debug, Default)]
pub struct PlatformSpecificHeadlessBuilderAttributes;

/// The driver library that provides EGL on this platform, by pointer width.
pub open spec fn egl_library_name(pointer_width_64: bool) -> Seq<char> {
    if pointer_width_64 { "atio6axx.dll"@ } else { "atioglxx.dll"@ }
}

pub fn egl_library(pointer_width_64: bool) -> (r: &'static str)
    ensures
        r@ == egl_library_name(pointer_width_64),
{
    if pointer_width_64 { "atio6axx.dll" } else { "atioglxx.dll" }
}

/// A window context built through the platform's own interface.
#[derive(Debug)]
pub struct Window(pub Context);

impl Window {
    /// Wraps the context that the platform built for a window.
    pub fn new(native: NativeContext) -> (w: Window)
        ensures
            w.0.is_live(),
            w.0.native_spec() == native,
            w.0 is PlatformNative,
    {
        Window(Context::PlatformNative(native))
    }
}

/// How to try building a headless context.
#[derive(Clone, Copy, Debug, PartialEq, Eq, Structural)]
pub enum HeadlessPlan {
    /// Build an EGL pbuffer with this library.
    EglPbuffer(LibraryHandle),
    /// No EGL: only the hidden-window route remains.
    HiddenWindow,
}

/// A context that renders off screen.
#[derive(Clone, Copy, Debug)]
pub enum HeadlessContext {
    /// A regular window, but invisible.
    HiddenWindow(NativeContext),
    /// An EGL pbuffer.
    EglPbuffer(NativeContext),
}

impl HeadlessContext {
    /// EGL is tried first whenever it is available.
    pub fn plan(egl: Option<LibraryHandle>) -> (p: HeadlessPlan)
        ensures
            p == (match egl {
                Some(l) => HeadlessPlan::EglPbuffer(l),
                None => HeadlessPlan::HiddenWindow,
            }),
    {
        match egl {
            Some(l) => HeadlessPlan::EglPbuffer(l),
            None => HeadlessPlan::HiddenWindow,
        }
    }

    /// The headless context, from the outcome of the EGL pbuffer attempt (`None` when
    /// EGL was not tried) and of the hidden-window attempt (`None` when it was not made).
    /// A pbuffer wins; a hidden window comes next; with neither, the request is not supported.
    pub fn new(pbuffer: Option<Result<NativeContext, CreationError>>, hidden: Option<Result<NativeContext, CreationError>>) -> (r: Result<HeadlessContext, CreationError>)
        ensures
            pbuffer matches Some(Ok(c)) ==> r matches Ok(HeadlessContext::EglPbuffer(d)) && d == c,
            !(pbuffer matches Some(Ok(_))) ==> (hidden matches Some(Ok(c)) ==> r matches Ok(HeadlessContext::HiddenWindow(d)) && d == c),
            !(pbuffer matches Some(Ok(_))) && !(hidden matches Some(Ok(_))) ==> r is Err && r->Err_0.kind_of() == ErrorKind::NotSupported,
    {
        if let Some(Ok(c)) = pbuffer {
            return Ok(HeadlessContext::EglPbuffer(c));
        }
        if let Some(Ok(c)) = hidden {
            return Ok(HeadlessContext::HiddenWindow(c));
        }
        Err(CreationError::NotSupported)
    }

    pub open spec fn context_spec(&self) -> Context {
        match self {
            HeadlessContext::HiddenWindow(c) => Context::PlatformNative(*c),
            HeadlessContext::EglPbuffer(c) => Context::Egl(*c),
        }
    }

    /// The unified context that the operations forward to; it is always live.
    pub fn context(&self) -> (c: Context)
        ensures
            c == self.context_spec(),
            c.is_live(),
    {
        match self {
            HeadlessContext::HiddenWindow(c) => Context::from_native(ContextBackend::PlatformNative, *c),
            HeadlessContext::EglPbuffer(c) => Context::from_native(ContextBackend::Egl, *c),
        }
    }
}

} // verus!
