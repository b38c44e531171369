use vstd::prelude::*;

use crate::request::{Api, PixelFormat};

verus! {

/// A live native context, as the backend that bound it handed it back.
#[derive(Clone, Copy, Debug)]
pub struct NativeContext {
    /// The native context handle, as an address.
    pub handle: u64,
    pub api: Api,
    pub pixel_format: PixelFormat,
}

/// Which native interface a live context is driven through.
#[derive(Clone, Copy, Debug, PartialEq, Eq, Structural)]
pub enum ContextBackend {
    Glx,
    Egl,
    PlatformNative,
}

/// The unified context: one live variant per backend, or `Released` once torn down.
/// `Released` is never created; it only marks released resources.
#[derive(Clone, Copy, Debug)]
pub enum Context {
    Glx(NativeContext),
    Egl(NativeContext),
    PlatformNative(NativeContext),
    Released,
}

/// A native call to make on a live context.
#[derive(Clone, Copy, Debug, PartialEq, Eq, Structural)]
pub struct NativeCall {
    pub backend: ContextBackend,
    pub handle: u64,
}

/// What an operation on the context amounts to.
#[derive(Clone, Copy, Debug, PartialEq, Eq, Structural)]
pub enum Dispatch {
    /// Forward to the native interface of the live variant.
    Native(NativeCall),
    /// Nothing to do: succeed at once (or, for a symbol lookup, give a null address).
    Skip,
}

impl Context {
    pub open spec fn is_live(&self) -> bool {
        !(self is Released)
    }

    pub open spec fn native_spec(&self) -> NativeContext
        recommends
            self.is_live(),
    {
        match self {
            Context::Glx(c) => *c,
            Context::Egl(c) => *c,
            Context::PlatformNative(c) => *c,
            Context::Released => arbitrary(),
        }
    }

    pub open spec fn call_spec(&self) -> NativeCall
        recommends
            self.is_live(),
    {
        match self {
            Context::Glx(c) => NativeCall { backend: ContextBackend::Glx, handle: c.handle },
            Context::Egl(c) => NativeCall { backend: ContextBackend::Egl, handle: c.handle },
            Context::PlatformNative(c) => NativeCall { backend: ContextBackend::PlatformNative, handle: c.handle },
            Context::Released => arbitrary(),
        }
    }

    /// The dispatch of `make_current`, `swap_buffers` and `get_proc_address`.
    pub open spec fn forward_spec(&self) -> Dispatch {
        if self.is_live() {
            Dispatch::Native(self.call_spec())
        } else {
            Dispatch::Skip
        }
    }

    /// A context of the given backend around a context that was just bound.
    pub fn from_native(backend: ContextBackend, native: NativeContext) -> (c: Context)
        ensures
            c.is_live(),
            c.native_spec() == native,
            c.call_spec() == (NativeCall { backend, handle: native.handle }),
    {
        match backend {
            ContextBackend::Glx => Context::Glx(native),
            ContextBackend::Egl => Context::Egl(native),
            ContextBackend::PlatformNative => Context::PlatformNative(native),
        }
    }

    fn forward(&self) -> (d: Dispatch)
        ensures
            d == self.forward_spec(),
    {
        match self {
            Context::Glx(c) => Dispatch::Native(NativeCall { backend: ContextBackend::Glx, handle: c.handle }),
            Context::Egl(c) => Dispatch::Native(NativeCall { backend: ContextBackend::Egl, handle: c.handle }),
            Context::PlatformNative(c) => Dispatch::Native(NativeCall { backend: ContextBackend::PlatformNative, handle: c.handle }),
            Context::Released => Dispatch::Skip,
        }
    }

    /// Making a torn-down context current is a no-op that succeeds: shutdown paths call it
    /// without knowing the teardown order.
    pub fn make_current(&self) -> (d: Dispatch)
        ensures
            d == self.forward_spec(),
    {
        self.forward()
    }

    /// Swapping the buffers of a torn-down context is a no-op that succeeds.
    pub fn swap_buffers(&self) -> (d: Dispatch)
        ensures
            d == self.forward_spec(),
    {
        self.forward()
    }

    /// Looking a symbol up in a torn-down context gives a null address.
    pub fn get_proc_address(&self) -> (d: Dispatch)
        ensures
            d == self.forward_spec(),
    {
        self.forward()
    }

    /// Asking a torn-down context whether it is current is a lifetime bug of the caller.
    pub fn is_current(&self) -> (c: NativeCall)
        requires
            self.is_live(),
        ensures
            c == self.call_spec(),
    {
        match self {
            Context::Glx(c) => NativeCall { backend: ContextBackend::Glx, handle: c.handle },
            Context::Egl(c) => NativeCall { backend: ContextBackend::Egl, handle: c.handle },
            Context::PlatformNative(c) => NativeCall { backend: ContextBackend::PlatformNative, handle: c.handle },
            Context::Released => unreached(),
        }
    }

    pub fn get_api(&self) -> (a: Api)
        requires
            self.is_live(),
        ensures
            a == self.native_spec().api,
    {
        match self {
            Context::Glx(c) => c.api,
            Context::Egl(c) => c.api,
            Context::PlatformNative(c) => c.api,
            Context::Released => unreached(),
        }
    }

    pub fn get_pixel_format(&self) -> (f: PixelFormat)
        requires
            self.is_live(),
        ensures
            f == self.native_spec().pixel_format,
    {
        match self {
            Context::Glx(c) => c.pixel_format,
            Context::Egl(c) => c.pixel_format,
            Context::PlatformNative(c) => c.pixel_format,
            Context::Released => unreached(),
        }
    }
}

} // verus!
