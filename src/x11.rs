use vstd::prelude::*;

use crate::context::{Context, ContextBackend, Dispatch, NativeCall, NativeContext};
use crate::negotiate::FinishRequest;
use crate::request::{Api, BackendKind, CreationError, ErrorKind, PixelFormat};
use crate::xdisplay::XError;

verus! {

/// One step of tearing a window's context down, in the order the driver performs them.
#[derive(Clone, Copy, Debug, PartialEq, Eq, Structural)]
pub enum TeardownStep {
    /// Detach the context variant, so that no GL call can reach it any more, and destroy
    /// the native context it held, if it was live.
    ClearContext(Option<NativeCall>),
    /// Free the window's colormap.
    FreeColormap(u64),
}

/// An OpenGL context on an X11 window, with the colormap created for its visual.
#[derive(Debug)]
pub struct Window {
    /// The display the context lives on; the connection itself is shared and held by the caller.
    pub display: u64,
    /// The colormap, until teardown frees it.
    pub colormap: Option<u64>,
    pub context: Context,
}

pub open spec fn context_backend(kind: BackendKind) -> ContextBackend {
    match kind {
        BackendKind::Glx => ContextBackend::Glx,
        BackendKind::Egl => ContextBackend::Egl,
    }
}

/// The operations that tearing down a window performs, in order.
pub open spec fn teardown_trace(w: Window) -> Seq<TeardownStep> {
    let clear = TeardownStep::ClearContext(if w.context.is_live() { Some(w.context.call_spec()) } else { None });
    match w.colormap {
        Some(c) => seq![clear, TeardownStep::FreeColormap(c)],
        None => seq![clear],
    }
}

/// The window once torn down: its context released and its colormap freed.
pub open spec fn torn_down(w: Window) -> Window {
    Window { display: w.display, colormap: None, context: Context::Released }
}

impl Window {
    /// The window that a finished prototype gives, from the outcome of binding it (the
    /// native context handle) and of creating the colormap for its visual. A failed bind
    /// is passed on; a failed colormap fails the creation, and the driver releases the
    /// context it bound, so no partial context is handed back.
    pub fn new(request: FinishRequest, bound: Result<u64, CreationError>, colormap: Result<u64, XError>) -> (r: Result<Window, CreationError>)
        ensures
            bound is Err ==> r == Err::<Window, CreationError>(bound->Err_0),
            bound is Ok && colormap is Err ==> r is Err && r->Err_0.kind_of() == ErrorKind::NativeCallFailed,
            bound is Ok && colormap is Ok ==> r is Ok,
            r matches Ok(w) ==> {
                &&& w.display == request.display
                &&& w.colormap == Some(colormap->Ok_0)
                &&& w.context.is_live()
                &&& w.context.call_spec() == (NativeCall { backend: context_backend(request.backend), handle: bound->Ok_0 })
                &&& w.context.native_spec() == (NativeContext { handle: bound->Ok_0, api: request.api, pixel_format: request.pixel_format })
            },
    {
        let handle = match bound {
            Ok(h) => h,
            Err(e) => return Err(e),
        };
        let cmap = match colormap {
            Ok(c) => c,
            Err(_) => return Err(CreationError::NativeCallFailed("XCreateColormap failed".to_string())),
        };
        let native = NativeContext { handle, api: request.api, pixel_format: request.pixel_format };
        let backend = match request.backend {
            BackendKind::Glx => ContextBackend::Glx,
            BackendKind::Egl => ContextBackend::Egl,
        };
        Ok(Window { display: request.display, colormap: Some(cmap), context: Context::from_native(backend, native) })
    }

    /// Releases the context: the variant is cleared first, so that no GL call is made while
    /// resources go away, and the colormap is freed after it, once.
    pub fn teardown(&mut self) -> (steps: Vec<TeardownStep>)
        ensures
            steps@ == teardown_trace(*old(self)),
            *final(self) == torn_down(*old(self)),
    {
        let mut steps: Vec<TeardownStep> = Vec::new();
        let detached = match self.context {
            Context::Released => None,
            _ => Some(self.context.is_current()),
        };
        self.context = Context::Released;
        steps.push(TeardownStep::ClearContext(detached));
        match self.colormap.take() {
            Some(c) => steps.push(TeardownStep::FreeColormap(c)),
            None => {},
        }
        proof {
            assert(steps@ =~= teardown_trace(*old(self)));
        }
        steps
    }

    pub fn make_current(&self) -> (d: Dispatch)
        ensures
            d == self.context.forward_spec(),
    {
        self.context.make_current()
    }

    pub fn swap_buffers(&self) -> (d: Dispatch)
        ensures
            d == self.context.forward_spec(),
    {
        self.context.swap_buffers()
    }

    pub fn get_proc_address(&self) -> (d: Dispatch)
        ensures
            d == self.context.forward_spec(),
    {
        self.context.get_proc_address()
    }

    pub fn is_current(&self) -> (c: NativeCall)
        requires
            self.context.is_live(),
        ensures
            c == self.context.call_spec(),
    {
        self.context.is_current()
    }

    pub fn get_api(&self) -> (a: Api)
        requires
            self.context.is_live(),
        ensures
            a == self.context.native_spec().api,
    {
        self.context.get_api()
    }

    pub fn get_pixel_format(&self) -> (f: PixelFormat)
        requires
            self.context.is_live(),
        ensures
            f == self.context.native_spec().pixel_format,
    {
        self.context.get_pixel_format()
    }
}

/// Teardown clears the context variant strictly before it frees the colormap.
pub proof fn lemma_teardown_order(w: Window)
    requires
        w.colormap is Some,
    ensures
        teardown_trace(w).len() == 2,
        teardown_trace(w)[0] is ClearContext,
        teardown_trace(w)[1] == TeardownStep::FreeColormap(w.colormap.unwrap()),
{
}

/// After teardown, making current and swapping buffers are skipped (they succeed with no
/// native call), symbol lookups give null, and the queries, which require a live context,
/// may no longer be made. A second teardown only clears the already released variant.
pub proof fn lemma_torn_down_is_inert(w: Window)
    ensures
        torn_down(w).context.forward_spec() == Dispatch::Skip,
        !torn_down(w).context.is_live(),
        teardown_trace(torn_down(w)) == seq![TeardownStep::ClearContext(None)],
        torn_down(torn_down(w)) == torn_down(w),
{
}

} // verus!
