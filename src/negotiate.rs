use vstd::prelude::*;

use crate::backend::{GlenOrGlenda, LibraryHandle};
use crate::request::{
    class_of, outcome, Api, BackendKind, CreationError, ErrorKind, GlAttributes, GlRequest,
    PixelFormat, RequestClass, classify,
};
use crate::xdisplay::{XConnection, XError};

verus! {

/// The backend chosen for a request, with the library it is built on.
#[derive(Clone, Copy, Debug, PartialEq, Eq, Structural)]
pub struct Selection {
    pub kind: BackendKind,
    pub library: LibraryHandle,
}

/// The backend that the policy picks among the available ones, before sharing is looked at.
/// GLX is preferred over EGL for desktop requests: mixing both drivers on one display
/// connection crashes some X11 driver stacks.
pub open spec fn preferred(class: RequestClass, avail: GlenOrGlenda) -> Option<Selection> {
    match class {
        RequestClass::Desktop => match avail.glx {
            Some(l) => Some(Selection { kind: BackendKind::Glx, library: l }),
            None => match avail.egl {
                Some(l) => Some(Selection { kind: BackendKind::Egl, library: l }),
                None => None,
            },
        },
        RequestClass::Embedded => match avail.egl {
            Some(l) => Some(Selection { kind: BackendKind::Egl, library: l }),
            None => None,
        },
        RequestClass::Unsupported => None,
    }
}

/// What building a prototype for this request gives, the error reduced to its kind.
pub open spec fn selection_of(request: GlRequest, sharing: Option<BackendKind>, avail: GlenOrGlenda) -> Result<Selection, ErrorKind> {
    if class_of(request) == RequestClass::Unsupported {
        Err(ErrorKind::NotSupported)
    } else if !avail.has_backend() {
        Err(ErrorKind::NoBackendAvailable)
    } else {
        match preferred(class_of(request), avail) {
            None => Err(ErrorKind::NotSupported),
            Some(s) => match sharing {
                Some(k) => if k == s.kind { Ok(s) } else { Err(ErrorKind::ConfigurationError) },
                None => Ok(s),
            },
        }
    }
}

/// Picks the backend that will serve the request.
pub fn select_backend(attrs: &GlAttributes, avail: &GlenOrGlenda) -> (r: Result<Selection, CreationError>)
    ensures
        outcome(r) == selection_of(attrs.version, attrs.sharing, *avail),
{
    let class = classify(&attrs.version);
    if class == RequestClass::Unsupported {
        return Err(CreationError::NotSupported);
    }
    if avail.glx.is_none() && avail.egl.is_none() {
        return Err(CreationError::NoBackendAvailable(
            "none of libGL.so.1, libGL.so, libEGL.so.1, libEGL.so could be loaded".to_string(),
        ));
    }
    let picked: Option<Selection> = match class {
        RequestClass::Desktop => match avail.glx {
            Some(l) => Some(Selection { kind: BackendKind::Glx, library: l }),
            None => match avail.egl {
                Some(l) => Some(Selection { kind: BackendKind::Egl, library: l }),
                None => None,
            },
        },
        RequestClass::Embedded => match avail.egl {
            Some(l) => Some(Selection { kind: BackendKind::Egl, library: l }),
            None => None,
        },
        RequestClass::Unsupported => None,
    };
    match picked {
        None => Err(CreationError::NotSupported),
        Some(s) => match attrs.sharing {
            Some(k) => {
                if k == s.kind {
                    Ok(s)
                } else {
                    Err(CreationError::ConfigurationError(
                        "the shared context belongs to another backend".to_string(),
                    ))
                }
            },
            None => Ok(s),
        },
    }
}

/// A desktop request with both libraries present and no sharing is always served by GLX.
pub proof fn lemma_glx_preferred(request: GlRequest, avail: GlenOrGlenda)
    requires
        class_of(request) == RequestClass::Desktop,
        avail.glx is Some,
        avail.egl is Some,
    ensures
        selection_of(request, None, avail) == Ok::<Selection, ErrorKind>(
            Selection { kind: BackendKind::Glx, library: avail.glx.unwrap() },
        ),
{
}

/// A request for an unsupported API fails with `NotSupported`, whatever is available.
pub proof fn lemma_unsupported_everywhere(request: GlRequest, sharing: Option<BackendKind>, avail: GlenOrGlenda)
    requires
        class_of(request) == RequestClass::Unsupported,
    ensures
        selection_of(request, sharing, avail) == Err::<Selection, ErrorKind>(ErrorKind::NotSupported),
{
}

/// With no client library loaded, every supported request fails with `NoBackendAvailable`.
pub proof fn lemma_no_backend(request: GlRequest, sharing: Option<BackendKind>, avail: GlenOrGlenda)
    requires
        class_of(request) != RequestClass::Unsupported,
        avail.glx is None,
        avail.egl is None,
    ensures
        selection_of(request, sharing, avail) == Err::<Selection, ErrorKind>(ErrorKind::NoBackendAvailable),
{
}

/// A native visual, as the display describes it.
#[derive(Clone, Copy, Debug, PartialEq, Eq, Structural)]
pub struct VisualInfo {
    /// The native visual pointer, as an address.
    pub visual: u64,
    pub visual_id: u64,
    pub screen: i32,
    pub depth: i32,
    pub class: i32,
    pub red_mask: u64,
    pub green_mask: u64,
    pub blue_mask: u64,
    pub colormap_size: i32,
    pub bits_per_rgb: i32,
}

/// Takes the visual out of a lookup by visual ID: the lookup must have raised no error and
/// found exactly one visual, which is returned as it is.
pub fn resolve_visual(lookup_status: &Result<(), XError>, matches: &Vec<VisualInfo>) -> (r: Result<VisualInfo, CreationError>)
    ensures
        r is Ok <==> (lookup_status is Ok && matches@.len() == 1),
        r is Ok ==> r->Ok_0 == matches@[0],
        r is Err ==> r->Err_0.kind_of() == ErrorKind::NativeCallFailed,
{
    if lookup_status.is_err() {
        return Err(CreationError::NativeCallFailed("the visual lookup raised an X error".to_string()));
    }
    if matches.len() != 1 {
        return Err(CreationError::NativeCallFailed(
            "the visual lookup did not find exactly one visual".to_string(),
        ));
    }
    Ok(matches[0])
}

/// A context negotiated on a display but bound to no window yet. Its first `finish`
/// consumes it; a later one is refused.
#[derive(Clone, Copy, Debug)]
pub struct ContextPrototype {
    pub backend: BackendKind,
    pub library: LibraryHandle,
    /// The display the negotiation ran on.
    pub display: u64,
    /// The native framebuffer configuration that was chosen.
    pub config: u64,
    pub visual: VisualInfo,
    pub api: Api,
    pub pixel_format: PixelFormat,
    pub finished: bool,
}

/// What the driver is to bind: the negotiated configuration and a window of the display.
#[derive(Clone, Copy, Debug)]
pub struct FinishRequest {
    pub backend: BackendKind,
    pub library: LibraryHandle,
    pub display: u64,
    pub config: u64,
    pub window: u64,
    pub api: Api,
    pub pixel_format: PixelFormat,
}

impl ContextPrototype {
    pub open spec fn request_for(&self, window: u64) -> FinishRequest {
        FinishRequest {
            backend: self.backend,
            library: self.library,
            display: self.display,
            config: self.config,
            window,
            api: self.api,
            pixel_format: self.pixel_format,
        }
    }

    /// A GLX prototype: the chosen framebuffer configuration carries its own visual.
    pub fn glx(selection: Selection, display: &XConnection, config: u64, visual: VisualInfo, pixel_format: PixelFormat) -> (p: ContextPrototype)
        requires
            selection.kind == BackendKind::Glx,
        ensures
            p.backend == BackendKind::Glx,
            p.library == selection.library,
            p.display == display.display,
            p.config == config,
            p.visual == visual,
            p.api == Api::OpenGl,
            p.pixel_format == pixel_format,
            !p.finished,
    {
        ContextPrototype {
            backend: BackendKind::Glx,
            library: selection.library,
            display: display.display,
            config,
            visual,
            api: Api::OpenGl,
            pixel_format,
            finished: false,
        }
    }

    /// An EGL prototype: EGL names only a visual ID, so its visual is the one that the
    /// display's lookup by that ID found, and the lookup must find exactly one.
    pub fn egl(
        selection: Selection,
        display: &XConnection,
        config: u64,
        api: Api,
        pixel_format: PixelFormat,
        lookup_status: &Result<(), XError>,
        matches: &Vec<VisualInfo>,
    ) -> (r: Result<ContextPrototype, CreationError>)
        requires
            selection.kind == BackendKind::Egl,
        ensures
            r is Ok <==> (lookup_status is Ok && matches@.len() == 1),
            r is Err ==> r->Err_0.kind_of() == ErrorKind::NativeCallFailed,
            r matches Ok(p) ==> {
                &&& p.backend == BackendKind::Egl
                &&& p.library == selection.library
                &&& p.display == display.display
                &&& p.config == config
                &&& p.visual == matches@[0]
                &&& p.api == api
                &&& p.pixel_format == pixel_format
                &&& !p.finished
            },
    {
        let visual = resolve_visual(lookup_status, matches)?;
        Ok(ContextPrototype {
            backend: BackendKind::Egl,
            library: selection.library,
            display: display.display,
            config,
            visual,
            api,
            pixel_format,
            finished: false,
        })
    }

    /// Consumes the prototype and hands out what to bind to `window`. Refused, with the
    /// prototype left as it was, once it was finished, or when its display is closed or
    /// is not the one given.
    pub fn finish(&mut self, display: &XConnection, window: u64) -> (r: Result<FinishRequest, CreationError>)
        ensures
            (*final(self), outcome(r)) == finish_step(*old(self), display.display, display.open, window),
    {
        if self.finished {
            return Err(CreationError::AlreadyFinished);
        }
        if !display.open {
            return Err(CreationError::DisplayClosed);
        }
        if display.display != self.display {
            return Err(CreationError::ConfigurationError(
                "the prototype was negotiated on another display".to_string(),
            ));
        }
        self.finished = true;
        Ok(FinishRequest {
            backend: self.backend,
            library: self.library,
            display: self.display,
            config: self.config,
            window,
            api: self.api,
            pixel_format: self.pixel_format,
        })
    }
}

/// The prototype after a `finish` on the given display and window, and its outcome.
pub open spec fn finish_step(p: ContextPrototype, display: u64, open: bool, window: u64) -> (ContextPrototype, Result<FinishRequest, ErrorKind>) {
    if p.finished {
        (p, Err(ErrorKind::AlreadyFinished))
    } else if !open {
        (p, Err(ErrorKind::DisplayClosed))
    } else if display != p.display {
        (p, Err(ErrorKind::ConfigurationError))
    } else {
        (ContextPrototype { finished: true, ..p }, Ok(p.request_for(window)))
    }
}

/// A prototype is finished at most once: after a `finish` that succeeded, another one fails
/// with `AlreadyFinished`, hands out nothing to bind and leaves the prototype unchanged.
pub proof fn lemma_finish_once(p: ContextPrototype, display: u64, open: bool, w1: u64, w2: u64)
    requires
        finish_step(p, display, open, w1).1 is Ok,
    ensures
        finish_step(finish_step(p, display, open, w1).0, display, open, w2) == (
            finish_step(p, display, open, w1).0,
            Err::<FinishRequest, ErrorKind>(ErrorKind::AlreadyFinished),
        ),
{
}

} // verus!
