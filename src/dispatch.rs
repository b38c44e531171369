use vstd::prelude::*;

use crate::context::Context;
use crate::request::{CreationError, ErrorKind};
use crate::x11;

verus! {

/// Per-platform window options; none exist on this platform.
#[derive(Clone, Copy, Debug, Default)]
pub struct PlatformSpecificWindowBuilderAttributes;

/// The display server that a native window belongs to.
#[derive(Clone, Copy, Debug, PartialEq, Eq, Structural)]
pub enum PlatformWindowKind {
    X,
    Wayland,
}

/// A context on a window of either display server.
#[derive(Debug)]
pub enum Window {
    X(x11::Window),
    Wayland(Context),
}

impl Window {
    pub open spec fn kind_spec(&self) -> PlatformWindowKind {
        match self {
            Window::X(_) => PlatformWindowKind::X,
            Window::Wayland(_) => PlatformWindowKind::Wayland,
        }
    }

    pub open spec fn context_spec(&self) -> Context {
        match self {
            Window::X(w) => w.context,
            Window::Wayland(c) => *c,
        }
    }

    pub fn kind(&self) -> (k: PlatformWindowKind)
        ensures
            k == self.kind_spec(),
    {
        match self {
            Window::X(_) => PlatformWindowKind::X,
            Window::Wayland(_) => PlatformWindowKind::Wayland,
        }
    }

    /// The display server whose path builds the context for a window of the given kind.
    /// A context to share with must live on the same display server: sharing across them
    /// is refused as a configuration error.
    pub fn route(native: PlatformWindowKind, sharing: Option<&Window>) -> (r: Result<PlatformWindowKind, CreationError>)
        ensures
            r is Ok <==> (sharing is None || sharing.unwrap().kind_spec() == native),
            r is Ok ==> r->Ok_0 == native,
            r is Err ==> r->Err_0.kind_of() == ErrorKind::ConfigurationError,
    {
        match sharing {
            Some(w) => {
                if w.kind() == native {
                    Ok(native)
                } else {
                    Err(CreationError::ConfigurationError(
                        "the shared context belongs to another display server".to_string(),
                    ))
                }
            },
            None => Ok(native),
        }
    }

    /// The unified context that the operations forward to.
    pub fn context(&self) -> (c: &Context)
        ensures
            *c == self.context_spec(),
    {
        match self {
            Window::X(w) => &w.context,
            Window::Wayland(c) => c,
        }
    }
}

} // verus!
