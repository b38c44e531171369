//! Backend selection and two-phase creation of OpenGL contexts on X11 (GLX or EGL),
//! Wayland and Win32, with the lifecycle of the resulting context.
//!
//! The native calls (library loading, GLX, EGL, Xlib) are made by the caller; this crate
//! decides what to call and what the outcomes amount to: which client libraries to load
//! and in what order, which backend serves a request, which visual a negotiation gives,
//! when a prototype may be finished, what each operation on a context forwards to, and in
//! what order a context is torn down.

pub mod backend;
pub mod context;
pub mod dispatch;
pub mod monitor;
pub mod negotiate;
pub mod request;
pub mod windows;
pub mod x11;
pub mod xdisplay;
