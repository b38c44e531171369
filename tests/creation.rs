use glutin_core::backend::{GlenOrGlenda, LibraryHandle, LibraryKind, LibraryProbe, ProbeAction, ProbeCache};
use glutin_core::context::{Context, ContextBackend, Dispatch, NativeCall, NativeContext};
use glutin_core::negotiate::{resolve_visual, select_backend, ContextPrototype, VisualInfo};
use glutin_core::request::{
    Api, BackendKind, CreationError, ErrorKind, GlAttributes, GlRequest, GlVersion, PixelFormat,
};
use glutin_core::x11::{TeardownStep, Window};
use glutin_core::xdisplay::{XConnection, XError};

fn lib(id: u64) -> LibraryHandle {
    LibraryHandle { id }
}

fn avail(glx: Option<u64>, egl: Option<u64>) -> GlenOrGlenda {
    GlenOrGlenda::new(glx.map(lib), egl.map(lib), false)
}

fn attrs(version: GlRequest) -> GlAttributes {
    GlAttributes { version, profile: None, debug: false, vsync: false, sharing: None }
}

fn v(major: u8, minor: u8) -> GlVersion {
    GlVersion { major, minor }
}

fn format() -> PixelFormat {
    PixelFormat {
        hardware_accelerated: true,
        color_bits: 24,
        alpha_bits: 8,
        depth_bits: 24,
        stencil_bits: 8,
        stereoscopy: false,
        double_buffer: true,
        multisampling: None,
        srgb: false,
    }
}

fn visual(id: u64) -> VisualInfo {
    VisualInfo {
        visual: 0x1000 + id,
        visual_id: id,
        screen: 0,
        depth: 24,
        class: 4,
        red_mask: 0xff0000,
        green_mask: 0xff00,
        blue_mask: 0xff,
        colormap_size: 256,
        bits_per_rgb: 8,
    }
}

fn x_error() -> XError {
    XError { description: "BadMatch".to_string(), error_code: 8, request_code: 1, minor_code: 0 }
}

#[test]
fn probe_snapshot_is_memoized() {
    let mut cache = ProbeCache::new();
    assert!(cache.is_empty());
    let first = cache.get_or_insert(avail(Some(1), None));
    let second = cache.get_or_insert(avail(None, Some(2)));
    assert_eq!(first, second);
    assert_eq!(first, avail(Some(1), None));
    assert!(!cache.is_empty());
}

#[test]
fn probe_tries_primary_then_fallback_names() {
    let mut probe = LibraryProbe::new(false);
    match probe.next_action() {
        ProbeAction::Load { kind, name } => {
            assert_eq!(kind, LibraryKind::Gl);
            assert_eq!(name, "libGL.so.1");
        }
        ProbeAction::Done(_) => panic!("the probe ended early"),
    }
    probe.on_loaded(None);
    match probe.next_action() {
        ProbeAction::Load { name, .. } => assert_eq!(name, "libGL.so"),
        ProbeAction::Done(_) => panic!("the probe ended early"),
    }
    probe.on_loaded(Some(lib(7)));
    match probe.next_action() {
        ProbeAction::Load { kind, name } => {
            assert_eq!(kind, LibraryKind::Egl);
            assert_eq!(name, "libEGL.so.1");
        }
        ProbeAction::Done(_) => panic!("the probe ended early"),
    }
    probe.on_loaded(None);
    probe.on_loaded(None);
    match probe.next_action() {
        ProbeAction::Done(snapshot) => assert_eq!(snapshot, avail(Some(7), None)),
        ProbeAction::Load { .. } => panic!("the probe did not end"),
    }
}

#[test]
fn probe_skips_fallback_after_primary_loads() {
    let mut probe = LibraryProbe::new(true);
    probe.on_loaded(Some(lib(1)));
    probe.on_loaded(Some(lib(2)));
    match probe.next_action() {
        ProbeAction::Done(snapshot) => {
            assert_eq!(snapshot, GlenOrGlenda::new(Some(lib(1)), Some(lib(2)), true));
        }
        ProbeAction::Load { .. } => panic!("the probe did not end"),
    }
}

#[test]
fn glx_preferred_over_egl_for_desktop_requests() {
    let both = avail(Some(1), Some(2));
    for request in [
        GlRequest::Latest,
        GlRequest::Specific(Api::OpenGl, v(3, 3)),
        GlRequest::GlThenGles { opengl_version: v(3, 0), opengles_version: v(2, 0) },
    ] {
        let s = select_backend(&attrs(request), &both).unwrap();
        assert_eq!(s.kind, BackendKind::Glx);
        assert_eq!(s.library, lib(1));
    }
}

#[test]
fn desktop_request_falls_back_to_egl() {
    let s = select_backend(&attrs(GlRequest::Latest), &avail(None, Some(2))).unwrap();
    assert_eq!(s.kind, BackendKind::Egl);
    assert_eq!(s.library, lib(2));
}

#[test]
fn embedded_request_needs_egl() {
    let r = select_backend(&attrs(GlRequest::Specific(Api::OpenGlEs, v(2, 0))), &avail(Some(1), None));
    assert_eq!(r.unwrap_err().kind(), ErrorKind::NotSupported);
    let s = select_backend(&attrs(GlRequest::Specific(Api::OpenGlEs, v(2, 0))), &avail(Some(1), Some(2))).unwrap();
    assert_eq!(s.kind, BackendKind::Egl);
}

#[test]
fn cross_backend_sharing_is_a_configuration_error() {
    let mut a = attrs(GlRequest::Latest);
    a.sharing = Some(BackendKind::Egl);
    let r = select_backend(&a, &avail(Some(1), Some(2)));
    assert!(matches!(r, Err(CreationError::ConfigurationError(_))));
    a.sharing = Some(BackendKind::Glx);
    assert_eq!(select_backend(&a, &avail(Some(1), Some(2))).unwrap().kind, BackendKind::Glx);
}

#[test]
fn scenario_egl_only_embedded_request() {
    let mut display = XConnection::new(0xd15);
    let selection = select_backend(&attrs(GlRequest::Specific(Api::OpenGlEs, v(2, 0))), &avail(None, Some(2))).unwrap();
    assert_eq!(selection.kind, BackendKind::Egl);
    let status = display.check_errors();
    let mut prototype =
        ContextPrototype::egl(selection, &display, 9, Api::OpenGlEs, format(), &status, &vec![visual(33)]).unwrap();
    assert_eq!(prototype.visual, visual(33));
    let request = prototype.finish(&display, 0x400).unwrap();
    assert_eq!(request.window, 0x400);
    let window = Window::new(request, Ok(0xc0), Ok(0xcafe)).unwrap();
    assert!(matches!(window.context, Context::Egl(_)));
    assert_eq!(window.colormap, Some(0xcafe));
    assert_eq!(window.get_api(), Api::OpenGlEs);
    assert_eq!(window.is_current(), NativeCall { backend: ContextBackend::Egl, handle: 0xc0 });
}

#[test]
fn scenario_latest_with_both_backends_uses_glx() {
    let display = XConnection::new(0xd15);
    let selection = select_backend(&attrs(GlRequest::Latest), &avail(Some(1), Some(2))).unwrap();
    assert_eq!(selection.kind, BackendKind::Glx);
    let mut prototype = ContextPrototype::glx(selection, &display, 5, visual(21), format());
    let request = prototype.finish(&display, 0x400).unwrap();
    assert_eq!(request.backend, BackendKind::Glx);
    let window = Window::new(request, Ok(0xc1), Ok(0xbeef)).unwrap();
    assert!(matches!(window.context, Context::Glx(_)));
    assert_eq!(window.get_api(), Api::OpenGl);
}

#[test]
fn scenario_no_library_gives_no_backend() {
    for request in [
        GlRequest::Latest,
        GlRequest::Specific(Api::OpenGl, v(2, 1)),
        GlRequest::Specific(Api::OpenGlEs, v(3, 0)),
    ] {
        let r = select_backend(&attrs(request), &avail(None, None));
        assert!(matches!(r, Err(CreationError::NoBackendAvailable(_))));
    }
}

#[test]
fn scenario_unsupported_api_regardless_of_availability() {
    for a in [avail(None, None), avail(Some(1), None), avail(None, Some(2)), avail(Some(1), Some(2))] {
        let r = select_backend(&attrs(GlRequest::Specific(Api::WebGl, v(1, 0))), &a);
        assert!(matches!(r, Err(CreationError::NotSupported)));
    }
}

#[test]
fn visual_lookup_needs_exactly_one_match() {
    let ok: Result<(), XError> = Ok(());
    assert_eq!(resolve_visual(&ok, &vec![visual(4)]).unwrap(), visual(4));
    assert_eq!(resolve_visual(&ok, &vec![]).unwrap_err().kind(), ErrorKind::NativeCallFailed);
    assert_eq!(resolve_visual(&ok, &vec![visual(4), visual(5)]).unwrap_err().kind(), ErrorKind::NativeCallFailed);
    assert_eq!(resolve_visual(&Err(x_error()), &vec![visual(4)]).unwrap_err().kind(), ErrorKind::NativeCallFailed);
}

#[test]
fn finish_twice_is_refused_without_side_effects() {
    let display = XConnection::new(1);
    let selection = select_backend(&attrs(GlRequest::Latest), &avail(Some(1), None)).unwrap();
    let mut prototype = ContextPrototype::glx(selection, &display, 5, visual(21), format());
    assert!(prototype.finish(&display, 10).is_ok());
    let before = prototype;
    let second = prototype.finish(&display, 11);
    assert!(matches!(second, Err(CreationError::AlreadyFinished)));
    assert_eq!(prototype.finished, before.finished);
    assert_eq!(prototype.config, before.config);
}

#[test]
fn finish_on_closed_or_foreign_display_is_refused() {
    let mut display = XConnection::new(1);
    let selection = select_backend(&attrs(GlRequest::Latest), &avail(Some(1), None)).unwrap();
    let mut prototype = ContextPrototype::glx(selection, &display, 5, visual(21), format());
    let other = XConnection::new(2);
    assert_eq!(prototype.finish(&other, 10).unwrap_err().kind(), ErrorKind::ConfigurationError);
    display.close();
    assert_eq!(prototype.finish(&display, 10).unwrap_err().kind(), ErrorKind::DisplayClosed);
    assert!(!prototype.finished);
}

#[test]
fn failed_bind_or_colormap_gives_no_window() {
    let display = XConnection::new(1);
    let selection = select_backend(&attrs(GlRequest::Latest), &avail(Some(1), None)).unwrap();
    let mut prototype = ContextPrototype::glx(selection, &display, 5, visual(21), format());
    let request = prototype.finish(&display, 10).unwrap();
    let r = Window::new(request, Err(CreationError::NotSupported), Ok(3));
    assert!(matches!(r, Err(CreationError::NotSupported)));
    let r = Window::new(request, Ok(4), Err(x_error()));
    assert_eq!(r.unwrap_err().kind(), ErrorKind::NativeCallFailed);
}

#[test]
fn teardown_clears_context_before_colormap() {
    let native = NativeContext { handle: 8, api: Api::OpenGl, pixel_format: format() };
    let mut window = Window { display: 1, colormap: Some(77), context: Context::from_native(ContextBackend::Glx, native) };
    let steps = window.teardown();
    let call = NativeCall { backend: ContextBackend::Glx, handle: 8 };
    assert_eq!(steps, vec![TeardownStep::ClearContext(Some(call)), TeardownStep::FreeColormap(77)]);
    assert!(matches!(window.context, Context::Released));
    assert_eq!(window.colormap, None);
    assert_eq!(window.teardown(), vec![TeardownStep::ClearContext(None)]);
}

#[test]
fn released_context_skips_current_and_swap() {
    let native = NativeContext { handle: 8, api: Api::OpenGl, pixel_format: format() };
    let mut window = Window { display: 1, colormap: Some(77), context: Context::from_native(ContextBackend::Egl, native) };
    assert_eq!(window.make_current(), Dispatch::Native(NativeCall { backend: ContextBackend::Egl, handle: 8 }));
    assert_eq!(window.swap_buffers(), Dispatch::Native(NativeCall { backend: ContextBackend::Egl, handle: 8 }));
    window.teardown();
    assert_eq!(window.make_current(), Dispatch::Skip);
    assert_eq!(window.swap_buffers(), Dispatch::Skip);
    assert_eq!(window.get_proc_address(), Dispatch::Skip);
}

#[test]
fn check_errors_reads_and_clears() {
    let mut display = XConnection::new(3);
    assert!(display.check_errors().is_ok());
    display.record_error(x_error());
    let e = display.check_errors().unwrap_err();
    assert_eq!(e.error_code, 8);
    assert!(display.check_errors().is_ok());
    display.record_error(x_error());
    display.ignore_error();
    assert!(display.check_errors().is_ok());
}
