use miniquad_egl::angle::{
    create_angle_context, fallback_warning, AngleContext, AngleError, AngleOperation, AngleSettings,
    AngleSetup, InitError, RequiredExtension, SetupStep, WindowsEgl,
};
use miniquad_egl::attrib::AttributeList;
use miniquad_egl::command::{EglCall, ProcName, Reply, Step, Teardown};
use miniquad_egl::consts;

const EXTENSIONS: &str = "EGL_EXT_platform_base EGL_ANGLE_platform_angle EGL_ANGLE_platform_angle_d3d";

fn settings(mode: WindowsEgl) -> AngleSettings {
    AngleSettings { windows_egl: mode, sample_count: 4, framebuffer_alpha: false, window_width: 800, window_height: 0 }
}

fn call(step: SetupStep) -> EglCall {
    match step {
        Step::Call(c) => c,
        other => panic!("expected a call, got {:?}", other),
    }
}

fn finish(step: SetupStep) -> (Teardown, Result<AngleContext, AngleError>) {
    match step {
        Step::Finish { cleanup, result } => (cleanup, result),
        other => panic!("expected the end, got {:?}", other),
    }
}

fn display_call(device: i32) -> EglCall {
    EglCall::GetPlatformDisplay {
        platform: consts::EGL_PLATFORM_ANGLE_ANGLE,
        device: None,
        display_attributes: Some(AttributeList::AngleDisplay { device }),
    }
}

fn up_to_attempt(mode: WindowsEgl) -> AngleSetup {
    let (mut s, first) = create_angle_context(settings(mode));
    assert_eq!(first, EglCall::QueryExtensions { display: 0 });
    assert_eq!(
        call(s.step(&Reply::Text(Some(EXTENSIONS.to_string())))),
        EglCall::LookupProc { name: ProcName::GetPlatformDisplayExt }
    );
    s
}

/// Runs one attempt up to a current context (display 10, config 20, context 30,
/// surface 40).
fn succeed_attempt(s: &mut AngleSetup) -> (Teardown, Result<AngleContext, AngleError>) {
    assert_eq!(call(s.step(&Reply::Handle(10))), EglCall::Initialize { display: 10 });
    assert_eq!(call(s.step(&Reply::Status(true))), EglCall::BindApi { api: consts::EGL_OPENGL_ES_API });
    assert_eq!(
        call(s.step(&Reply::Status(true))),
        EglCall::ChooseConfig { display: 10, attributes: AttributeList::AngleConfig { alpha: false, samples: 4 }, capacity: 1 }
    );
    assert_eq!(
        call(s.step(&Reply::Chosen { ok: true, count: 1, first: 20 })),
        EglCall::CreateContext { display: 10, config: 20, attributes: AttributeList::AngleContext }
    );
    assert_eq!(
        call(s.step(&Reply::Handle(30))),
        EglCall::CreatePbufferSurface { display: 10, config: 20, attributes: AttributeList::Pbuffer { width: 800, height: 1 } }
    );
    assert_eq!(call(s.step(&Reply::Handle(40))), EglCall::MakeCurrent { display: 10, draw: 40, read: 40, context: 30 });
    finish(s.step(&Reply::Status(true)))
}

#[test]
fn angle_hardware_success() {
    let mut s = up_to_attempt(WindowsEgl::D3D11);
    assert_eq!(call(s.step(&Reply::Found(true))), display_call(consts::EGL_PLATFORM_ANGLE_DEVICE_TYPE_HARDWARE_ANGLE));
    let (cleanup, result) = succeed_attempt(&mut s);
    assert_eq!(cleanup, Teardown::none());
    assert_eq!(result, Ok(AngleContext { display: 10, config: 20, context: 30, surface: 40 }));
}

#[test]
fn angle_warp_mode_asks_for_warp() {
    let mut s = up_to_attempt(WindowsEgl::D3D11Warp);
    assert_eq!(call(s.step(&Reply::Found(true))), display_call(consts::EGL_PLATFORM_ANGLE_DEVICE_TYPE_D3D_WARP_ANGLE));
}

#[test]
fn angle_fallback_releases_reports_and_tries_warp() {
    let mut s = up_to_attempt(WindowsEgl::D3D11WithWarpFallback);
    call(s.step(&Reply::Found(true)));
    assert_eq!(call(s.step(&Reply::Handle(10))), EglCall::Initialize { display: 10 });
    assert_eq!(call(s.step(&Reply::Status(false))), EglCall::GetError);
    let hardware = InitError::Egl { operation: AngleOperation::Initialize, code: 0x3001 };
    match s.step(&Reply::Code(0x3001)) {
        Step::Release(t) => assert_eq!(
            t.calls(),
            vec![EglCall::MakeCurrent { display: 10, draw: 0, read: 0, context: 0 }, EglCall::Terminate { display: 10 }]
        ),
        other => panic!("expected a release, got {:?}", other),
    }
    match s.step(&Reply::Done) {
        Step::Warn(e) => {
            assert_eq!(e, AngleError::Init(hardware));
            assert_eq!(
                fallback_warning(&hardware),
                "ANGLE D3D11 hardware initialization failed: eglInitialize failed (EGL error 0x3001). Trying WARP"
            );
        },
        other => panic!("expected a warning, got {:?}", other),
    }
    assert_eq!(call(s.step(&Reply::Done)), display_call(consts::EGL_PLATFORM_ANGLE_DEVICE_TYPE_D3D_WARP_ANGLE));
    let (_, result) = succeed_attempt(&mut s);
    assert_eq!(result, Ok(AngleContext { display: 10, config: 20, context: 30, surface: 40 }));
}

#[test]
fn angle_fallback_both_failing() {
    let mut s = up_to_attempt(WindowsEgl::D3D11WithWarpFallback);
    call(s.step(&Reply::Found(true)));
    assert_eq!(call(s.step(&Reply::Handle(0))), EglCall::GetError);
    match s.step(&Reply::Code(0x3008)) {
        Step::Release(t) => assert_eq!(t.calls(), vec![]),
        other => panic!("expected a release, got {:?}", other),
    }
    match s.step(&Reply::Done) {
        Step::Warn(_) => {},
        other => panic!("expected a warning, got {:?}", other),
    }
    call(s.step(&Reply::Done));
    call(s.step(&Reply::Handle(11)));
    call(s.step(&Reply::Status(true)));
    call(s.step(&Reply::Status(true)));
    let (cleanup, result) = finish(s.step(&Reply::Chosen { ok: true, count: 0, first: 0 }));
    assert_eq!(
        cleanup.calls(),
        vec![EglCall::MakeCurrent { display: 11, draw: 0, read: 0, context: 0 }, EglCall::Terminate { display: 11 }]
    );
    let e = result.unwrap_err();
    assert_eq!(
        e,
        AngleError::Fallback {
            hardware: InitError::Egl { operation: AngleOperation::GetPlatformDisplay, code: 0x3008 },
            warp: InitError::NoConfig { sample_count: 4 }
        }
    );
    assert_eq!(
        e.message(),
        "D3D11: eglGetPlatformDisplayEXT failed (EGL error 0x3008); WARP: ANGLE has no GLES 3 pbuffer config for sample_count=4"
    );
}

#[test]
fn angle_missing_extension() {
    let (mut s, _) = create_angle_context(settings(WindowsEgl::D3D11));
    let (cleanup, result) = finish(s.step(&Reply::Text(Some("EGL_EXT_platform_base EGL_ANGLE_platform_angle".to_string()))));
    assert_eq!(cleanup, Teardown::none());
    let e = result.unwrap_err();
    assert_eq!(e, AngleError::MissingExtension(RequiredExtension::PlatformAngleD3d));
    assert_eq!(e.message(), "ANGLE is missing EGL_ANGLE_platform_angle_d3d; a D3D11-enabled ANGLE build is required");
    let (mut s, _) = create_angle_context(settings(WindowsEgl::D3D11));
    let (_, result) = finish(s.step(&Reply::Text(Some(String::new()))));
    assert_eq!(result, Err(AngleError::MissingExtension(RequiredExtension::PlatformBase)));
}

#[test]
fn angle_client_extensions_query_failure() {
    let (mut s, _) = create_angle_context(settings(WindowsEgl::D3D11));
    assert_eq!(call(s.step(&Reply::Text(None))), EglCall::GetError);
    let (_, result) = finish(s.step(&Reply::Code(0x3000)));
    let e = result.unwrap_err();
    assert_eq!(e.message(), "query ANGLE client extensions failed (EGL error 0x3000)");
}

#[test]
fn angle_missing_platform_display() {
    let mut s = up_to_attempt(WindowsEgl::D3D11);
    let (_, result) = finish(s.step(&Reply::Found(false)));
    let e = result.unwrap_err();
    assert_eq!(e, AngleError::MissingPlatformDisplay);
    assert_eq!(e.message(), "ANGLE is missing eglGetPlatformDisplayEXT");
}

#[test]
fn angle_hardware_failure_without_fallback_releases_context() {
    let mut s = up_to_attempt(WindowsEgl::D3D11);
    call(s.step(&Reply::Found(true)));
    call(s.step(&Reply::Handle(10)));
    call(s.step(&Reply::Status(true)));
    call(s.step(&Reply::Status(true)));
    call(s.step(&Reply::Chosen { ok: true, count: 1, first: 20 }));
    call(s.step(&Reply::Handle(30)));
    assert_eq!(call(s.step(&Reply::Handle(0))), EglCall::GetError);
    let (cleanup, result) = finish(s.step(&Reply::Code(0x3009)));
    assert_eq!(
        cleanup.calls(),
        vec![
            EglCall::MakeCurrent { display: 10, draw: 0, read: 0, context: 0 },
            EglCall::DestroyContext { display: 10, context: 30 },
            EglCall::Terminate { display: 10 }
        ]
    );
    let e = result.unwrap_err();
    assert_eq!(e.message(), "eglCreatePbufferSurface failed (EGL error 0x3009)");
}

#[test]
fn angle_choose_config_failure_message() {
    let mut s = up_to_attempt(WindowsEgl::D3D11Warp);
    call(s.step(&Reply::Found(true)));
    call(s.step(&Reply::Handle(10)));
    call(s.step(&Reply::Status(true)));
    call(s.step(&Reply::Status(true)));
    assert_eq!(call(s.step(&Reply::Chosen { ok: false, count: 0, first: 0 })), EglCall::GetError);
    let (_, result) = finish(s.step(&Reply::Code(0x3005)));
    assert_eq!(result.unwrap_err().message(), "eglChooseConfig failed (EGL error 0x3005)");
}

#[test]
fn angle_no_config_message() {
    let e = InitError::NoConfig { sample_count: -2 };
    assert_eq!(e.message(), "ANGLE has no GLES 3 pbuffer config for sample_count=-2");
    let e = InitError::Egl { operation: AngleOperation::BindApi, code: 0x300c };
    assert_eq!(e.message(), "eglBindAPI(OpenGL ES) failed (EGL error 0x300c)");
    let e = InitError::Egl { operation: AngleOperation::CreateContext, code: 1 };
    assert_eq!(e.message(), "eglCreateContext(OpenGL ES 3) failed (EGL error 0x0001)");
}

#[test]
fn angle_release_then_release_again() {
    let mut c = AngleContext { display: 1, config: 2, context: 3, surface: 4 };
    assert_eq!(
        c.release().calls(),
        vec![
            EglCall::MakeCurrent { display: 1, draw: 0, read: 0, context: 0 },
            EglCall::DestroySurface { display: 1, surface: 4 },
            EglCall::DestroyContext { display: 1, context: 3 },
            EglCall::Terminate { display: 1 }
        ]
    );
    assert_eq!(c, AngleContext::empty());
    assert_eq!(c.release().calls(), vec![]);
    let mut c = AngleContext { display: 0, config: 2, context: 3, surface: 4 };
    assert_eq!(c.release().calls(), vec![]);
}

#[test]
fn angle_resize_replaces_surface() {
    let c = AngleContext { display: 1, config: 2, context: 3, surface: 4 };
    let (mut rz, first) = c.resize(1024, 768);
    assert_eq!(
        first,
        EglCall::CreatePbufferSurface { display: 1, config: 2, attributes: AttributeList::Pbuffer { width: 1024, height: 768 } }
    );
    match rz.step(&Reply::Handle(5)) {
        Step::Call(call) => assert_eq!(call, EglCall::MakeCurrent { display: 1, draw: 5, read: 5, context: 3 }),
        other => panic!("{:?}", other),
    }
    match rz.step(&Reply::Status(true)) {
        Step::Call(call) => assert_eq!(call, EglCall::DestroySurface { display: 1, surface: 4 }),
        other => panic!("{:?}", other),
    }
    match rz.step(&Reply::Done) {
        Step::Finish { result, .. } => assert_eq!(result, Ok(AngleContext { surface: 5, ..c })),
        other => panic!("{:?}", other),
    }
}

#[test]
fn angle_resize_failure_keeps_old_surface() {
    let c = AngleContext { display: 1, config: 2, context: 3, surface: 4 };
    let (mut rz, _) = c.resize(10, 10);
    rz.step(&Reply::Handle(5));
    match rz.step(&Reply::Status(false)) {
        Step::Call(call) => assert_eq!(call, EglCall::GetError),
        other => panic!("{:?}", other),
    }
    match rz.step(&Reply::Code(0x3002)) {
        Step::Call(call) => assert_eq!(call, EglCall::DestroySurface { display: 1, surface: 5 }),
        other => panic!("{:?}", other),
    }
    match rz.step(&Reply::Done) {
        Step::Finish { result, .. } => {
            let e = result.unwrap_err();
            assert_eq!(e, InitError::Egl { operation: AngleOperation::MakeCurrent, code: 0x3002 });
            assert_eq!(e.message(), "eglMakeCurrent failed (EGL error 0x3002)");
        },
        other => panic!("{:?}", other),
    }
    assert_eq!(rz.context, c);
}

#[test]
fn angle_resize_without_old_surface() {
    let c = AngleContext { display: 1, config: 2, context: 3, surface: 0 };
    let (mut rz, _) = c.resize(10, 10);
    rz.step(&Reply::Handle(5));
    match rz.step(&Reply::Status(true)) {
        Step::Finish { result, .. } => assert_eq!(result, Ok(AngleContext { surface: 5, ..c })),
        other => panic!("{:?}", other),
    }
}
