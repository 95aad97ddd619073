use miniquad_egl::attrib::AttributeList;
use miniquad_egl::command::{AttribQuery, ConfigQuery, EglCall, ProcName, Reply, Step, Teardown};
use miniquad_egl::consts;
use miniquad_egl::error::EglError;
use miniquad_egl::headless::{
    create_headless_egl_context, selected_device, HeadlessEglContext, HeadlessPhase, HeadlessSetup, HeadlessStep,
};

fn attrib(value: i32) -> AttribQuery {
    AttribQuery { status: 1, value }
}

fn config(handle: usize, r: i32, g: i32, b: i32, a: i32, d: i32) -> ConfigQuery {
    ConfigQuery { config: handle, red: attrib(r), green: attrib(g), blue: attrib(b), alpha: attrib(a), depth: attrib(d) }
}

/// Answers the attribute queries the setup asks of its current config, one at a
/// time, until it stops asking about that config; the step it ends with and how
/// many queries it asked.
fn answer(s: &mut HeadlessSetup, q: ConfigQuery) -> (HeadlessStep, usize) {
    let index = match s.phase {
        HeadlessPhase::CheckingConfig { search } => search.index,
        _ => panic!("not searching configs"),
    };
    let answers = [q.red, q.green, q.blue, q.alpha, q.depth];
    let names = [
        consts::EGL_RED_SIZE,
        consts::EGL_GREEN_SIZE,
        consts::EGL_BLUE_SIZE,
        consts::EGL_ALPHA_SIZE,
        consts::EGL_DEPTH_SIZE,
    ];
    for k in 0..5 {
        let step = s.step(&Reply::Attrib { config: q.config, status: answers[k].status, value: answers[k].value });
        match step {
            Step::Call(EglCall::QueryConfigAttrib { index: i, attribute, .. }) if i == index => {
                assert_eq!(attribute, names[k + 1]);
            },
            other => return (other, k + 1),
        }
    }
    panic!("more than five queries for one config")
}

fn call(step: HeadlessStep) -> EglCall {
    match step {
        Step::Call(c) => c,
        other => panic!("expected a call, got {:?}", other),
    }
}

fn finish(step: HeadlessStep) -> (Teardown, Result<HeadlessEglContext, EglError>) {
    match step {
        Step::Finish { cleanup, result } => (cleanup, result),
        other => panic!("expected the end, got {:?}", other),
    }
}

/// Drives a setup through the surfaceless platform up to the config query.
fn up_to_config_choice(alpha: bool) -> HeadlessSetup {
    let (mut s, first) = create_headless_egl_context(0, 300, alpha);
    assert_eq!(first, EglCall::LookupProc { name: ProcName::GetPlatformDisplayExt });
    assert_eq!(call(s.step(&Reply::Found(true))), EglCall::LookupProc { name: ProcName::QueryDevicesExt });
    assert_eq!(
        call(s.step(&Reply::Found(false))),
        EglCall::GetPlatformDisplay {
            platform: consts::EGL_PLATFORM_SURFACELESS_MESA,
            device: None,
            display_attributes: None
        }
    );
    assert_eq!(call(s.step(&Reply::Handle(10))), EglCall::Initialize { display: 10 });
    assert_eq!(call(s.step(&Reply::Status(true))), EglCall::BindApi { api: consts::EGL_OPENGL_API });
    assert_eq!(
        call(s.step(&Reply::Status(true))),
        EglCall::ChooseConfig { display: 10, attributes: AttributeList::HeadlessConfig { alpha }, capacity: 32 }
    );
    s
}

#[test]
fn headless_success_through_surfaceless_platform() {
    let mut s = up_to_config_choice(false);
    assert_eq!(call(s.step(&Reply::Chosen { ok: true, count: 2, first: 21 })), EglCall::QueryConfigAttrib { display: 10, index: 0, attribute: consts::EGL_RED_SIZE });
    assert_eq!(call(answer(&mut s, config(21, 8, 8, 8, 0, 24)).0), EglCall::QueryExtensions { display: 10 });
    let ext = Reply::Text(Some("EGL_KHR_create_context EGL_KHR_surfaceless_context".to_string()));
    assert_eq!(
        call(s.step(&ext)),
        EglCall::CreateContext { display: 10, config: 21, attributes: AttributeList::HeadlessContext { khr_create_context: true } }
    );
    assert_eq!(
        call(s.step(&Reply::Handle(30))),
        EglCall::CreatePbufferSurface { display: 10, config: 21, attributes: AttributeList::Pbuffer { width: 1, height: 300 } }
    );
    assert_eq!(call(s.step(&Reply::Handle(40))), EglCall::MakeCurrent { display: 10, draw: 40, read: 40, context: 30 });
    let (cleanup, result) = finish(s.step(&Reply::Status(true)));
    assert_eq!(cleanup, Teardown::none());
    assert_eq!(result, Ok(HeadlessEglContext { display: 10, surface: 40, context: 30 }));
}

#[test]
fn headless_without_platform_display_is_unsupported() {
    let (mut s, _) = create_headless_egl_context(1, 1, false);
    let (cleanup, result) = finish(s.step(&Reply::Found(false)));
    assert_eq!(cleanup.calls(), vec![]);
    assert_eq!(result, Err(EglError::UnsupportedPlatform));
}

#[test]
fn headless_null_surfaceless_display_is_unsupported() {
    let (mut s, _) = create_headless_egl_context(1, 1, false);
    call(s.step(&Reply::Found(true)));
    call(s.step(&Reply::Found(false)));
    let (_, result) = finish(s.step(&Reply::Handle(0)));
    assert_eq!(result, Err(EglError::UnsupportedPlatform));
}

#[test]
fn headless_device_chosen_by_variable() {
    let (mut s, _) = create_headless_egl_context(64, 64, true);
    call(s.step(&Reply::Found(true)));
    assert_eq!(call(s.step(&Reply::Found(true))), EglCall::CountDevices);
    assert_eq!(call(s.step(&Reply::Count { ok: true, count: 2 })), EglCall::ListDevices { capacity: 2 });
    assert_eq!(call(s.step(&Reply::Count { ok: true, count: 2 })), EglCall::ReadDeviceSelection);
    assert_eq!(
        call(s.step(&Reply::Text(Some("1".to_string())))),
        EglCall::GetPlatformDisplay { platform: consts::EGL_PLATFORM_DEVICE_EXT, device: Some(1), display_attributes: None }
    );
    assert_eq!(call(s.step(&Reply::Handle(5))), EglCall::Initialize { display: 5 });
}

#[test]
fn headless_unset_or_bad_variable_picks_device_zero() {
    assert_eq!(selected_device(&None), 0);
    assert_eq!(selected_device(&Some("gpu".to_string())), 0);
    assert_eq!(selected_device(&Some("3".to_string())), 3);
    let (mut s, _) = create_headless_egl_context(64, 64, true);
    call(s.step(&Reply::Found(true)));
    call(s.step(&Reply::Found(true)));
    call(s.step(&Reply::Count { ok: true, count: 1 }));
    call(s.step(&Reply::Count { ok: true, count: 1 }));
    assert_eq!(
        call(s.step(&Reply::Text(None))),
        EglCall::GetPlatformDisplay { platform: consts::EGL_PLATFORM_DEVICE_EXT, device: Some(0), display_attributes: None }
    );
}

#[test]
fn headless_device_out_of_range_is_no_display() {
    let (mut s, _) = create_headless_egl_context(64, 64, true);
    call(s.step(&Reply::Found(true)));
    call(s.step(&Reply::Found(true)));
    call(s.step(&Reply::Count { ok: true, count: 2 }));
    call(s.step(&Reply::Count { ok: true, count: 2 }));
    let (cleanup, result) = finish(s.step(&Reply::Text(Some("2".to_string()))));
    assert_eq!(cleanup, Teardown::none());
    assert_eq!(result, Err(EglError::NoDisplay));
}

#[test]
fn headless_failed_device_listing_is_no_display() {
    let (mut s, _) = create_headless_egl_context(64, 64, true);
    call(s.step(&Reply::Found(true)));
    call(s.step(&Reply::Found(true)));
    call(s.step(&Reply::Count { ok: true, count: 2 }));
    let (_, result) = finish(s.step(&Reply::Count { ok: false, count: 0 }));
    assert_eq!(result, Err(EglError::NoDisplay));
}

#[test]
fn headless_no_devices_falls_back_to_surfaceless() {
    let (mut s, _) = create_headless_egl_context(64, 64, true);
    call(s.step(&Reply::Found(true)));
    call(s.step(&Reply::Found(true)));
    assert_eq!(
        call(s.step(&Reply::Count { ok: true, count: 0 })),
        EglCall::GetPlatformDisplay { platform: consts::EGL_PLATFORM_SURFACELESS_MESA, device: None, display_attributes: None }
    );
}

#[test]
fn headless_initialize_failure_releases_nothing() {
    let (mut s, _) = create_headless_egl_context(64, 64, true);
    call(s.step(&Reply::Found(true)));
    call(s.step(&Reply::Found(false)));
    call(s.step(&Reply::Handle(10)));
    let (cleanup, result) = finish(s.step(&Reply::Status(false)));
    assert_eq!(cleanup.calls(), vec![]);
    assert_eq!(result, Err(EglError::InitializeFailed));
}

#[test]
fn headless_bind_failure_terminates_display() {
    let (mut s, _) = create_headless_egl_context(64, 64, true);
    call(s.step(&Reply::Found(true)));
    call(s.step(&Reply::Found(false)));
    call(s.step(&Reply::Handle(10)));
    call(s.step(&Reply::Status(true)));
    let (cleanup, result) = finish(s.step(&Reply::Status(false)));
    assert_eq!(cleanup.calls(), vec![EglCall::Terminate { display: 10 }]);
    assert_eq!(result, Err(EglError::BindApiFailed));
}

#[test]
fn headless_no_config_terminates_display() {
    let mut s = up_to_config_choice(false);
    let (cleanup, result) = finish(s.step(&Reply::Chosen { ok: true, count: 0, first: 0 }));
    assert_eq!(cleanup.calls(), vec![EglCall::Terminate { display: 10 }]);
    assert_eq!(result, Err(EglError::NoConfig));
    let mut s = up_to_config_choice(false);
    let (_, result) = finish(s.step(&Reply::Chosen { ok: false, count: 3, first: 9 }));
    assert_eq!(result, Err(EglError::NoConfig));
}

#[test]
fn headless_config_choice_is_first_suitable() {
    let mut s = up_to_config_choice(true);
    call(s.step(&Reply::Chosen { ok: true, count: 3, first: 21 }));
    // wrong alpha, then suitable: the second is taken, the third never asked about
    assert_eq!(call(answer(&mut s, config(21, 8, 8, 8, 0, 16)).0), EglCall::QueryConfigAttrib { display: 10, index: 1, attribute: consts::EGL_RED_SIZE });
    assert_eq!(call(answer(&mut s, config(22, 8, 8, 8, 8, 16)).0), EglCall::QueryExtensions { display: 10 });
    assert_eq!(
        call(s.step(&Reply::Text(None))),
        EglCall::CreateContext { display: 10, config: 22, attributes: AttributeList::HeadlessContext { khr_create_context: false } }
    );
}

#[test]
fn headless_config_stops_at_first_failed_query() {
    let mut s = up_to_config_choice(false);
    call(s.step(&Reply::Chosen { ok: true, count: 2, first: 21 }));
    let mut q = config(21, 8, 8, 8, 0, 16);
    q.red.status = 0;
    let (step, asked) = answer(&mut s, q);
    assert_eq!(asked, 1);
    assert_eq!(call(step), EglCall::QueryConfigAttrib { display: 10, index: 1, attribute: consts::EGL_RED_SIZE });
}

#[test]
fn headless_config_failed_query_is_not_suitable() {
    let mut s = up_to_config_choice(false);
    call(s.step(&Reply::Chosen { ok: true, count: 2, first: 21 }));
    let mut q = config(21, 8, 8, 8, 0, 16);
    q.alpha.status = 0;
    // the depth size of a config whose alpha query failed is never asked
    let (step, asked) = answer(&mut s, q);
    assert_eq!(asked, 4);
    assert_eq!(call(step), EglCall::QueryConfigAttrib { display: 10, index: 1, attribute: consts::EGL_RED_SIZE });
    let mut q = config(22, 8, 8, 8, 0, 16);
    q.alpha.status = 2;
    let (step, asked) = answer(&mut s, q);
    assert_eq!(asked, 5);
    assert_eq!(call(step), EglCall::QueryExtensions { display: 10 });
    assert_eq!(
        call(s.step(&Reply::Text(None))),
        EglCall::CreateContext { display: 10, config: 22, attributes: AttributeList::HeadlessContext { khr_create_context: false } }
    );
}

#[test]
fn headless_no_suitable_config_falls_back_to_first() {
    let mut s = up_to_config_choice(false);
    call(s.step(&Reply::Chosen { ok: true, count: 2, first: 21 }));
    call(answer(&mut s, config(21, 5, 6, 5, 0, 16)).0);
    assert_eq!(call(answer(&mut s, config(22, 8, 8, 8, 0, 8)).0), EglCall::QueryExtensions { display: 10 });
    assert_eq!(
        call(s.step(&Reply::Text(Some("EGL_KHR_create_context_no_error".to_string())))),
        EglCall::CreateContext { display: 10, config: 21, attributes: AttributeList::HeadlessContext { khr_create_context: false } }
    );
}

#[test]
fn headless_config_search_stops_at_thirty_two() {
    let mut s = up_to_config_choice(false);
    call(s.step(&Reply::Chosen { ok: true, count: 40, first: 100 }));
    for i in 1..32usize {
        assert_eq!(call(answer(&mut s, config(100 + i, 0, 0, 0, 0, 0)).0), EglCall::QueryConfigAttrib { display: 10, index: i, attribute: consts::EGL_RED_SIZE });
    }
    assert_eq!(call(answer(&mut s, config(131, 0, 0, 0, 0, 0)).0), EglCall::QueryExtensions { display: 10 });
}

fn up_to_context(s: &mut HeadlessSetup) {
    call(s.step(&Reply::Chosen { ok: true, count: 1, first: 21 }));
    call(answer(s, config(21, 8, 8, 8, 0, 16)).0);
    call(s.step(&Reply::Text(None)));
}

#[test]
fn headless_context_failure_terminates_display() {
    let mut s = up_to_config_choice(false);
    up_to_context(&mut s);
    let (cleanup, result) = finish(s.step(&Reply::Handle(0)));
    assert_eq!(cleanup.calls(), vec![EglCall::Terminate { display: 10 }]);
    assert_eq!(result, Err(EglError::CreateContextFailed));
}

#[test]
fn headless_surface_failure_destroys_context_then_terminates() {
    let mut s = up_to_config_choice(false);
    up_to_context(&mut s);
    call(s.step(&Reply::Handle(30)));
    let (cleanup, result) = finish(s.step(&Reply::Handle(0)));
    assert_eq!(
        cleanup.calls(),
        vec![EglCall::DestroyContext { display: 10, context: 30 }, EglCall::Terminate { display: 10 }]
    );
    assert_eq!(result, Err(EglError::CreateSurfaceFailed));
}

#[test]
fn headless_make_current_failure_releases_everything() {
    let mut s = up_to_config_choice(false);
    up_to_context(&mut s);
    call(s.step(&Reply::Handle(30)));
    call(s.step(&Reply::Handle(40)));
    let (cleanup, result) = finish(s.step(&Reply::Status(false)));
    assert_eq!(
        cleanup.calls(),
        vec![
            EglCall::DestroySurface { display: 10, surface: 40 },
            EglCall::DestroyContext { display: 10, context: 30 },
            EglCall::Terminate { display: 10 }
        ]
    );
    assert_eq!(result, Err(EglError::MakeCurrentFailed));
}

#[test]
fn headless_destroy_unbinds_then_releases() {
    let ctx = HeadlessEglContext { display: 1, surface: 2, context: 3 };
    assert_eq!(
        ctx.destroy(),
        vec![
            EglCall::MakeCurrent { display: 1, draw: 0, read: 0, context: 0 },
            EglCall::DestroySurface { display: 1, surface: 2 },
            EglCall::DestroyContext { display: 1, context: 3 },
            EglCall::Terminate { display: 1 }
        ]
    );
}
