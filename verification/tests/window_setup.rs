use miniquad_egl::attrib::AttributeList;
use miniquad_egl::command::{AttribQuery, ConfigQuery, EglCall, Reply, Step, Teardown};
use miniquad_egl::consts;
use miniquad_egl::error::EglError;
use miniquad_egl::window::{create_egl_context, WindowEglContext, WindowPhase, WindowSetup, WindowStep};

fn config(handle: usize, r: i32, a: i32, d: i32) -> ConfigQuery {
    let ok = |value| AttribQuery { status: 1, value };
    ConfigQuery { config: handle, red: ok(r), green: ok(8), blue: ok(8), alpha: ok(a), depth: ok(d) }
}

/// Answers the attribute queries the setup asks of its current config, one at a
/// time, until it stops asking about that config; the step it ends with and how
/// many queries it asked.
fn answer(s: &mut WindowSetup, q: ConfigQuery) -> (WindowStep, usize) {
    let index = match s.phase {
        WindowPhase::CheckingConfig { search } => search.index,
        _ => panic!("not searching configs"),
    };
    let answers = [q.red, q.green, q.blue, q.alpha, q.depth];
    let names = [
        consts::EGL_RED_SIZE,
        consts::EGL_GREEN_SIZE,
        consts::EGL_BLUE_SIZE,
        consts::EGL_ALPHA_SIZE,
        consts::EGL_DEPTH_SIZE,
    ];
    for k in 0..5 {
        let step = s.step(&Reply::Attrib { config: q.config, status: answers[k].status, value: answers[k].value });
        match step {
            Step::Call(EglCall::QueryConfigAttrib { index: i, attribute, .. }) if i == index => {
                assert_eq!(attribute, names[k + 1]);
            },
            other => return (other, k + 1),
        }
    }
    panic!("more than five queries for one config")
}

fn call(step: WindowStep) -> EglCall {
    match step {
        Step::Call(c) => c,
        other => panic!("expected a call, got {:?}", other),
    }
}

fn finish(step: WindowStep) -> (Teardown, Result<WindowEglContext, EglError>) {
    match step {
        Step::Finish { cleanup, result } => (cleanup, result),
        other => panic!("expected the end, got {:?}", other),
    }
}

fn up_to_configs(alpha: bool, count: i32) -> WindowSetup {
    let (mut s, first) = create_egl_context(alpha, 4);
    assert_eq!(first, EglCall::GetDisplay);
    assert_eq!(call(s.step(&Reply::Handle(7))), EglCall::Initialize { display: 7 });
    assert_eq!(
        call(s.step(&Reply::Status(true))),
        EglCall::ChooseConfig { display: 7, attributes: AttributeList::WindowConfig { alpha, sample_count: 4 }, capacity: 32 }
    );
    let chosen = Reply::Chosen { ok: true, count, first: 50 };
    assert!(s.accepts(&chosen));
    assert_eq!(call(s.step(&chosen)), EglCall::QueryConfigAttrib { display: 7, index: 0, attribute: consts::EGL_RED_SIZE });
    s
}

#[test]
fn window_success_takes_exact_config() {
    let mut s = up_to_configs(true, 3);
    assert_eq!(call(answer(&mut s, config(50, 8, 8, 24)).0), EglCall::QueryConfigAttrib { display: 7, index: 1, attribute: consts::EGL_RED_SIZE });
    assert_eq!(
        call(answer(&mut s, config(51, 8, 8, 16)).0),
        EglCall::CreateContext { display: 7, config: 51, attributes: AttributeList::WindowContext }
    );
    let (cleanup, result) = finish(s.step(&Reply::Handle(9)));
    assert_eq!(cleanup, Teardown::none());
    assert_eq!(result, Ok(WindowEglContext { context: 9, config: 51, display: 7 }));
}

#[test]
fn window_without_exact_config_takes_first() {
    let mut s = up_to_configs(false, 2);
    call(answer(&mut s, config(50, 5, 0, 16)).0);
    assert_eq!(
        call(answer(&mut s, config(51, 8, 0, 24)).0),
        EglCall::CreateContext { display: 7, config: 50, attributes: AttributeList::WindowContext }
    );
}

#[test]
fn window_exact_needs_true_status() {
    let mut s = up_to_configs(false, 1);
    let mut q = config(50, 8, 0, 16);
    q.depth.status = 2;
    assert_eq!(
        call(answer(&mut s, q).0),
        EglCall::CreateContext { display: 7, config: 50, attributes: AttributeList::WindowContext }
    );
}

#[test]
fn window_stops_asking_at_first_query_not_true() {
    let mut s = up_to_configs(false, 2);
    let mut q = config(50, 8, 0, 16);
    q.green.status = 2;
    let (step, asked) = answer(&mut s, q);
    assert_eq!(asked, 2);
    assert_eq!(call(step), EglCall::QueryConfigAttrib { display: 7, index: 1, attribute: consts::EGL_RED_SIZE });
    let (step, asked) = answer(&mut s, config(51, 8, 0, 16));
    assert_eq!(asked, 5);
    assert_eq!(call(step), EglCall::CreateContext { display: 7, config: 51, attributes: AttributeList::WindowContext });
}

#[test]
fn window_config_count_must_be_one_to_thirty_two() {
    let (mut s, _) = create_egl_context(false, 1);
    call(s.step(&Reply::Handle(7)));
    call(s.step(&Reply::Status(true)));
    assert!(!s.accepts(&Reply::Chosen { ok: true, count: 0, first: 0 }));
    assert!(!s.accepts(&Reply::Chosen { ok: true, count: 33, first: 0 }));
    assert!(s.accepts(&Reply::Chosen { ok: false, count: 32, first: 0 }));
}

#[test]
fn window_failures_release_nothing() {
    let (mut s, _) = create_egl_context(false, 1);
    let (cleanup, result) = finish(s.step(&Reply::Handle(0)));
    assert_eq!(cleanup, Teardown::none());
    assert_eq!(result, Err(EglError::NoDisplay));

    let (mut s, _) = create_egl_context(false, 1);
    call(s.step(&Reply::Handle(7)));
    let (cleanup, result) = finish(s.step(&Reply::Status(false)));
    assert_eq!(cleanup, Teardown::none());
    assert_eq!(result, Err(EglError::InitializeFailed));

    let mut s = up_to_configs(false, 1);
    call(answer(&mut s, config(50, 8, 0, 16)).0);
    let (cleanup, result) = finish(s.step(&Reply::Handle(0)));
    assert_eq!(cleanup, Teardown::none());
    assert_eq!(result, Err(EglError::CreateContextFailed));
}
