use miniquad_egl::event_loop::{
    confirm_quit, is_gles3_version, main_loop, missing_function_message, not_gles3_message, process_request,
    quit_requested, required_gl_functions, GlCheck, GlFunction, LoopCall, LoopReply, LoopStep, MainLoop, PbufferSize, QuitCheck,
    QuitFlags, RequestKind, RequestPlan, SizeError, WaitOutcome, WAIT_MS,
};

#[test]
fn quit_checks() {
    assert_eq!(quit_requested(QuitFlags { quit_requested: false, quit_ordered: false }), QuitCheck::Continue);
    assert_eq!(quit_requested(QuitFlags { quit_requested: true, quit_ordered: false }), QuitCheck::AskHandler);
    assert_eq!(quit_requested(QuitFlags { quit_requested: true, quit_ordered: true }), QuitCheck::Quit);
    assert_eq!(quit_requested(QuitFlags { quit_requested: false, quit_ordered: true }), QuitCheck::Quit);
}

#[test]
fn quit_confirmed_unless_withdrawn() {
    let mut f = QuitFlags { quit_requested: true, quit_ordered: false };
    assert!(confirm_quit(&mut f));
    assert!(f.quit_ordered);
    assert_eq!(quit_requested(f), QuitCheck::Quit);
    let mut f = QuitFlags { quit_requested: false, quit_ordered: false };
    assert!(!confirm_quit(&mut f));
    assert!(!f.quit_ordered);
    let mut f = QuitFlags { quit_requested: false, quit_ordered: true };
    assert!(confirm_quit(&mut f));
}

#[test]
fn request_plans() {
    assert_eq!(process_request(RequestKind::ScheduleUpdate, 1, 1), Ok(RequestPlan { resize: None, update: true }));
    assert_eq!(process_request(RequestKind::Other, 1, 1), Ok(RequestPlan { resize: None, update: false }));
    assert_eq!(
        process_request(RequestKind::SetWindowSize { new_width: 800, new_height: 0 }, 640, 480),
        Ok(RequestPlan { resize: Some(PbufferSize { width: 800, height: 1 }), update: true })
    );
    assert_eq!(
        process_request(RequestKind::SetWindowSize { new_width: 640, new_height: 480 }, 640, 480),
        Ok(RequestPlan { resize: None, update: true })
    );
    assert_eq!(
        process_request(RequestKind::SetWindowSize { new_width: 0x8000_0000, new_height: 0x8000_0000 }, 1, 1),
        Err(SizeError::WidthTooLarge)
    );
    assert_eq!(
        process_request(RequestKind::SetWindowSize { new_width: 0x7fff_ffff, new_height: u32::MAX }, 1, 1),
        Err(SizeError::HeightTooLarge)
    );
    assert_eq!(SizeError::WidthTooLarge.message(), "pbuffer width exceeds i32::MAX");
    assert_eq!(SizeError::HeightTooLarge.message(), "pbuffer height exceeds i32::MAX");
}

fn call(step: LoopStep) -> LoopCall {
    match step {
        LoopStep::Call(c) => c,
        other => panic!("expected a call, got {:?}", other),
    }
}

#[test]
fn loop_runs_frames_when_not_blocking() {
    let (mut m, first) = main_loop(false);
    assert_eq!(first, LoopCall::CheckQuit);
    for _ in 0..3 {
        assert_eq!(call(m.step(LoopReply::Quit(false))), LoopCall::TryReceive);
        assert_eq!(call(m.step(LoopReply::Received(false))), LoopCall::CheckQuit);
        assert_eq!(call(m.step(LoopReply::Quit(false))), LoopCall::Update);
        assert_eq!(call(m.step(LoopReply::Done)), LoopCall::CheckQuit);
        assert_eq!(call(m.step(LoopReply::Quit(false))), LoopCall::DrawAndFlush);
        assert_eq!(call(m.step(LoopReply::Done)), LoopCall::CheckQuit);
    }
    assert_eq!(m.step(LoopReply::Quit(true)), LoopStep::Finish { ok: true });
}

#[test]
fn blocking_loop_waits_once_frame_is_drawn() {
    let (mut m, _) = main_loop(true);
    call(m.step(LoopReply::Quit(false)));
    call(m.step(LoopReply::Received(false)));
    assert_eq!(call(m.step(LoopReply::Quit(false))), LoopCall::Update);
    assert!(!m.update);
    call(m.step(LoopReply::Done));
    call(m.step(LoopReply::Quit(false)));
    call(m.step(LoopReply::Done));
    call(m.step(LoopReply::Quit(false)));
    call(m.step(LoopReply::Received(false)));
    assert_eq!(call(m.step(LoopReply::Quit(false))), LoopCall::WaitRequest { timeout_ms: WAIT_MS });
    assert_eq!(call(m.step(LoopReply::Waited(WaitOutcome::Timeout))), LoopCall::CheckQuit);
    call(m.step(LoopReply::Quit(false)));
    call(m.step(LoopReply::Received(false)));
    call(m.step(LoopReply::Quit(false)));
    assert_eq!(call(m.step(LoopReply::Waited(WaitOutcome::Request))), LoopCall::ProcessRequest);
    assert_eq!(call(m.step(LoopReply::Processed { ok: true, update: true })), LoopCall::CheckQuit);
    call(m.step(LoopReply::Quit(false)));
    call(m.step(LoopReply::Received(false)));
    assert_eq!(call(m.step(LoopReply::Quit(false))), LoopCall::Update);
}

#[test]
fn loop_drains_requests_and_stops_on_failure() {
    let (mut m, _) = main_loop(true);
    call(m.step(LoopReply::Quit(false)));
    assert_eq!(call(m.step(LoopReply::Received(true))), LoopCall::ProcessRequest);
    assert_eq!(call(m.step(LoopReply::Processed { ok: true, update: false })), LoopCall::TryReceive);
    assert_eq!(call(m.step(LoopReply::Received(true))), LoopCall::ProcessRequest);
    assert_eq!(m.step(LoopReply::Processed { ok: false, update: false }), LoopStep::Finish { ok: false });
}

#[test]
fn loop_ends_on_disconnect_and_quit() {
    let mut m = MainLoop { blocking: true, update: false, phase: miniquad_egl::event_loop::LoopPhase::MidCheck };
    assert_eq!(call(m.step(LoopReply::Quit(false))), LoopCall::WaitRequest { timeout_ms: 16 });
    assert_eq!(m.step(LoopReply::Waited(WaitOutcome::Disconnected)), LoopStep::Finish { ok: true });
    let (mut m, _) = main_loop(false);
    call(m.step(LoopReply::Quit(false)));
    call(m.step(LoopReply::Received(false)));
    call(m.step(LoopReply::Quit(false)));
    call(m.step(LoopReply::Done));
    assert_eq!(m.step(LoopReply::Quit(true)), LoopStep::Finish { ok: true });
}

#[test]
fn gles3_version_prefix() {
    assert!(is_gles3_version(b"OpenGL ES 3.0.0 (ANGLE 2.1.0)"));
    assert!(is_gles3_version(b"OpenGL ES 3"));
    assert!(!is_gles3_version(b"OpenGL ES 2.0 (ANGLE)"));
    assert!(!is_gles3_version(b"OpenGL ES"));
    assert!(!is_gles3_version(b""));
    assert_eq!(not_gles3_message(), "ANGLE did not create a current OpenGL ES 3 context");
}

#[test]
fn required_functions() {
    let names: Vec<&str> = required_gl_functions().iter().map(|f| f.name()).collect();
    assert_eq!(names, vec!["glGetString", "glGenVertexArrays", "glDrawElementsInstanced", "glReadPixels", "glFlush"]);
    assert_eq!(
        missing_function_message(GlFunction::ReadPixels),
        "ANGLE is missing required GLES 3 function glReadPixels"
    );
}

/// Runs the check against lookup results, one per requested entry point; the
/// functions it asked for and its outcome.
fn run_check(found: &[bool]) -> (Vec<GlFunction>, GlCheck) {
    let mut asked = Vec::new();
    let mut check = GlCheck::start();
    let mut results = found.iter();
    while let GlCheck::Look { function, .. } = check {
        asked.push(function);
        check = check.next(*results.next().expect("asked for more lookups than given"));
    }
    (asked, check)
}

#[test]
fn gl_check_all_found() {
    let (asked, outcome) = run_check(&[true, true, true, true, true]);
    assert_eq!(
        asked,
        vec![
            GlFunction::GetString,
            GlFunction::GenVertexArrays,
            GlFunction::DrawElementsInstanced,
            GlFunction::ReadPixels,
            GlFunction::Flush
        ]
    );
    assert_eq!(outcome, GlCheck::AllFound);
}

#[test]
fn gl_check_stops_at_first_missing() {
    let (asked, outcome) = run_check(&[true, true, false, false, true]);
    assert_eq!(asked, vec![GlFunction::GetString, GlFunction::GenVertexArrays, GlFunction::DrawElementsInstanced]);
    assert_eq!(outcome, GlCheck::Missing(GlFunction::DrawElementsInstanced));
}

#[test]
fn gl_check_first_and_last_missing() {
    assert_eq!(run_check(&[false]), (vec![GlFunction::GetString], GlCheck::Missing(GlFunction::GetString)));
    let (asked, outcome) = run_check(&[true, true, true, true, false]);
    assert_eq!(asked.len(), 5);
    assert_eq!(outcome, GlCheck::Missing(GlFunction::Flush));
}

#[test]
fn gl_check_outcomes_stay() {
    assert_eq!(GlCheck::AllFound.next(false), GlCheck::AllFound);
    assert_eq!(GlCheck::Missing(GlFunction::Flush).next(true), GlCheck::Missing(GlFunction::Flush));
}
