use vstd::prelude::*;
use crate::attrib::{AttributeList, at_least_one, clamp_to_one, alpha_bits};
use crate::command::{
    ConfigQuery, EglCall, ProcName, Reply, Step, Teardown, no_teardown, reply_found, reply_handle,
    reply_status,
};
use crate::config::{
    ConfigRule, ConfigSearch, SearchStep, attrib_call, first_passing, lemma_search_chooses_first_passing,
    lemma_search_progress, no_values, search_replies, search_result, search_test,
};
use crate::consts;
use crate::error::EglError;
use crate::text::{extension_listed, lists_word, parse_unsigned, parse_usize};

verus! {

/// A current, headless desktop OpenGL context on a pbuffer surface.
#[derive(Clone, Copy, Debug, PartialEq, Eq, Structural)]
pub struct HeadlessEglContext {
    pub display: usize,
    pub surface: usize,
    pub context: usize,
}

impl HeadlessEglContext {
    /// The calls that destroy the context: unbind it, destroy the surface and the
    /// context, and terminate the display.
    pub open spec fn destroy_calls(self) -> Seq<EglCall> {
        seq![
            EglCall::MakeCurrent { display: self.display, draw: 0, read: 0, context: 0 },
            EglCall::DestroySurface { display: self.display, surface: self.surface },
            EglCall::DestroyContext { display: self.display, context: self.context },
            EglCall::Terminate { display: self.display },
        ]
    }

    /// Destroys the context: the calls to make, in order.
    pub fn destroy(self) -> (calls: Vec<EglCall>)
        ensures
            calls@ == self.destroy_calls(),
    {
        let t = Teardown {
            display: self.display,
            unbind: true,
            surface: Some(self.surface),
            context: Some(self.context),
            terminate: true,
        };
        let v = t.calls();
        assert(v@ =~= self.destroy_calls());
        v
    }
}

/// The device index chosen by the `PHI_RENDERER_EGL_DEVICE` variable: its value
/// when it reads as a `usize`, 0 otherwise.
pub open spec fn device_choice(var: Option<String>) -> usize {
    match var {
        Some(s) => match parse_unsigned(s@) {
            Some(v) => v,
            None => 0,
        },
        None => 0,
    }
}

/// The device index chosen by the `PHI_RENDERER_EGL_DEVICE` variable.
pub fn selected_device(var: &Option<String>) -> (index: usize)
    ensures
        index == device_choice(*var),
{
    match var {
        Some(s) => match parse_usize(s.as_str()) {
            Some(v) => v,
            None => 0,
        },
        None => 0,
    }
}

/// The extension that offers OpenGL 3.1 contexts.
pub open spec fn khr_create_context_name() -> Seq<char> {
    "EGL_KHR_create_context"@
}

/// Whether a reply to `QueryExtensions` lists `EGL_KHR_create_context`.
pub open spec fn reply_lists_khr(r: Reply) -> bool {
    match r {
        Reply::Text(Some(s)) => lists_word(s@, khr_create_context_name()),
        _ => false,
    }
}

/// Where the headless setup stands: which call it waits on, and what it holds.
#[derive(Clone, Copy, Debug, PartialEq, Eq, Structural)]
pub enum HeadlessPhase {
    PlatformProc,
    DevicesProc,
    DeviceCount,
    DeviceList { device_count: i32 },
    DeviceSelection { device_count: i32 },
    DeviceDisplay,
    SurfacelessDisplay,
    Initializing { display: usize },
    BindingApi { display: usize },
    ChoosingConfig { display: usize },
    CheckingConfig { search: ConfigSearch },
    QueryingExtensions { display: usize, config: usize },
    CreatingContext { display: usize, config: usize },
    CreatingSurface { display: usize, config: usize, context: usize },
    MakingCurrent { display: usize, context: usize, surface: usize },
    Finished,
}

pub type HeadlessStep = Step<HeadlessEglContext, EglError>;

/// Creates a headless desktop OpenGL context: picks an EGL display (a device of
/// `eglQueryDevicesEXT`, else Mesa's surfaceless platform), initializes it, binds
/// the desktop OpenGL API, picks a pbuffer config, creates the context and a
/// `width` x `height` pbuffer, and makes them current.
#[derive(Clone, Copy, Debug, PartialEq, Eq, Structural)]
pub struct HeadlessSetup {
    pub width: i32,
    pub height: i32,
    pub alpha: bool,
    pub phase: HeadlessPhase,
}

/// Ends the setup with `error`, making the release calls `cleanup` first.
pub open spec fn fail(s: HeadlessSetup, cleanup: Teardown, error: EglError) -> (HeadlessSetup, HeadlessStep) {
    (HeadlessSetup { phase: HeadlessPhase::Finished, ..s }, Step::Finish { cleanup, result: Err(error) })
}

/// Moves to `phase` and asks for `call`.
pub open spec fn ask(s: HeadlessSetup, phase: HeadlessPhase, call: EglCall) -> (HeadlessSetup, HeadlessStep) {
    (HeadlessSetup { phase, ..s }, Step::Call(call))
}

/// Only `eglTerminate(display)`.
pub open spec fn terminate_only(display: usize) -> Teardown {
    Teardown { display, unbind: false, surface: None, context: None, terminate: true }
}

pub open spec fn surfaceless_display_call() -> EglCall {
    EglCall::GetPlatformDisplay {
        platform: consts::EGL_PLATFORM_SURFACELESS_MESA,
        device: None,
        display_attributes: None,
    }
}

impl HeadlessSetup {
    /// The setup's next state and request, given the reply to its last call.
    pub open spec fn next(self, r: Reply) -> (HeadlessSetup, HeadlessStep) {
        let s = self;
        match self.phase {
            HeadlessPhase::PlatformProc => if reply_found(r) {
                ask(s, HeadlessPhase::DevicesProc, EglCall::LookupProc { name: ProcName::QueryDevicesExt })
            } else {
                fail(s, no_teardown(), EglError::UnsupportedPlatform)
            },
            HeadlessPhase::DevicesProc => if reply_found(r) {
                ask(s, HeadlessPhase::DeviceCount, EglCall::CountDevices)
            } else {
                ask(s, HeadlessPhase::SurfacelessDisplay, surfaceless_display_call())
            },
            HeadlessPhase::DeviceCount => match r {
                Reply::Count { ok, count } => if ok && count > 0 {
                    ask(s, HeadlessPhase::DeviceList { device_count: count }, EglCall::ListDevices { capacity: count })
                } else {
                    ask(s, HeadlessPhase::SurfacelessDisplay, surfaceless_display_call())
                },
                _ => ask(s, HeadlessPhase::SurfacelessDisplay, surfaceless_display_call()),
            },
            HeadlessPhase::DeviceList { device_count } => match r {
                Reply::Count { ok, count: _ } => if ok {
                    ask(s, HeadlessPhase::DeviceSelection { device_count }, EglCall::ReadDeviceSelection)
                } else {
                    fail(s, no_teardown(), EglError::NoDisplay)
                },
                _ => fail(s, no_teardown(), EglError::NoDisplay),
            },
            HeadlessPhase::DeviceSelection { device_count } => {
                let var = match r {
                    Reply::Text(t) => t,
                    _ => None,
                };
                let index = device_choice(var);
                if index < device_count {
                    ask(s, HeadlessPhase::DeviceDisplay, EglCall::GetPlatformDisplay {
                        platform: consts::EGL_PLATFORM_DEVICE_EXT,
                        device: Some(index),
                        display_attributes: None,
                    })
                } else {
                    fail(s, no_teardown(), EglError::NoDisplay)
                }
            },
            HeadlessPhase::DeviceDisplay => {
                let d = reply_handle(r);
                if d == 0 {
                    fail(s, no_teardown(), EglError::NoDisplay)
                } else {
                    ask(s, HeadlessPhase::Initializing { display: d }, EglCall::Initialize { display: d })
                }
            },
            HeadlessPhase::SurfacelessDisplay => {
                let d = reply_handle(r);
                if d == 0 {
                    fail(s, no_teardown(), EglError::UnsupportedPlatform)
                } else {
                    ask(s, HeadlessPhase::Initializing { display: d }, EglCall::Initialize { display: d })
                }
            },
            HeadlessPhase::Initializing { display } => if reply_status(r) {
                ask(s, HeadlessPhase::BindingApi { display }, EglCall::BindApi { api: consts::EGL_OPENGL_API })
            } else {
                fail(s, no_teardown(), EglError::InitializeFailed)
            },
            HeadlessPhase::BindingApi { display } => if reply_status(r) {
                ask(s, HeadlessPhase::ChoosingConfig { display }, EglCall::ChooseConfig {
                    display,
                    attributes: AttributeList::HeadlessConfig { alpha: s.alpha },
                    capacity: consts::CONFIG_CAPACITY,
                })
            } else {
                fail(s, terminate_only(display), EglError::BindApiFailed)
            },
            HeadlessPhase::ChoosingConfig { display } => match r {
                Reply::Chosen { ok, count, first } => if ok && count > 0 {
                    let n: usize = if count < consts::CONFIG_CAPACITY { count as usize } else { consts::CONFIG_CAPACITY as usize };
                    let search = ConfigSearch {
                        display,
                        index: 0,
                        count: n,
                        first,
                        attribute: 0,
                        values: no_values(),
                        rule: ConfigRule::HeadlessSuitable,
                        alpha_size: alpha_bits(s.alpha),
                    };
                    ask(s, HeadlessPhase::CheckingConfig { search }, attrib_call(display, 0, 0))
                } else {
                    fail(s, terminate_only(display), EglError::NoConfig)
                },
                _ => fail(s, terminate_only(display), EglError::NoConfig),
            },
            HeadlessPhase::CheckingConfig { search } => match search.next(r) {
                (search2, SearchStep::Ask(call)) => ask(s, HeadlessPhase::CheckingConfig { search: search2 }, call),
                (_, SearchStep::Chosen(config)) => ask(
                    s,
                    HeadlessPhase::QueryingExtensions { display: search.display, config },
                    EglCall::QueryExtensions { display: search.display },
                ),
            },
            HeadlessPhase::QueryingExtensions { display, config } => ask(
                s,
                HeadlessPhase::CreatingContext { display, config },
                EglCall::CreateContext {
                    display,
                    config,
                    attributes: AttributeList::HeadlessContext { khr_create_context: reply_lists_khr(r) },
                },
            ),
            HeadlessPhase::CreatingContext { display, config } => {
                let c = reply_handle(r);
                if c == 0 {
                    fail(s, terminate_only(display), EglError::CreateContextFailed)
                } else {
                    ask(s, HeadlessPhase::CreatingSurface { display, config, context: c }, EglCall::CreatePbufferSurface {
                        display,
                        config,
                        attributes: AttributeList::Pbuffer { width: at_least_one(s.width), height: at_least_one(s.height) },
                    })
                }
            },
            HeadlessPhase::CreatingSurface { display, config, context } => {
                let sf = reply_handle(r);
                if sf == 0 {
                    fail(s, Teardown { display, unbind: false, surface: None, context: Some(context), terminate: true }, EglError::CreateSurfaceFailed)
                } else {
                    ask(s, HeadlessPhase::MakingCurrent { display, context, surface: sf }, EglCall::MakeCurrent { display, draw: sf, read: sf, context })
                }
            },
            HeadlessPhase::MakingCurrent { display, context, surface } => if reply_status(r) {
                (HeadlessSetup { phase: HeadlessPhase::Finished, ..s }, Step::Finish {
                    cleanup: no_teardown(),
                    result: Ok(HeadlessEglContext { display, surface, context }),
                })
            } else {
                fail(s, Teardown { display, unbind: false, surface: Some(surface), context: Some(context), terminate: true }, EglError::MakeCurrentFailed)
            },
            // A finished setup is not stepped again (`step` requires so); this arm
            // only keeps the function total.
            HeadlessPhase::Finished => (s, Step::Finish { cleanup: no_teardown(), result: Err(EglError::NoDisplay) }),
        }
    }

    pub open spec fn is_finished(self) -> bool {
        self.phase is Finished
    }
}

fn fail_with(s: &mut HeadlessSetup, cleanup: Teardown, error: EglError) -> (out: HeadlessStep)
    ensures
        (*final(s), out) == fail(*old(s), cleanup, error),
{
    s.phase = HeadlessPhase::Finished;
    Step::Finish { cleanup, result: Err(error) }
}

fn ask_for(s: &mut HeadlessSetup, phase: HeadlessPhase, call: EglCall) -> (out: HeadlessStep)
    ensures
        (*final(s), out) == ask(*old(s), phase, call),
{
    s.phase = phase;
    Step::Call(call)
}

fn terminate_display(display: usize) -> (t: Teardown)
    ensures
        t == terminate_only(display),
{
    Teardown { display, unbind: false, surface: None, context: None, terminate: true }
}

fn surfaceless_call() -> (c: EglCall)
    ensures
        c == surfaceless_display_call(),
{
    EglCall::GetPlatformDisplay {
        platform: consts::EGL_PLATFORM_SURFACELESS_MESA,
        device: None,
        display_attributes: None,
    }
}

/// Starts creating a headless context of `width` x `height` (each at least 1),
/// with an alpha channel when `alpha`: the setup and its first call, the lookup of
/// `eglGetPlatformDisplayEXT`.
pub fn create_headless_egl_context(width: i32, height: i32, alpha: bool) -> (res: (HeadlessSetup, EglCall))
    ensures
        res.0 == (HeadlessSetup { width, height, alpha, phase: HeadlessPhase::PlatformProc }),
        res.1 == (EglCall::LookupProc { name: ProcName::GetPlatformDisplayExt }),
{
    (
        HeadlessSetup { width, height, alpha, phase: HeadlessPhase::PlatformProc },
        EglCall::LookupProc { name: ProcName::GetPlatformDisplayExt },
    )
}

impl HeadlessSetup {
    /// Takes the reply to the last call and says what comes next.
    pub fn step(&mut self, r: &Reply) -> (out: HeadlessStep)
        requires
            !old(self).is_finished(),
        ensures
            (*final(self), out) == old(self).next(*r),
    {
        match self.phase {
            HeadlessPhase::PlatformProc => if r.found() {
                ask_for(self, HeadlessPhase::DevicesProc, EglCall::LookupProc { name: ProcName::QueryDevicesExt })
            } else {
                fail_with(self, Teardown::none(), EglError::UnsupportedPlatform)
            },
            HeadlessPhase::DevicesProc => if r.found() {
                ask_for(self, HeadlessPhase::DeviceCount, EglCall::CountDevices)
            } else {
                ask_for(self, HeadlessPhase::SurfacelessDisplay, surfaceless_call())
            },
            HeadlessPhase::DeviceCount => match r {
                Reply::Count { ok, count } => if *ok && *count > 0 {
                    ask_for(self, HeadlessPhase::DeviceList { device_count: *count }, EglCall::ListDevices { capacity: *count })
                } else {
                    ask_for(self, HeadlessPhase::SurfacelessDisplay, surfaceless_call())
                },
                _ => ask_for(self, HeadlessPhase::SurfacelessDisplay, surfaceless_call()),
            },
            HeadlessPhase::DeviceList { device_count } => match r {
                Reply::Count { ok, count: _ } => if *ok {
                    ask_for(self, HeadlessPhase::DeviceSelection { device_count }, EglCall::ReadDeviceSelection)
                } else {
                    fail_with(self, Teardown::none(), EglError::NoDisplay)
                },
                _ => fail_with(self, Teardown::none(), EglError::NoDisplay),
            },
            HeadlessPhase::DeviceSelection { device_count } => {
                let index = match r {
                    Reply::Text(t) => selected_device(t),
                    _ => 0,
                };
                if device_count > 0 && (index as u64) < (device_count as u64) {
                    ask_for(self, HeadlessPhase::DeviceDisplay, EglCall::GetPlatformDisplay {
                        platform: consts::EGL_PLATFORM_DEVICE_EXT,
                        device: Some(index),
                        display_attributes: None,
                    })
                } else {
                    fail_with(self, Teardown::none(), EglError::NoDisplay)
                }
            },
            HeadlessPhase::DeviceDisplay => {
                let d = r.handle();
                if d == 0 {
                    fail_with(self, Teardown::none(), EglError::NoDisplay)
                } else {
                    ask_for(self, HeadlessPhase::Initializing { display: d }, EglCall::Initialize { display: d })
                }
            },
            HeadlessPhase::SurfacelessDisplay => {
                let d = r.handle();
                if d == 0 {
                    fail_with(self, Teardown::none(), EglError::UnsupportedPlatform)
                } else {
                    ask_for(self, HeadlessPhase::Initializing { display: d }, EglCall::Initialize { display: d })
                }
            },
            HeadlessPhase::Initializing { display } => if r.status() {
                ask_for(self, HeadlessPhase::BindingApi { display }, EglCall::BindApi { api: consts::EGL_OPENGL_API })
            } else {
                fail_with(self, Teardown::none(), EglError::InitializeFailed)
            },
            HeadlessPhase::BindingApi { display } => if r.status() {
                let alpha = self.alpha;
                ask_for(self, HeadlessPhase::ChoosingConfig { display }, EglCall::ChooseConfig {
                    display,
                    attributes: AttributeList::HeadlessConfig { alpha },
                    capacity: consts::CONFIG_CAPACITY,
                })
            } else {
                fail_with(self, terminate_display(display), EglError::BindApiFailed)
            },
            HeadlessPhase::ChoosingConfig { display } => match r {
                Reply::Chosen { ok, count, first } => if *ok && *count > 0 {
                    let n: usize = if *count < consts::CONFIG_CAPACITY { *count as usize } else { consts::CONFIG_CAPACITY as usize };
                    let alpha_size: i32 = if self.alpha { 8 } else { 0 };
                    let (search, call) = ConfigSearch::start(display, n, *first, ConfigRule::HeadlessSuitable, alpha_size);
                    ask_for(self, HeadlessPhase::CheckingConfig { search }, call)
                } else {
                    fail_with(self, terminate_display(display), EglError::NoConfig)
                },
                _ => fail_with(self, terminate_display(display), EglError::NoConfig),
            },
            HeadlessPhase::CheckingConfig { search } => {
                let mut search2 = search;
                match search2.step(r) {
                    SearchStep::Ask(call) => ask_for(self, HeadlessPhase::CheckingConfig { search: search2 }, call),
                    SearchStep::Chosen(config) => ask_for(
                        self,
                        HeadlessPhase::QueryingExtensions { display: search.display, config },
                        EglCall::QueryExtensions { display: search.display },
                    ),
                }
            },
            HeadlessPhase::QueryingExtensions { display, config } => {
                let khr = match r {
                    Reply::Text(Some(s)) => extension_listed(s.as_str(), "EGL_KHR_create_context"),
                    _ => false,
                };
                ask_for(self, HeadlessPhase::CreatingContext { display, config }, EglCall::CreateContext {
                    display,
                    config,
                    attributes: AttributeList::HeadlessContext { khr_create_context: khr },
                })
            },
            HeadlessPhase::CreatingContext { display, config } => {
                let c = r.handle();
                if c == 0 {
                    fail_with(self, terminate_display(display), EglError::CreateContextFailed)
                } else {
                    let w = clamp_to_one(self.width);
                    let h = clamp_to_one(self.height);
                    ask_for(self, HeadlessPhase::CreatingSurface { display, config, context: c }, EglCall::CreatePbufferSurface {
                        display,
                        config,
                        attributes: AttributeList::Pbuffer { width: w, height: h },
                    })
                }
            },
            HeadlessPhase::CreatingSurface { display, config, context } => {
                let sf = r.handle();
                if sf == 0 {
                    fail_with(self, Teardown { display, unbind: false, surface: None, context: Some(context), terminate: true }, EglError::CreateSurfaceFailed)
                } else {
                    ask_for(self, HeadlessPhase::MakingCurrent { display, context, surface: sf }, EglCall::MakeCurrent { display, draw: sf, read: sf, context })
                }
            },
            HeadlessPhase::MakingCurrent { display, context, surface } => if r.status() {
                self.phase = HeadlessPhase::Finished;
                Step::Finish {
                    cleanup: Teardown::none(),
                    result: Ok(HeadlessEglContext { display, surface, context }),
                }
            } else {
                fail_with(self, Teardown { display, unbind: false, surface: Some(surface), context: Some(context), terminate: true }, EglError::MakeCurrentFailed)
            },
            HeadlessPhase::Finished => Step::Finish { cleanup: Teardown::none(), result: Err(EglError::NoDisplay) },
        }
    }
}

// ---------------------------------------------------------------------------
// Laws
// ---------------------------------------------------------------------------

/// What the setup has acquired at `phase` and must release if it stops there:
/// the display once it is initialized, then the context, then the surface.
pub open spec fn held(phase: HeadlessPhase) -> Teardown {
    match phase {
        HeadlessPhase::BindingApi { display } => terminate_only(display),
        HeadlessPhase::ChoosingConfig { display } => terminate_only(display),
        HeadlessPhase::CheckingConfig { search } => terminate_only(search.display),
        HeadlessPhase::QueryingExtensions { display, .. } => terminate_only(display),
        HeadlessPhase::CreatingContext { display, .. } => terminate_only(display),
        HeadlessPhase::CreatingSurface { display, context, .. } => Teardown {
            display,
            unbind: false,
            surface: None,
            context: Some(context),
            terminate: true,
        },
        HeadlessPhase::MakingCurrent { display, context, surface } => Teardown {
            display,
            unbind: false,
            surface: Some(surface),
            context: Some(context),
            terminate: true,
        },
        _ => no_teardown(),
    }
}

/// The handles a phase holds are real (non-null), and a config search stays
/// within the (at most 32) configs EGL returned.
pub open spec fn phase_wf(phase: HeadlessPhase) -> bool {
    match phase {
        HeadlessPhase::Initializing { display } => display != 0,
        HeadlessPhase::BindingApi { display } => display != 0,
        HeadlessPhase::ChoosingConfig { display } => display != 0,
        HeadlessPhase::CheckingConfig { search } => search.display != 0 && search.wf(),
        HeadlessPhase::QueryingExtensions { display, .. } => display != 0,
        HeadlessPhase::CreatingContext { display, .. } => display != 0,
        HeadlessPhase::CreatingSurface { display, context, .. } => display != 0 && context != 0,
        HeadlessPhase::MakingCurrent { display, context, surface } => display != 0 && context != 0 && surface != 0,
        _ => true,
    }
}

/// An upper bound on the calls still to come.
pub open spec fn rank(phase: HeadlessPhase) -> nat {
    match phase {
        HeadlessPhase::PlatformProc => 260,
        HeadlessPhase::DevicesProc => 259,
        HeadlessPhase::DeviceCount => 258,
        HeadlessPhase::DeviceList { .. } => 257,
        HeadlessPhase::DeviceSelection { .. } => 256,
        HeadlessPhase::DeviceDisplay => 255,
        HeadlessPhase::SurfacelessDisplay => 254,
        HeadlessPhase::Initializing { .. } => 253,
        HeadlessPhase::BindingApi { .. } => 252,
        HeadlessPhase::ChoosingConfig { .. } => 251,
        HeadlessPhase::CheckingConfig { search } => (5 + 5 * (search.count - search.index) - search.attribute) as nat,
        HeadlessPhase::QueryingExtensions { .. } => 4,
        HeadlessPhase::CreatingContext { .. } => 3,
        HeadlessPhase::CreatingSurface { .. } => 2,
        HeadlessPhase::MakingCurrent { .. } => 1,
        HeadlessPhase::Finished => 0,
    }
}

/// Whenever the headless setup gives up, it releases exactly what it had acquired:
/// the surface, then the context, then the display (terminated once initialized);
/// nothing else.
pub proof fn lemma_headless_failure_releases_everything(s: HeadlessSetup, r: Reply)
    requires
        !s.is_finished(),
    ensures
        s.next(r).1 matches Step::Finish { cleanup, result: Err(_) } ==> cleanup == held(s.phase),
{
}

/// When the headless setup succeeds it hands over everything it acquired, all
/// non-null, and releases nothing.
pub proof fn lemma_headless_success_hands_over(s: HeadlessSetup, r: Reply)
    requires
        !s.is_finished(),
        phase_wf(s.phase),
    ensures
        s.next(r).1 matches Step::Finish { cleanup, result: Ok(ctx) } ==> {
            &&& cleanup == no_teardown()
            &&& ctx.display != 0 && ctx.surface != 0 && ctx.context != 0
            &&& held(s.phase) == (Teardown {
                display: ctx.display,
                unbind: false,
                surface: Some(ctx.surface),
                context: Some(ctx.context),
                terminate: true,
            })
        },
{
}

/// Each call moves the setup strictly forward: it finishes exactly when it says so,
/// and otherwise asks for one more EGL call with fewer left to come, so a setup
/// makes at most 260 calls. The pbuffer it asks for is at least one pixel a side.
pub proof fn lemma_headless_progress(s: HeadlessSetup, r: Reply)
    requires
        !s.is_finished(),
        phase_wf(s.phase),
    ensures
        phase_wf(s.next(r).0.phase),
        s.next(r).0.is_finished() <==> s.next(r).1 is Finish,
        !s.next(r).0.is_finished() ==> s.next(r).1 is Call && rank(s.next(r).0.phase) < rank(s.phase),
        s.next(r).0.width == s.width && s.next(r).0.height == s.height && s.next(r).0.alpha == s.alpha,
        s.next(r).1 matches Step::Call(EglCall::CreatePbufferSurface { attributes: AttributeList::Pbuffer { width, height }, .. })
            ==> width >= 1 && height >= 1,
{
    if let HeadlessPhase::CheckingConfig { search } = s.phase {
        lemma_search_progress(search, r);
    }
}

/// The setup after the replies `rs`, stopping once it leaves the config search.
pub open spec fn after_config_checks(s: HeadlessSetup, rs: Seq<Reply>) -> HeadlessSetup
    decreases rs.len(),
{
    if rs.len() == 0 || !(s.phase is CheckingConfig) {
        s
    } else {
        after_config_checks(s.next(rs[0]).0, rs.drop_first())
    }
}

proof fn lemma_checks_follow_search(s: HeadlessSetup, rs: Seq<Reply>)
    requires
        s.phase is CheckingConfig,
        search_result(s.phase->search, rs) is Some,
    ensures
        after_config_checks(s, rs).phase == (HeadlessPhase::QueryingExtensions {
            display: s.phase->search.display,
            config: search_result(s.phase->search, rs)->0,
        }),
    decreases rs.len(),
{
    let search = s.phase->search;
    let s1 = s.next(rs[0]).0;
    assert(after_config_checks(s, rs) == after_config_checks(s1, rs.drop_first()));
    match search.next(rs[0]).1 {
        SearchStep::Chosen(c) => {
            assert(after_config_checks(s1, rs.drop_first()) == s1);
        },
        SearchStep::Ask(_) => {
            lemma_checks_follow_search(s1, rs.drop_first());
        },
    }
}

/// The headless setup settles on the first of the configs EGL returned (at most
/// 32) whose attribute queries all succeed and whose sizes pass the pbuffer test,
/// and on the first config EGL returned when none passes. It asks each config's
/// red, green, blue, alpha and depth sizes in turn and stops asking a config at
/// its first failed query.
pub proof fn lemma_headless_config_choice(s: HeadlessSetup, qs: Seq<ConfigQuery>)
    requires
        s.phase is CheckingConfig,
        s.phase->search == (ConfigSearch {
            index: 0,
            attribute: 0,
            values: no_values(),
            count: qs.len() as usize,
            rule: ConfigRule::HeadlessSuitable,
            alpha_size: alpha_bits(s.alpha),
            ..s.phase->search
        }),
        0 < qs.len() <= 32,
    ensures
        after_config_checks(s, search_replies(ConfigRule::HeadlessSuitable, qs)).phase == (HeadlessPhase::QueryingExtensions {
            display: s.phase->search.display,
            config: first_passing(qs, search_test(ConfigRule::HeadlessSuitable, alpha_bits(s.alpha)), s.phase->search.first),
        }),
{
    lemma_search_chooses_first_passing(s.phase->search, qs);
    lemma_checks_follow_search(s, search_replies(ConfigRule::HeadlessSuitable, qs));
}

/// Destroying a context that the setup made releases what the setup acquired,
/// after unbinding it from the thread.
pub proof fn lemma_destroy_releases_what_setup_acquired(s: HeadlessSetup, r: Reply)
    requires
        !s.is_finished(),
        s.next(r).1 is Finish,
        s.next(r).1->result is Ok,
    ensures
        s.next(r).1->result->Ok_0.destroy_calls() == (Teardown { unbind: true, ..held(s.phase) }).call_seq(),
{
    let ctx = s.next(r).1->result->Ok_0;
    assert(ctx.destroy_calls() =~= (Teardown { unbind: true, ..held(s.phase) }).call_seq());
}


// ---------------------------------------------------------------------------
// A whole run of the setup
// ---------------------------------------------------------------------------

/// The setup after it has taken the first `i` replies of `rs`.
#[verifier::opaque]
pub open spec fn headless_state(s: HeadlessSetup, rs: Seq<Reply>, i: nat) -> HeadlessSetup
    decreases i,
{
    if i == 0 || i > rs.len() {
        s
    } else {
        headless_state(s, rs, (i - 1) as nat).next(rs[i - 1]).0
    }
}

/// What the setup asks for once it takes the reply `rs[i]`.
#[verifier::opaque]
pub open spec fn headless_out(s: HeadlessSetup, rs: Seq<Reply>, i: nat) -> HeadlessStep {
    headless_state(s, rs, i).next(rs[i as int]).1
}

proof fn lemma_headless_state_unfold(s: HeadlessSetup, rs: Seq<Reply>, i: nat)
    requires
        1 <= i <= rs.len(),
    ensures
        headless_state(s, rs, i) == headless_state(s, rs, (i - 1) as nat).next(rs[i - 1]).0,
        headless_out(s, rs, (i - 1) as nat) == headless_state(s, rs, (i - 1) as nat).next(rs[i - 1]).1,
{
    reveal(headless_state);
    reveal(headless_out);
}

proof fn lemma_headless_state_start(s: HeadlessSetup, rs: Seq<Reply>)
    ensures
        headless_state(s, rs, 0) == s,
{
    reveal(headless_state);
}

proof fn lemma_headless_out_at(s: HeadlessSetup, rs: Seq<Reply>, i: nat)
    ensures
        headless_out(s, rs, i) == headless_state(s, rs, i).next(rs[i as int]).1,
{
    reveal(headless_out);
}

/// Whether `o` asks for an attribute of a config of the display `d`.
pub open spec fn asks_attrib_of(o: HeadlessStep, d: usize) -> bool {
    o matches Step::Call(EglCall::QueryConfigAttrib { display, .. }) && display == d
}

/// After the reply `rs[j - 1]` the setup asked EGL for a display; the reply
/// `rs[j]` gave it the display `d`, which it then asked to initialize.
pub open spec fn display_opened(s: HeadlessSetup, rs: Seq<Reply>, j: nat, d: usize) -> bool {
    &&& j >= 1
    &&& headless_out(s, rs, (j - 1) as nat) matches Step::Call(EglCall::GetPlatformDisplay { .. })
    &&& d == reply_handle(rs[j as int])
    &&& headless_out(s, rs, j) == HeadlessStep::Call(EglCall::Initialize { display: d })
}

/// The display `d` was opened at `j`, and the two calls after that bound the
/// desktop OpenGL API and asked for the configs of `d`.
pub open spec fn config_asked(s: HeadlessSetup, rs: Seq<Reply>, j: nat, d: usize) -> bool {
    &&& display_opened(s, rs, j, d)
    &&& headless_out(s, rs, j + 1) == HeadlessStep::Call(EglCall::BindApi { api: consts::EGL_OPENGL_API })
    &&& headless_out(s, rs, j + 2) == HeadlessStep::Call(EglCall::ChooseConfig {
        display: d,
        attributes: AttributeList::HeadlessConfig { alpha: s.alpha },
        capacity: consts::CONFIG_CAPACITY,
    })
}

/// Every request from the `from`-th up to (not including) the `to`-th asks for an
/// attribute of a config of `d`.
pub open spec fn only_attrib_queries(s: HeadlessSetup, rs: Seq<Reply>, from: nat, to: nat, d: usize) -> bool {
    forall|m: nat| from <= m < to ==> asks_attrib_of(#[trigger] headless_out(s, rs, m), d)
}

/// What a run from the start has asked for, by where it stands after `k` replies;
/// `j` is where it initialized its display and `c` the config it settled on.
pub open spec fn history_holds(s: HeadlessSetup, rs: Seq<Reply>, k: nat, j: nat, c: usize) -> bool {
    let st = headless_state(s, rs, k);
    &&& st.width == s.width && st.height == s.height && st.alpha == s.alpha
    &&& match st.phase {
        HeadlessPhase::DeviceDisplay => k >= 1 && headless_out(s, rs, (k - 1) as nat) matches Step::Call(
            EglCall::GetPlatformDisplay { .. },
        ),
        HeadlessPhase::SurfacelessDisplay => k >= 1 && headless_out(s, rs, (k - 1) as nat) matches Step::Call(
            EglCall::GetPlatformDisplay { .. },
        ),
        HeadlessPhase::Initializing { display } => k >= 1 && display_opened(s, rs, (k - 1) as nat, display),
        HeadlessPhase::BindingApi { display } => {
            &&& k >= 2
            &&& display_opened(s, rs, (k - 2) as nat, display)
            &&& headless_out(s, rs, (k - 1) as nat) == HeadlessStep::Call(EglCall::BindApi { api: consts::EGL_OPENGL_API })
        },
        HeadlessPhase::ChoosingConfig { display } => k >= 3 && config_asked(s, rs, (k - 3) as nat, display),
        HeadlessPhase::CheckingConfig { search } => {
            &&& j + 4 <= k
            &&& config_asked(s, rs, j, search.display)
            &&& only_attrib_queries(s, rs, j + 3, k, search.display)
        },
        HeadlessPhase::QueryingExtensions { display, config } => {
            &&& j + 5 <= k
            &&& config_asked(s, rs, j, display)
            &&& only_attrib_queries(s, rs, j + 3, (k - 1) as nat, display)
            &&& headless_out(s, rs, (k - 1) as nat) == HeadlessStep::Call(EglCall::QueryExtensions { display })
        },
        HeadlessPhase::CreatingContext { display, config } => {
            &&& j + 6 <= k
            &&& config_asked(s, rs, j, display)
            &&& only_attrib_queries(s, rs, j + 3, (k - 2) as nat, display)
            &&& headless_out(s, rs, (k - 2) as nat) == HeadlessStep::Call(EglCall::QueryExtensions { display })
            &&& headless_out(s, rs, (k - 1) as nat) == HeadlessStep::Call(EglCall::CreateContext {
                display,
                config,
                attributes: AttributeList::HeadlessContext { khr_create_context: reply_lists_khr(rs[k - 1]) },
            })
        },
        HeadlessPhase::CreatingSurface { display, config, context } => {
            &&& j + 7 <= k
            &&& config_asked(s, rs, j, display)
            &&& only_attrib_queries(s, rs, j + 3, (k - 3) as nat, display)
            &&& headless_out(s, rs, (k - 3) as nat) == HeadlessStep::Call(EglCall::QueryExtensions { display })
            &&& headless_out(s, rs, (k - 2) as nat) == HeadlessStep::Call(EglCall::CreateContext {
                display,
                config,
                attributes: AttributeList::HeadlessContext { khr_create_context: reply_lists_khr(rs[k - 2]) },
            })
            &&& context == reply_handle(rs[k - 1])
            &&& headless_out(s, rs, (k - 1) as nat) == HeadlessStep::Call(EglCall::CreatePbufferSurface {
                display,
                config,
                attributes: AttributeList::Pbuffer { width: at_least_one(s.width), height: at_least_one(s.height) },
            })
        },
        HeadlessPhase::MakingCurrent { display, context, surface } => {
            &&& j + 8 <= k
            &&& config_asked(s, rs, j, display)
            &&& only_attrib_queries(s, rs, j + 3, (k - 4) as nat, display)
            &&& headless_out(s, rs, (k - 4) as nat) == HeadlessStep::Call(EglCall::QueryExtensions { display })
            &&& headless_out(s, rs, (k - 3) as nat) == HeadlessStep::Call(EglCall::CreateContext {
                display,
                config: c,
                attributes: AttributeList::HeadlessContext { khr_create_context: reply_lists_khr(rs[k - 3]) },
            })
            &&& context == reply_handle(rs[k - 2])
            &&& headless_out(s, rs, (k - 2) as nat) == HeadlessStep::Call(EglCall::CreatePbufferSurface {
                display,
                config: c,
                attributes: AttributeList::Pbuffer { width: at_least_one(s.width), height: at_least_one(s.height) },
            })
            &&& surface == reply_handle(rs[k - 1])
            &&& headless_out(s, rs, (k - 1) as nat) == HeadlessStep::Call(EglCall::MakeCurrent {
                display,
                draw: surface,
                read: surface,
                context,
            })
        },
        _ => true,
    }
}

/// One more reply keeps the history true.
#[verifier::spinoff_prover]
proof fn lemma_history_step(s: HeadlessSetup, rs: Seq<Reply>, k: nat, j: nat, c: usize) -> (w: (nat, usize))
    requires
        1 <= k <= rs.len(),
        history_holds(s, rs, (k - 1) as nat, j, c),
    ensures
        history_holds(s, rs, k, w.0, w.1),
{
    lemma_headless_state_unfold(s, rs, k);
    let prev = headless_state(s, rs, (k - 1) as nat);
    let r = rs[k - 1];
    match prev.phase {
        HeadlessPhase::ChoosingConfig { display } => {
            let j2 = (k - 4) as nat;
            assert(config_asked(s, rs, j2, display));
            if prev.next(r).0.phase is CheckingConfig {
                assert(prev.next(r).0.phase->search.display == display);
                assert(asks_attrib_of(headless_out(s, rs, (k - 1) as nat), display));
                assert forall|m: nat| j2 + 3 <= m < k implies asks_attrib_of(#[trigger] headless_out(s, rs, m), display) by {
                    assert(m == k - 1);
                }
            }
            (j2, c)
        },
        HeadlessPhase::CheckingConfig { search } => {
            if prev.next(r).0.phase is CheckingConfig {
                assert(asks_attrib_of(headless_out(s, rs, (k - 1) as nat), search.display));
            }
            (j, c)
        },
        HeadlessPhase::CreatingSurface { display, config, context } => (j, config),
        _ => (j, c),
    }
}

proof fn lemma_headless_history(s: HeadlessSetup, rs: Seq<Reply>, k: nat) -> (w: (nat, usize))
    requires
        s.phase is PlatformProc,
        k <= rs.len(),
    ensures
        history_holds(s, rs, k, w.0, w.1),
    decreases k,
{
    if k == 0 {
        lemma_headless_state_start(s, rs);
        (0, 0)
    } else {
        let (j, c) = lemma_headless_history(s, rs, (k - 1) as nat);
        lemma_history_step(s, rs, k, j, c)
    }
}

/// A headless setup that succeeds has asked EGL, in this order: for a display;
/// to initialize the display it got; to bind the desktop OpenGL API; for that
/// display's configs; for their attributes, and for nothing else, until it
/// settled on one; for the display's extensions; for a context on the chosen
/// config (with the OpenGL 3.1 core attributes when the extensions listed
/// `EGL_KHR_create_context`); for a pbuffer of at least one pixel a side on
/// the same config; and to make that pbuffer current with that context. It hands
/// over that display, pbuffer and context, and releases nothing.
pub proof fn lemma_headless_success_run(width: i32, height: i32, alpha: bool, rs: Seq<Reply>, k: nat)
    requires
        k < rs.len(),
        headless_out(HeadlessSetup { width, height, alpha, phase: HeadlessPhase::PlatformProc }, rs, k) is Finish,
        headless_out(HeadlessSetup { width, height, alpha, phase: HeadlessPhase::PlatformProc }, rs, k)->result is Ok,
    ensures
        ({
            let s = HeadlessSetup { width, height, alpha, phase: HeadlessPhase::PlatformProc };
            let ctx = headless_out(s, rs, k)->result->Ok_0;
            &&& headless_out(s, rs, k)->cleanup == no_teardown()
            &&& exists|j: nat| {
                &&& j + 8 <= k
                &&& #[trigger] config_asked(s, rs, j, ctx.display)
                &&& only_attrib_queries(s, rs, j + 3, (k - 4) as nat, ctx.display)
            }
            &&& headless_out(s, rs, (k - 4) as nat) == HeadlessStep::Call(EglCall::QueryExtensions { display: ctx.display })
            &&& headless_out(s, rs, (k - 3) as nat) matches Step::Call(EglCall::CreateContext { display, config, attributes })
            &&& display == ctx.display
            &&& attributes == AttributeList::HeadlessContext { khr_create_context: reply_lists_khr(rs[k - 3]) }
            &&& ctx.context == reply_handle(rs[k - 2])
            &&& headless_out(s, rs, (k - 2) as nat) == HeadlessStep::Call(EglCall::CreatePbufferSurface {
                display: ctx.display,
                config,
                attributes: AttributeList::Pbuffer { width: at_least_one(width), height: at_least_one(height) },
            })
            &&& ctx.surface == reply_handle(rs[k - 1])
            &&& headless_out(s, rs, (k - 1) as nat) == HeadlessStep::Call(EglCall::MakeCurrent {
                display: ctx.display,
                draw: ctx.surface,
                read: ctx.surface,
                context: ctx.context,
            })
        }),
{
    let s = HeadlessSetup { width, height, alpha, phase: HeadlessPhase::PlatformProc };
    let (j, c) = lemma_headless_history(s, rs, k);
    lemma_headless_out_at(s, rs, k);
    let st = headless_state(s, rs, k);
    assert(st.phase is MakingCurrent);
    assert(config_asked(s, rs, j, st.phase->MakingCurrent_display));
}


/// Once the desktop OpenGL API is bound, the headless setup asks its display for
/// up to 32 pbuffer configs with the alpha it was given; with EGL's configs in hand
/// it asks the red size of the first one and tests at most 32 configs with the
/// pbuffer test, wanting an 8-bit alpha channel when alpha was asked for and any
/// alpha otherwise; once it has a context, it asks for a pbuffer of the size it
/// was given, each side below one pixel counting as one.
pub proof fn lemma_headless_requests(s: HeadlessSetup, display: usize, count: i32, first: usize, config: usize, context: usize)
    ensures
        s.phase == (HeadlessPhase::BindingApi { display }) ==> s.next(Reply::Status(true)).1 == HeadlessStep::Call(
            EglCall::ChooseConfig { display, attributes: AttributeList::HeadlessConfig { alpha: s.alpha }, capacity: 32 },
        ),
        s.phase == (HeadlessPhase::ChoosingConfig { display }) && count > 0 ==> {
            let (s1, out) = s.next(Reply::Chosen { ok: true, count, first });
            &&& out == HeadlessStep::Call(EglCall::QueryConfigAttrib { display, index: 0, attribute: consts::EGL_RED_SIZE })
            &&& s1.phase is CheckingConfig
            &&& s1.phase->search.display == display
            &&& s1.phase->search.count == (if count < 32 { count as int } else { 32 })
            &&& s1.phase->search.first == first
            &&& s1.phase->search.rule == ConfigRule::HeadlessSuitable
            &&& s1.phase->search.alpha_size == (if s.alpha { 8i32 } else { 0i32 })
        },
        s.phase == (HeadlessPhase::CreatingContext { display, config }) && context != 0 ==> s.next(
            Reply::Handle(context),
        ).1 == HeadlessStep::Call(
            EglCall::CreatePbufferSurface {
                display,
                config,
                attributes: AttributeList::Pbuffer {
                    width: if s.width < 1 { 1 } else { s.width },
                    height: if s.height < 1 { 1 } else { s.height },
                },
            },
        ),
{
}

} // verus!
