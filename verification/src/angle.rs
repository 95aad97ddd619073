use vstd::prelude::*;
use crate::attrib::{AttributeList, at_least_one, clamp_to_one};
use crate::command::{EglCall, ProcName, Reply, Step, Teardown, no_teardown, reply_found, reply_handle, reply_status, reply_code};
use crate::consts;
use crate::text::{append_decimal, append_hex4, decimal_text, extension_listed, hex4_text, lists_word};

verus! {

// ---------------------------------------------------------------------------
// Errors and their messages
// ---------------------------------------------------------------------------

/// The EGL operations whose failure is reported with EGL's error code.
#[derive(Clone, Copy, Debug, PartialEq, Eq, Structural)]
pub enum AngleOperation {
    QueryClientExtensions,
    GetPlatformDisplay,
    Initialize,
    BindApi,
    ChooseConfig,
    CreateContext,
    CreatePbufferSurface,
    MakeCurrent,
}

impl AngleOperation {
    /// The name the error message gives the operation.
    pub open spec fn name_text(self) -> Seq<char> {
        match self {
            AngleOperation::QueryClientExtensions => "query ANGLE client extensions"@,
            AngleOperation::GetPlatformDisplay => "eglGetPlatformDisplayEXT"@,
            AngleOperation::Initialize => "eglInitialize"@,
            AngleOperation::BindApi => "eglBindAPI(OpenGL ES)"@,
            AngleOperation::ChooseConfig => "eglChooseConfig"@,
            AngleOperation::CreateContext => "eglCreateContext(OpenGL ES 3)"@,
            AngleOperation::CreatePbufferSurface => "eglCreatePbufferSurface"@,
            AngleOperation::MakeCurrent => "eglMakeCurrent"@,
        }
    }

    pub fn name(&self) -> (s: &'static str)
        ensures
            s@ == self.name_text(),
    {
        match self {
            AngleOperation::QueryClientExtensions => "query ANGLE client extensions",
            AngleOperation::GetPlatformDisplay => "eglGetPlatformDisplayEXT",
            AngleOperation::Initialize => "eglInitialize",
            AngleOperation::BindApi => "eglBindAPI(OpenGL ES)",
            AngleOperation::ChooseConfig => "eglChooseConfig",
            AngleOperation::CreateContext => "eglCreateContext(OpenGL ES 3)",
            AngleOperation::CreatePbufferSurface => "eglCreatePbufferSurface",
            AngleOperation::MakeCurrent => "eglMakeCurrent",
        }
    }
}

/// The client extensions a Direct3D 11 ANGLE build must offer, in the order they
/// are checked.
#[derive(Clone, Copy, Debug, PartialEq, Eq, Structural)]
pub enum RequiredExtension {
    PlatformBase,
    PlatformAngle,
    PlatformAngleD3d,
}

impl RequiredExtension {
    pub open spec fn name_text(self) -> Seq<char> {
        match self {
            RequiredExtension::PlatformBase => "EGL_EXT_platform_base"@,
            RequiredExtension::PlatformAngle => "EGL_ANGLE_platform_angle"@,
            RequiredExtension::PlatformAngleD3d => "EGL_ANGLE_platform_angle_d3d"@,
        }
    }

    pub fn name(&self) -> (s: &'static str)
        ensures
            s@ == self.name_text(),
    {
        match self {
            RequiredExtension::PlatformBase => "EGL_EXT_platform_base",
            RequiredExtension::PlatformAngle => "EGL_ANGLE_platform_angle",
            RequiredExtension::PlatformAngleD3d => "EGL_ANGLE_platform_angle_d3d",
        }
    }
}

/// Why one initialization attempt (or a resize) failed.
#[derive(Clone, Copy, Debug, PartialEq, Eq, Structural)]
pub enum InitError {
    /// `operation` failed and `eglGetError` then returned `code`.
    Egl { operation: AngleOperation, code: i32 },
    /// No OpenGL ES 3 pbuffer config exists for the sample count asked for.
    NoConfig { sample_count: i32 },
}

/// Why the ANGLE context could not be created.
#[derive(Clone, Copy, Debug, PartialEq, Eq, Structural)]
pub enum AngleError {
    Init(InitError),
    MissingExtension(RequiredExtension),
    MissingPlatformDisplay,
    /// Both the hardware and the WARP device failed.
    Fallback { hardware: InitError, warp: InitError },
}

impl InitError {
    pub open spec fn message_text(self) -> Seq<char> {
        match self {
            InitError::Egl { operation, code } => operation.name_text() + " failed (EGL error 0x"@
                + hex4_text(code as u32) + ")"@,
            InitError::NoConfig { sample_count } => "ANGLE has no GLES 3 pbuffer config for sample_count="@
                + decimal_text(sample_count as int),
        }
    }

    /// The error message.
    pub fn message(&self) -> (s: String)
        ensures
            s@ == self.message_text(),
    {
        match *self {
            InitError::Egl { operation, code } => {
                let mut s = String::from_str(operation.name());
                s.append(" failed (EGL error 0x");
                append_hex4(&mut s, code as u32);
                s.append(")");
                s
            },
            InitError::NoConfig { sample_count } => {
                let mut s = String::from_str("ANGLE has no GLES 3 pbuffer config for sample_count=");
                append_decimal(&mut s, sample_count);
                s
            },
        }
    }
}

impl AngleError {
    pub open spec fn message_text(self) -> Seq<char> {
        match self {
            AngleError::Init(e) => e.message_text(),
            AngleError::MissingExtension(x) => "ANGLE is missing "@ + x.name_text()
                + "; a D3D11-enabled ANGLE build is required"@,
            AngleError::MissingPlatformDisplay => "ANGLE is missing eglGetPlatformDisplayEXT"@,
            AngleError::Fallback { hardware, warp } => "D3D11: "@ + hardware.message_text() + "; WARP: "@
                + warp.message_text(),
        }
    }

    /// The error message.
    pub fn message(&self) -> (s: String)
        ensures
            s@ == self.message_text(),
    {
        match *self {
            AngleError::Init(e) => e.message(),
            AngleError::MissingExtension(x) => {
                let mut s = String::from_str("ANGLE is missing ");
                s.append(x.name());
                s.append("; a D3D11-enabled ANGLE build is required");
                s
            },
            AngleError::MissingPlatformDisplay => String::from_str("ANGLE is missing eglGetPlatformDisplayEXT"),
            AngleError::Fallback { hardware, warp } => {
                let mut s = String::from_str("D3D11: ");
                let h = hardware.message();
                s.append(h.as_str());
                s.append("; WARP: ");
                let w = warp.message();
                s.append(w.as_str());
                s
            },
        }
    }
}

pub open spec fn fallback_warning_text(hardware: InitError) -> Seq<char> {
    "ANGLE D3D11 hardware initialization failed: "@ + hardware.message_text() + ". Trying WARP"@
}

/// The warning printed when the hardware device failed and WARP is tried next.
pub fn fallback_warning(hardware: &InitError) -> (s: String)
    ensures
        s@ == fallback_warning_text(*hardware),
{
    let mut s = String::from_str("ANGLE D3D11 hardware initialization failed: ");
    let h = hardware.message();
    s.append(h.as_str());
    s.append(". Trying WARP");
    s
}

// ---------------------------------------------------------------------------
// The context and its release
// ---------------------------------------------------------------------------

/// The EGL objects of an ANGLE context (0 where there is none).
#[derive(Clone, Copy, Debug, PartialEq, Eq, Structural)]
pub struct AngleContext {
    pub display: usize,
    pub config: usize,
    pub context: usize,
    pub surface: usize,
}

/// A context that holds nothing.
pub open spec fn empty_context() -> AngleContext {
    AngleContext { display: 0, config: 0, context: 0, surface: 0 }
}

/// The calls that release a context: nothing without a display; otherwise unbind
/// it, destroy the surface and the context where there are ones, and terminate
/// the display.
pub open spec fn release_teardown(c: AngleContext) -> Teardown {
    if c.display == 0 {
        no_teardown()
    } else {
        Teardown {
            display: c.display,
            unbind: true,
            surface: if c.surface != 0 { Some(c.surface) } else { None },
            context: if c.context != 0 { Some(c.context) } else { None },
            terminate: true,
        }
    }
}

impl AngleContext {
    /// A context that holds nothing.
    pub fn empty() -> (c: AngleContext)
        ensures
            c == empty_context(),
    {
        AngleContext { display: 0, config: 0, context: 0, surface: 0 }
    }

    /// Releases everything the context holds and empties it: the calls to make.
    pub fn release(&mut self) -> (t: Teardown)
        ensures
            t == release_teardown(*old(self)),
            *final(self) == empty_context(),
    {
        let t = if self.display == 0 {
            Teardown::none()
        } else {
            Teardown {
                display: self.display,
                unbind: true,
                surface: if self.surface != 0 { Some(self.surface) } else { None },
                context: if self.context != 0 { Some(self.context) } else { None },
                terminate: true,
            }
        };
        *self = AngleContext::empty();
        t
    }

    /// Starts replacing the pbuffer surface by one of `width` x `height`: the
    /// resize and its first call.
    pub fn resize(&self, width: i32, height: i32) -> (res: (AngleResize, EglCall))
        ensures
            res.0 == (AngleResize { context: *self, width, height, phase: ResizePhase::CreatingSurface }),
            res.1 == resize_first_call(*self, width, height),
    {
        (
            AngleResize { context: *self, width, height, phase: ResizePhase::CreatingSurface },
            EglCall::CreatePbufferSurface {
                display: self.display,
                config: self.config,
                attributes: AttributeList::Pbuffer { width, height },
            },
        )
    }
}

// ---------------------------------------------------------------------------
// Resizing
// ---------------------------------------------------------------------------

#[derive(Clone, Copy, Debug, PartialEq, Eq, Structural)]
pub enum ResizePhase {
    CreatingSurface,
    FetchingCreateError,
    MakingCurrent { surface: usize },
    FetchingCurrentError { surface: usize },
    DiscardingNew { code: i32 },
    DiscardingOld { surface: usize },
    Finished,
}

pub type ResizeStep = Step<AngleContext, InitError>;

/// Replaces the pbuffer surface of `context`: creates the new surface, makes it
/// current, then destroys the old one. On failure the context is kept as it was
/// (a new surface that could not be made current is destroyed).
#[derive(Clone, Copy, Debug, PartialEq, Eq, Structural)]
pub struct AngleResize {
    pub context: AngleContext,
    pub width: i32,
    pub height: i32,
    pub phase: ResizePhase,
}

pub open spec fn resize_first_call(c: AngleContext, width: i32, height: i32) -> EglCall {
    EglCall::CreatePbufferSurface { display: c.display, config: c.config, attributes: AttributeList::Pbuffer { width, height } }
}

impl AngleResize {
    pub open spec fn is_finished(self) -> bool {
        self.phase is Finished
    }

    pub open spec fn next(self, r: Reply) -> (AngleResize, ResizeStep) {
        let c = self.context;
        let d = c.display;
        let done = AngleResize { phase: ResizePhase::Finished, ..self };
        match self.phase {
            ResizePhase::CreatingSurface => {
                let s = reply_handle(r);
                if s == 0 {
                    (AngleResize { phase: ResizePhase::FetchingCreateError, ..self }, Step::Call(EglCall::GetError))
                } else {
                    (
                        AngleResize { phase: ResizePhase::MakingCurrent { surface: s }, ..self },
                        Step::Call(EglCall::MakeCurrent { display: d, draw: s, read: s, context: c.context }),
                    )
                }
            },
            ResizePhase::FetchingCreateError => (done, Step::Finish {
                cleanup: no_teardown(),
                result: Err(InitError::Egl { operation: AngleOperation::CreatePbufferSurface, code: reply_code(r) }),
            }),
            ResizePhase::MakingCurrent { surface } => if reply_status(r) {
                if c.surface != 0 {
                    (
                        AngleResize { phase: ResizePhase::DiscardingOld { surface }, ..self },
                        Step::Call(EglCall::DestroySurface { display: d, surface: c.surface }),
                    )
                } else {
                    (done, Step::Finish { cleanup: no_teardown(), result: Ok(AngleContext { surface, ..c }) })
                }
            } else {
                (AngleResize { phase: ResizePhase::FetchingCurrentError { surface }, ..self }, Step::Call(EglCall::GetError))
            },
            ResizePhase::FetchingCurrentError { surface } => (
                AngleResize { phase: ResizePhase::DiscardingNew { code: reply_code(r) }, ..self },
                Step::Call(EglCall::DestroySurface { display: d, surface }),
            ),
            ResizePhase::DiscardingNew { code } => (done, Step::Finish {
                cleanup: no_teardown(),
                result: Err(InitError::Egl { operation: AngleOperation::MakeCurrent, code }),
            }),
            ResizePhase::DiscardingOld { surface } => (done, Step::Finish { cleanup: no_teardown(), result: Ok(AngleContext { surface, ..c }) }),
            ResizePhase::Finished => (self, Step::Finish { cleanup: no_teardown(), result: Ok(c) }),
        }
    }

    /// Takes the reply to the last call and says what comes next.
    pub fn step(&mut self, r: &Reply) -> (out: ResizeStep)
        ensures
            (*final(self), out) == old(self).next(*r),
    {
        let c = self.context;
        let d = c.display;
        match self.phase {
            ResizePhase::CreatingSurface => {
                let s = r.handle();
                if s == 0 {
                    self.phase = ResizePhase::FetchingCreateError;
                    Step::Call(EglCall::GetError)
                } else {
                    self.phase = ResizePhase::MakingCurrent { surface: s };
                    Step::Call(EglCall::MakeCurrent { display: d, draw: s, read: s, context: c.context })
                }
            },
            ResizePhase::FetchingCreateError => {
                self.phase = ResizePhase::Finished;
                Step::Finish {
                    cleanup: Teardown::none(),
                    result: Err(InitError::Egl { operation: AngleOperation::CreatePbufferSurface, code: r.code() }),
                }
            },
            ResizePhase::MakingCurrent { surface } => if r.status() {
                if c.surface != 0 {
                    self.phase = ResizePhase::DiscardingOld { surface };
                    Step::Call(EglCall::DestroySurface { display: d, surface: c.surface })
                } else {
                    self.phase = ResizePhase::Finished;
                    Step::Finish { cleanup: Teardown::none(), result: Ok(AngleContext { surface, ..c }) }
                }
            } else {
                self.phase = ResizePhase::FetchingCurrentError { surface };
                Step::Call(EglCall::GetError)
            },
            ResizePhase::FetchingCurrentError { surface } => {
                self.phase = ResizePhase::DiscardingNew { code: r.code() };
                Step::Call(EglCall::DestroySurface { display: d, surface })
            },
            ResizePhase::DiscardingNew { code } => {
                self.phase = ResizePhase::Finished;
                Step::Finish {
                    cleanup: Teardown::none(),
                    result: Err(InitError::Egl { operation: AngleOperation::MakeCurrent, code }),
                }
            },
            ResizePhase::DiscardingOld { surface } => {
                self.phase = ResizePhase::Finished;
                Step::Finish { cleanup: Teardown::none(), result: Ok(AngleContext { surface, ..c }) }
            },
            ResizePhase::Finished => Step::Finish { cleanup: Teardown::none(), result: Ok(c) },
        }
    }
}

// ---------------------------------------------------------------------------
// Creating the context
// ---------------------------------------------------------------------------

/// The Direct3D 11 device that ANGLE is asked for.
#[derive(Clone, Copy, Debug, PartialEq, Eq, Structural)]
pub enum WindowsEgl {
    /// The hardware device.
    D3D11,
    /// The WARP software rasterizer.
    D3D11Warp,
    /// The hardware device, and WARP when the hardware device fails.
    D3D11WithWarpFallback,
}

/// What the context is created with.
#[derive(Clone, Copy, Debug, PartialEq, Eq, Structural)]
pub struct AngleSettings {
    pub windows_egl: WindowsEgl,
    pub sample_count: i32,
    pub framebuffer_alpha: bool,
    pub window_width: i32,
    pub window_height: i32,
}

/// The sample count asked of EGL: the configured count when above one, else 0.
pub open spec fn samples_of(sample_count: i32) -> i32 {
    if sample_count > 1 { sample_count } else { 0 }
}

/// One initialization attempt.
#[derive(Clone, Copy, Debug, PartialEq, Eq, Structural)]
pub enum Attempt {
    Hardware,
    Warp,
    /// WARP, after the hardware device failed with `hardware`.
    WarpAfterHardware { hardware: InitError },
}

/// The device type an attempt asks ANGLE for.
pub open spec fn attempt_device(a: Attempt) -> i32 {
    match a {
        Attempt::Hardware => consts::EGL_PLATFORM_ANGLE_DEVICE_TYPE_HARDWARE_ANGLE,
        _ => consts::EGL_PLATFORM_ANGLE_DEVICE_TYPE_D3D_WARP_ANGLE,
    }
}

#[derive(Clone, Copy, Debug, PartialEq, Eq, Structural)]
pub enum SetupPhase {
    ClientExtensions,
    ClientExtensionsError,
    PlatformDisplayProc,
    GettingDisplay { attempt: Attempt },
    Initializing { attempt: Attempt },
    BindingApi { attempt: Attempt },
    ChoosingConfig { attempt: Attempt },
    CreatingContext { attempt: Attempt },
    Resizing { attempt: Attempt, resize: AngleResize },
    FetchingError { attempt: Attempt, operation: AngleOperation },
    ReleasingHardware { hardware: InitError },
    WarningHardware { hardware: InitError },
    Finished,
}

pub type SetupStep = Step<AngleContext, AngleError>;

/// Creates an OpenGL ES 3 context on a pbuffer through ANGLE's Direct3D 11
/// backend: checks ANGLE's client extensions, gets the platform display for the
/// device asked for, initializes it, binds OpenGL ES, picks a config, creates the
/// context and a pbuffer of the window size (each at least 1), and makes them
/// current. In fallback mode a failed hardware attempt is released and reported,
/// and WARP is tried. When the setup gives up, what it holds is released.
#[derive(Clone, Copy, Debug, PartialEq, Eq, Structural)]
pub struct AngleSetup {
    pub settings: AngleSettings,
    pub context: AngleContext,
    pub phase: SetupPhase,
}

/// The first call of an attempt: the platform display for its device.
pub open spec fn display_call(a: Attempt) -> EglCall {
    EglCall::GetPlatformDisplay {
        platform: consts::EGL_PLATFORM_ANGLE_ANGLE,
        device: None,
        display_attributes: Some(AttributeList::AngleDisplay { device: attempt_device(a) }),
    }
}

/// The first attempt of a mode.
pub open spec fn first_attempt(mode: WindowsEgl) -> Attempt {
    match mode {
        WindowsEgl::D3D11Warp => Attempt::Warp,
        _ => Attempt::Hardware,
    }
}

/// The first required extension missing from `list`, in order.
pub open spec fn missing_extension(list: Seq<char>) -> Option<RequiredExtension> {
    if !lists_word(list, RequiredExtension::PlatformBase.name_text()) {
        Some(RequiredExtension::PlatformBase)
    } else if !lists_word(list, RequiredExtension::PlatformAngle.name_text()) {
        Some(RequiredExtension::PlatformAngle)
    } else if !lists_word(list, RequiredExtension::PlatformAngleD3d.name_text()) {
        Some(RequiredExtension::PlatformAngleD3d)
    } else {
        None
    }
}

impl AngleSetup {
    pub open spec fn is_finished(self) -> bool {
        self.phase is Finished
    }

    /// Ends the setup with `error`, releasing what the context holds.
    pub open spec fn give_up(self, error: AngleError) -> (AngleSetup, SetupStep) {
        (
            AngleSetup { phase: SetupPhase::Finished, context: empty_context(), ..self },
            Step::Finish { cleanup: release_teardown(self.context), result: Err(error) },
        )
    }

    /// Attempt `a` failed with `e`: in fallback mode a failed hardware attempt is
    /// released and WARP comes next; otherwise the setup gives up.
    pub open spec fn attempt_failed(self, a: Attempt, e: InitError) -> (AngleSetup, SetupStep) {
        match a {
            Attempt::Hardware => if self.settings.windows_egl == WindowsEgl::D3D11WithWarpFallback {
                (
                    AngleSetup { phase: SetupPhase::ReleasingHardware { hardware: e }, context: empty_context(), ..self },
                    Step::Release(release_teardown(self.context)),
                )
            } else {
                self.give_up(AngleError::Init(e))
            },
            Attempt::Warp => self.give_up(AngleError::Init(e)),
            Attempt::WarpAfterHardware { hardware } => self.give_up(AngleError::Fallback { hardware, warp: e }),
        }
    }

    /// Operation `op` of attempt `a` failed: ask for EGL's error code.
    pub open spec fn fetch_error(self, a: Attempt, op: AngleOperation) -> (AngleSetup, SetupStep) {
        (AngleSetup { phase: SetupPhase::FetchingError { attempt: a, operation: op }, ..self }, Step::Call(EglCall::GetError))
    }

    pub open spec fn next(self, r: Reply) -> (AngleSetup, SetupStep) {
        let st = self.settings;
        let c = self.context;
        match self.phase {
            SetupPhase::ClientExtensions => match r {
                Reply::Text(Some(t)) => match missing_extension(t@) {
                    Some(x) => self.give_up(AngleError::MissingExtension(x)),
                    None => (
                        AngleSetup { phase: SetupPhase::PlatformDisplayProc, ..self },
                        Step::Call(EglCall::LookupProc { name: ProcName::GetPlatformDisplayExt }),
                    ),
                },
                _ => (AngleSetup { phase: SetupPhase::ClientExtensionsError, ..self }, Step::Call(EglCall::GetError)),
            },
            SetupPhase::ClientExtensionsError => self.give_up(AngleError::Init(InitError::Egl {
                operation: AngleOperation::QueryClientExtensions,
                code: reply_code(r),
            })),
            SetupPhase::PlatformDisplayProc => if reply_found(r) {
                let a = first_attempt(st.windows_egl);
                (AngleSetup { phase: SetupPhase::GettingDisplay { attempt: a }, ..self }, Step::Call(display_call(a)))
            } else {
                self.give_up(AngleError::MissingPlatformDisplay)
            },
            SetupPhase::GettingDisplay { attempt } => {
                let d = reply_handle(r);
                let s1 = AngleSetup { context: AngleContext { display: d, ..c }, ..self };
                if d == 0 {
                    s1.fetch_error(attempt, AngleOperation::GetPlatformDisplay)
                } else {
                    (AngleSetup { phase: SetupPhase::Initializing { attempt }, ..s1 }, Step::Call(EglCall::Initialize { display: d }))
                }
            },
            SetupPhase::Initializing { attempt } => if reply_status(r) {
                (
                    AngleSetup { phase: SetupPhase::BindingApi { attempt }, ..self },
                    Step::Call(EglCall::BindApi { api: consts::EGL_OPENGL_ES_API }),
                )
            } else {
                self.fetch_error(attempt, AngleOperation::Initialize)
            },
            SetupPhase::BindingApi { attempt } => if reply_status(r) {
                (
                    AngleSetup { phase: SetupPhase::ChoosingConfig { attempt }, ..self },
                    Step::Call(EglCall::ChooseConfig {
                        display: c.display,
                        attributes: AttributeList::AngleConfig { alpha: st.framebuffer_alpha, samples: samples_of(st.sample_count) },
                        capacity: 1,
                    }),
                )
            } else {
                self.fetch_error(attempt, AngleOperation::BindApi)
            },
            SetupPhase::ChoosingConfig { attempt } => match r {
                Reply::Chosen { ok, count, first } => {
                    let s1 = AngleSetup { context: AngleContext { config: first, ..c }, ..self };
                    if !ok {
                        s1.fetch_error(attempt, AngleOperation::ChooseConfig)
                    } else if count == 0 {
                        s1.attempt_failed(attempt, InitError::NoConfig { sample_count: st.sample_count })
                    } else {
                        (
                            AngleSetup { phase: SetupPhase::CreatingContext { attempt }, ..s1 },
                            Step::Call(EglCall::CreateContext { display: c.display, config: first, attributes: AttributeList::AngleContext }),
                        )
                    }
                },
                _ => self.fetch_error(attempt, AngleOperation::ChooseConfig),
            },
            SetupPhase::CreatingContext { attempt } => {
                let ctx = reply_handle(r);
                let c1 = AngleContext { context: ctx, ..c };
                let s1 = AngleSetup { context: c1, ..self };
                if ctx == 0 {
                    s1.fetch_error(attempt, AngleOperation::CreateContext)
                } else {
                    let w = at_least_one(st.window_width);
                    let h = at_least_one(st.window_height);
                    (
                        AngleSetup {
                            phase: SetupPhase::Resizing {
                                attempt,
                                resize: AngleResize { context: c1, width: w, height: h, phase: ResizePhase::CreatingSurface },
                            },
                            ..s1
                        },
                        Step::Call(resize_first_call(c1, w, h)),
                    )
                }
            },
            SetupPhase::Resizing { attempt, resize } => {
                let (rz, out) = resize.next(r);
                match out {
                    Step::Finish { cleanup: _, result: Ok(c2) } => (
                        AngleSetup { phase: SetupPhase::Finished, context: c2, ..self },
                        Step::Finish { cleanup: no_teardown(), result: Ok(c2) },
                    ),
                    Step::Finish { cleanup: _, result: Err(e) } => self.attempt_failed(attempt, e),
                    Step::Call(call) => (AngleSetup { phase: SetupPhase::Resizing { attempt, resize: rz }, ..self }, Step::Call(call)),
                    Step::Release(t) => (AngleSetup { phase: SetupPhase::Resizing { attempt, resize: rz }, ..self }, Step::Release(t)),
                    Step::Warn(e) => (AngleSetup { phase: SetupPhase::Resizing { attempt, resize: rz }, ..self }, Step::Warn(AngleError::Init(e))),
                }
            },
            SetupPhase::FetchingError { attempt, operation } => self.attempt_failed(
                attempt,
                InitError::Egl { operation, code: reply_code(r) },
            ),
            SetupPhase::ReleasingHardware { hardware } => (
                AngleSetup { phase: SetupPhase::WarningHardware { hardware }, ..self },
                Step::Warn(AngleError::Init(hardware)),
            ),
            SetupPhase::WarningHardware { hardware } => {
                let a = Attempt::WarpAfterHardware { hardware };
                (AngleSetup { phase: SetupPhase::GettingDisplay { attempt: a }, ..self }, Step::Call(display_call(a)))
            },
            SetupPhase::Finished => (self, Step::Finish { cleanup: no_teardown(), result: Ok(c) }),
        }
    }
}

/// Starts creating the ANGLE context: the setup and its first call, the query of
/// the client extensions (`eglQueryString(EGL_NO_DISPLAY, EGL_EXTENSIONS)`).
pub fn create_angle_context(settings: AngleSettings) -> (res: (AngleSetup, EglCall))
    ensures
        res.0 == (AngleSetup { settings, context: empty_context(), phase: SetupPhase::ClientExtensions }),
        res.1 == (EglCall::QueryExtensions { display: 0 }),
{
    (
        AngleSetup { settings, context: AngleContext::empty(), phase: SetupPhase::ClientExtensions },
        EglCall::QueryExtensions { display: 0 },
    )
}

fn first_missing_extension(list: &str) -> (m: Option<RequiredExtension>)
    ensures
        m == missing_extension(list@),
{
    if !extension_listed(list, RequiredExtension::PlatformBase.name()) {
        Some(RequiredExtension::PlatformBase)
    } else if !extension_listed(list, RequiredExtension::PlatformAngle.name()) {
        Some(RequiredExtension::PlatformAngle)
    } else if !extension_listed(list, RequiredExtension::PlatformAngleD3d.name()) {
        Some(RequiredExtension::PlatformAngleD3d)
    } else {
        None
    }
}

fn display_call_for(a: Attempt) -> (call: EglCall)
    ensures
        call == display_call(a),
{
    let device = match a {
        Attempt::Hardware => consts::EGL_PLATFORM_ANGLE_DEVICE_TYPE_HARDWARE_ANGLE,
        _ => consts::EGL_PLATFORM_ANGLE_DEVICE_TYPE_D3D_WARP_ANGLE,
    };
    EglCall::GetPlatformDisplay {
        platform: consts::EGL_PLATFORM_ANGLE_ANGLE,
        device: None,
        display_attributes: Some(AttributeList::AngleDisplay { device }),
    }
}

impl AngleSetup {
    fn give_up_with(&mut self, error: AngleError) -> (out: SetupStep)
        ensures
            (*final(self), out) == old(self).give_up(error),
    {
        let t = self.context.release();
        self.phase = SetupPhase::Finished;
        Step::Finish { cleanup: t, result: Err(error) }
    }

    fn attempt_failed_with(&mut self, a: Attempt, e: InitError) -> (out: SetupStep)
        ensures
            (*final(self), out) == old(self).attempt_failed(a, e),
    {
        match a {
            Attempt::Hardware => if self.settings.windows_egl == WindowsEgl::D3D11WithWarpFallback {
                let t = self.context.release();
                self.phase = SetupPhase::ReleasingHardware { hardware: e };
                Step::Release(t)
            } else {
                self.give_up_with(AngleError::Init(e))
            },
            Attempt::Warp => self.give_up_with(AngleError::Init(e)),
            Attempt::WarpAfterHardware { hardware } => self.give_up_with(AngleError::Fallback { hardware, warp: e }),
        }
    }

    fn fetch_error_for(&mut self, a: Attempt, op: AngleOperation) -> (out: SetupStep)
        ensures
            (*final(self), out) == old(self).fetch_error(a, op),
    {
        self.phase = SetupPhase::FetchingError { attempt: a, operation: op };
        Step::Call(EglCall::GetError)
    }

    /// Takes the reply to the last call and says what comes next.
    pub fn step(&mut self, r: &Reply) -> (out: SetupStep)
        requires
            !old(self).is_finished(),
        ensures
            (*final(self), out) == old(self).next(*r),
    {
        let st = self.settings;
        let c = self.context;
        match self.phase {
            SetupPhase::ClientExtensions => match r {
                Reply::Text(Some(t)) => match first_missing_extension(t.as_str()) {
                    Some(x) => self.give_up_with(AngleError::MissingExtension(x)),
                    None => {
                        self.phase = SetupPhase::PlatformDisplayProc;
                        Step::Call(EglCall::LookupProc { name: ProcName::GetPlatformDisplayExt })
                    },
                },
                _ => {
                    self.phase = SetupPhase::ClientExtensionsError;
                    Step::Call(EglCall::GetError)
                },
            },
            SetupPhase::ClientExtensionsError => self.give_up_with(AngleError::Init(InitError::Egl {
                operation: AngleOperation::QueryClientExtensions,
                code: r.code(),
            })),
            SetupPhase::PlatformDisplayProc => if r.found() {
                let a = match st.windows_egl {
                    WindowsEgl::D3D11Warp => Attempt::Warp,
                    _ => Attempt::Hardware,
                };
                self.phase = SetupPhase::GettingDisplay { attempt: a };
                Step::Call(display_call_for(a))
            } else {
                self.give_up_with(AngleError::MissingPlatformDisplay)
            },
            SetupPhase::GettingDisplay { attempt } => {
                let d = r.handle();
                self.context.display = d;
                if d == 0 {
                    self.fetch_error_for(attempt, AngleOperation::GetPlatformDisplay)
                } else {
                    self.phase = SetupPhase::Initializing { attempt };
                    Step::Call(EglCall::Initialize { display: d })
                }
            },
            SetupPhase::Initializing { attempt } => if r.status() {
                self.phase = SetupPhase::BindingApi { attempt };
                Step::Call(EglCall::BindApi { api: consts::EGL_OPENGL_ES_API })
            } else {
                self.fetch_error_for(attempt, AngleOperation::Initialize)
            },
            SetupPhase::BindingApi { attempt } => if r.status() {
                self.phase = SetupPhase::ChoosingConfig { attempt };
                let samples: i32 = if st.sample_count > 1 { st.sample_count } else { 0 };
                Step::Call(EglCall::ChooseConfig {
                    display: c.display,
                    attributes: AttributeList::AngleConfig { alpha: st.framebuffer_alpha, samples },
                    capacity: 1,
                })
            } else {
                self.fetch_error_for(attempt, AngleOperation::BindApi)
            },
            SetupPhase::ChoosingConfig { attempt } => match r {
                Reply::Chosen { ok, count, first } => {
                    self.context.config = *first;
                    if !*ok {
                        self.fetch_error_for(attempt, AngleOperation::ChooseConfig)
                    } else if *count == 0 {
                        self.attempt_failed_with(attempt, InitError::NoConfig { sample_count: st.sample_count })
                    } else {
                        self.phase = SetupPhase::CreatingContext { attempt };
                        Step::Call(EglCall::CreateContext { display: c.display, config: *first, attributes: AttributeList::AngleContext })
                    }
                },
                _ => self.fetch_error_for(attempt, AngleOperation::ChooseConfig),
            },
            SetupPhase::CreatingContext { attempt } => {
                let ctx = r.handle();
                self.context.context = ctx;
                if ctx == 0 {
                    self.fetch_error_for(attempt, AngleOperation::CreateContext)
                } else {
                    let w = clamp_to_one(st.window_width);
                    let h = clamp_to_one(st.window_height);
                    let (rz, call) = self.context.resize(w, h);
                    self.phase = SetupPhase::Resizing { attempt, resize: rz };
                    Step::Call(call)
                }
            },
            SetupPhase::Resizing { attempt, resize } => {
                let mut rz = resize;
                let out = rz.step(r);
                match out {
                    Step::Finish { cleanup: _, result: Ok(c2) } => {
                        self.phase = SetupPhase::Finished;
                        self.context = c2;
                        Step::Finish { cleanup: Teardown::none(), result: Ok(c2) }
                    },
                    Step::Finish { cleanup: _, result: Err(e) } => self.attempt_failed_with(attempt, e),
                    Step::Call(call) => {
                        self.phase = SetupPhase::Resizing { attempt, resize: rz };
                        Step::Call(call)
                    },
                    Step::Release(t) => {
                        self.phase = SetupPhase::Resizing { attempt, resize: rz };
                        Step::Release(t)
                    },
                    Step::Warn(e) => {
                        self.phase = SetupPhase::Resizing { attempt, resize: rz };
                        Step::Warn(AngleError::Init(e))
                    },
                }
            },
            SetupPhase::FetchingError { attempt, operation } => self.attempt_failed_with(
                attempt,
                InitError::Egl { operation, code: r.code() },
            ),
            SetupPhase::ReleasingHardware { hardware } => {
                self.phase = SetupPhase::WarningHardware { hardware };
                Step::Warn(AngleError::Init(hardware))
            },
            SetupPhase::WarningHardware { hardware } => {
                let a = Attempt::WarpAfterHardware { hardware };
                self.phase = SetupPhase::GettingDisplay { attempt: a };
                Step::Call(display_call_for(a))
            },
            SetupPhase::Finished => Step::Finish { cleanup: Teardown::none(), result: Ok(c) },
        }
    }
}

// ---------------------------------------------------------------------------
// Laws
// ---------------------------------------------------------------------------

/// Releasing a context that was already released makes no call (so the release
/// that ends a context's life is harmless after an explicit one).
pub proof fn lemma_release_twice_is_harmless(c: AngleContext)
    ensures
        release_teardown(empty_context()) == no_teardown(),
        release_teardown(c).call_seq().len() <= 4,
{
}

pub open spec fn resize_wf(rz: AngleResize) -> bool {
    match rz.phase {
        ResizePhase::MakingCurrent { surface } => surface != 0,
        ResizePhase::FetchingCurrentError { surface } => surface != 0,
        ResizePhase::DiscardingOld { surface } => surface != 0,
        _ => true,
    }
}

pub open spec fn resize_rank(phase: ResizePhase) -> nat {
    match phase {
        ResizePhase::CreatingSurface => 5,
        ResizePhase::MakingCurrent { .. } => 4,
        ResizePhase::FetchingCurrentError { .. } => 3,
        ResizePhase::DiscardingNew { .. } => 2,
        ResizePhase::FetchingCreateError => 2,
        ResizePhase::DiscardingOld { .. } => 1,
        ResizePhase::Finished => 0,
    }
}

/// A resize moves strictly forward and keeps the context it started from until it
/// succeeds; a success only swaps in the new (non-null) surface; a failure leaves
/// the context as it was.
pub proof fn lemma_resize_progress(rz: AngleResize, r: Reply)
    requires
        !rz.is_finished(),
        resize_wf(rz),
    ensures
        resize_wf(rz.next(r).0),
        rz.next(r).0.context == rz.context,
        rz.next(r).0.is_finished() <==> rz.next(r).1 is Finish,
        !rz.next(r).0.is_finished() ==> rz.next(r).1 is Call && resize_rank(rz.next(r).0.phase) < resize_rank(rz.phase),
        rz.next(r).1 matches Step::Finish { cleanup, result: Ok(c2) } ==> {
            &&& cleanup == no_teardown()
            &&& c2 == AngleContext { surface: c2.surface, ..rz.context }
            &&& c2.surface != 0
        },
{
}

/// A resize destroys the old surface only once the new one is current, and the
/// new one only when it could not be made current.
pub proof fn lemma_resize_destroys_the_right_surface(rz: AngleResize, r: Reply)
    ensures
        rz.next(r).1 matches Step::Call(EglCall::DestroySurface { display, surface }) ==> {
            ||| rz.phase is MakingCurrent && reply_status(r) && surface == rz.context.surface && surface != 0
            ||| rz.phase matches ResizePhase::FetchingCurrentError { surface: s } && surface == s
        },
{
}

/// Which attempts a mode allows.
pub open spec fn attempt_fits(mode: WindowsEgl, a: Attempt) -> bool {
    match a {
        Attempt::Hardware => mode != WindowsEgl::D3D11Warp,
        Attempt::Warp => mode == WindowsEgl::D3D11Warp,
        Attempt::WarpAfterHardware { .. } => mode == WindowsEgl::D3D11WithWarpFallback,
    }
}

pub open spec fn setup_wf(s: AngleSetup) -> bool {
    let mode = s.settings.windows_egl;
    let c = s.context;
    match s.phase {
        SetupPhase::ClientExtensions => c == empty_context(),
        SetupPhase::ClientExtensionsError => c == empty_context(),
        SetupPhase::PlatformDisplayProc => c == empty_context(),
        SetupPhase::GettingDisplay { attempt } => attempt_fits(mode, attempt) && c == empty_context(),
        SetupPhase::Initializing { attempt } => attempt_fits(mode, attempt) && c.display != 0 && c.context == 0 && c.surface == 0,
        SetupPhase::BindingApi { attempt } => attempt_fits(mode, attempt) && c.display != 0 && c.context == 0 && c.surface == 0,
        SetupPhase::ChoosingConfig { attempt } => attempt_fits(mode, attempt) && c.display != 0 && c.context == 0 && c.surface == 0,
        SetupPhase::CreatingContext { attempt } => attempt_fits(mode, attempt) && c.display != 0 && c.context == 0 && c.surface == 0,
        SetupPhase::Resizing { attempt, resize } => {
            &&& attempt_fits(mode, attempt)
            &&& c.display != 0 && c.context != 0 && c.surface == 0
            &&& resize.context == c
            &&& !resize.is_finished()
            &&& resize_wf(resize)
        },
        SetupPhase::FetchingError { attempt, .. } => attempt_fits(mode, attempt) && c.surface == 0,
        SetupPhase::ReleasingHardware { .. } => mode == WindowsEgl::D3D11WithWarpFallback && c == empty_context(),
        SetupPhase::WarningHardware { .. } => mode == WindowsEgl::D3D11WithWarpFallback && c == empty_context(),
        SetupPhase::Finished => true,
    }
}

pub open spec fn attempt_weight(mode: WindowsEgl, a: Attempt) -> nat {
    if a is Hardware && mode == WindowsEgl::D3D11WithWarpFallback { 30 } else { 0 }
}

pub open spec fn setup_rank(s: AngleSetup) -> nat {
    let mode = s.settings.windows_egl;
    match s.phase {
        SetupPhase::ClientExtensions => 100,
        SetupPhase::ClientExtensionsError => 99,
        SetupPhase::PlatformDisplayProc => 98,
        SetupPhase::GettingDisplay { attempt } => attempt_weight(mode, attempt) + 20,
        SetupPhase::Initializing { attempt } => attempt_weight(mode, attempt) + 19,
        SetupPhase::BindingApi { attempt } => attempt_weight(mode, attempt) + 18,
        SetupPhase::ChoosingConfig { attempt } => attempt_weight(mode, attempt) + 17,
        SetupPhase::CreatingContext { attempt } => attempt_weight(mode, attempt) + 16,
        SetupPhase::Resizing { attempt, resize } => attempt_weight(mode, attempt) + 2 + resize_rank(resize.phase),
        SetupPhase::FetchingError { attempt, .. } => attempt_weight(mode, attempt) + 1,
        SetupPhase::ReleasingHardware { .. } => 23,
        SetupPhase::WarningHardware { .. } => 22,
        SetupPhase::Finished => 0,
    }
}

/// The ANGLE setup moves strictly forward (so it ends after at most 100 steps),
/// asks only for the devices its mode allows (WARP in fallback mode only after
/// the hardware device failed), asks for a pbuffer of at least one pixel a side,
/// and a context it returns holds a non-null display, context and surface.
pub proof fn lemma_setup_progress(s: AngleSetup, r: Reply)
    requires
        !s.is_finished(),
        setup_wf(s),
    ensures
        setup_wf(s.next(r).0),
        s.next(r).0.settings == s.settings,
        s.next(r).0.is_finished() <==> s.next(r).1 is Finish,
        !s.next(r).0.is_finished() ==> setup_rank(s.next(r).0) < setup_rank(s),
        s.next(r).1 matches Step::Finish { cleanup, result: Ok(c) } ==> {
            &&& cleanup == no_teardown()
            &&& c.display != 0 && c.context != 0 && c.surface != 0
        },
        s.next(r).1 matches Step::Call(EglCall::CreatePbufferSurface { attributes: AttributeList::Pbuffer { width, height }, .. })
            ==> width >= 1 && height >= 1,
{
    if let SetupPhase::Resizing { attempt, resize } = s.phase {
        lemma_resize_progress(resize, r);
    }
}

/// Whenever the ANGLE setup gives up, it releases everything the context holds
/// (as dropping the context would), and a failed hardware attempt in fallback mode
/// is released the same way before WARP is tried.
pub proof fn lemma_setup_failure_releases_everything(s: AngleSetup, r: Reply)
    requires
        !s.is_finished(),
    ensures
        s.next(r).1 matches Step::Finish { cleanup, result: Err(_) } ==> {
            &&& cleanup == release_teardown(s.context)
            &&& s.next(r).0.context == empty_context()
        },
        s.next(r).1 matches Step::Release(t) ==> {
            &&& t == release_teardown(s.context)
            &&& s.next(r).0.context == empty_context()
            &&& s.settings.windows_egl == WindowsEgl::D3D11WithWarpFallback
        },
{
}

/// Every display the ANGLE setup asks for uses the Direct3D 11 renderer with the
/// device its mode allows: the hardware device, WARP, or (in fallback mode) WARP
/// after the hardware device failed.
pub proof fn lemma_setup_devices(s: AngleSetup, r: Reply)
    requires
        !s.is_finished(),
        setup_wf(s),
    ensures
        s.next(r).1 matches Step::Call(EglCall::GetPlatformDisplay { platform, device, display_attributes }) ==> {
            &&& platform == consts::EGL_PLATFORM_ANGLE_ANGLE
            &&& device is None
            &&& s.next(r).0.phase matches SetupPhase::GettingDisplay { attempt }
            &&& display_attributes == Some(AttributeList::AngleDisplay { device: attempt_device(attempt) })
            &&& attempt_fits(s.settings.windows_egl, attempt)
        },
{
    lemma_setup_progress(s, r);
    if let SetupPhase::Resizing { attempt, resize } = s.phase {
        lemma_resize_progress(resize, r);
    }
}


/// Once ANGLE's API is bound, the setup asks for one config of its display with
/// the framebuffer alpha asked for, and asks for multisampling only when more than
/// one sample was configured: then with that many samples, otherwise with none
/// (a sample count of 0 or 1 means no multisampling).
pub proof fn lemma_angle_config_request(s: AngleSetup, attempt: Attempt)
    requires
        s.phase == (SetupPhase::BindingApi { attempt }),
    ensures
        s.next(Reply::Status(true)).1 == SetupStep::Call(EglCall::ChooseConfig {
            display: s.context.display,
            attributes: AttributeList::AngleConfig {
                alpha: s.settings.framebuffer_alpha,
                samples: if s.settings.sample_count > 1 { s.settings.sample_count } else { 0 },
            },
            capacity: 1,
        }),
{
}

} // verus!
