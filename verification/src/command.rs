use vstd::prelude::*;
use crate::attrib::AttributeList;

verus! {

/// Extension entry points looked up with `eglGetProcAddress`.
#[derive(Clone, Copy, Debug, PartialEq, Eq, Structural)]
pub enum ProcName {
    /// `eglGetPlatformDisplayEXT`
    GetPlatformDisplayExt,
    /// `eglQueryDevicesEXT`
    QueryDevicesExt,
}

/// One call into EGL (or into the process environment) that a setup machine asks
/// the host to make. Handles are the addresses of EGL objects, 0 for none.
#[derive(Clone, Copy, Debug, PartialEq, Eq, Structural)]
pub enum EglCall {
    /// `eglGetProcAddress(name)`; reply `Found`.
    LookupProc { name: ProcName },
    /// `eglQueryDevicesEXT(0, NULL, &count)`; reply `Count`.
    CountDevices,
    /// `eglQueryDevicesEXT(capacity, devices, &count)` into a fresh array of
    /// `capacity` null devices that the host keeps; reply `Count`.
    ListDevices { capacity: i32 },
    /// Read the `PHI_RENDERER_EGL_DEVICE` environment variable; reply `Text`
    /// (`None` when unset or not Unicode).
    ReadDeviceSelection,
    /// `eglGetPlatformDisplayEXT(platform, native, display_attributes)` where `native`
    /// is entry `device` of the listed devices, or NULL, and the attributes are NULL when
    /// absent; reply `Handle`.
    GetPlatformDisplay { platform: u32, device: Option<usize>, display_attributes: Option<AttributeList> },
    /// `eglGetDisplay(native display of the window)`; reply `Handle`.
    GetDisplay,
    /// `eglInitialize(display, NULL, NULL)`; reply `Status`.
    Initialize { display: usize },
    /// `eglBindAPI(api)`; reply `Status`.
    BindApi { api: u32 },
    /// `eglChooseConfig(display, attributes, configs, capacity, &count)` into an array
    /// of `capacity` null configs that the host keeps; reply `Chosen`.
    ChooseConfig { display: usize, attributes: AttributeList, capacity: i32 },
    /// `eglGetConfigAttrib(display, config, attribute, &value)` for entry `index`
    /// of the chosen configs; reply `Attrib`.
    QueryConfigAttrib { display: usize, index: usize, attribute: u32 },
    /// `eglQueryString(display, EGL_EXTENSIONS)`; reply `Text` (`None` for NULL).
    QueryExtensions { display: usize },
    /// `eglCreateContext(display, config, EGL_NO_CONTEXT, attributes)`; reply `Handle`.
    CreateContext { display: usize, config: usize, attributes: AttributeList },
    /// `eglCreatePbufferSurface(display, config, attributes)`; reply `Handle`.
    CreatePbufferSurface { display: usize, config: usize, attributes: AttributeList },
    /// `eglMakeCurrent(display, draw, read, context)`; reply `Status`.
    MakeCurrent { display: usize, draw: usize, read: usize, context: usize },
    /// `eglDestroySurface(display, surface)`; the reply is not read.
    DestroySurface { display: usize, surface: usize },
    /// `eglDestroyContext(display, context)`; the reply is not read.
    DestroyContext { display: usize, context: usize },
    /// `eglTerminate(display)`; the reply is not read.
    Terminate { display: usize },
    /// `eglGetError()`; reply `Code`.
    GetError,
}

/// One `eglGetConfigAttrib` answer: the returned `EGLBoolean` and the value written.
#[derive(Clone, Copy, Debug, PartialEq, Eq, Structural)]
pub struct AttribQuery {
    pub status: u32,
    pub value: i32,
}

/// The answers that one config would give to the five attribute queries (red,
/// green, blue, alpha and depth size), in that order.
#[derive(Clone, Copy, Debug, PartialEq, Eq, Structural)]
pub struct ConfigQuery {
    pub config: usize,
    pub red: AttribQuery,
    pub green: AttribQuery,
    pub blue: AttribQuery,
    pub alpha: AttribQuery,
    pub depth: AttribQuery,
}

/// What the host hands back after a call.
#[derive(Debug)]
pub enum Reply {
    /// Whether the entry point was found.
    Found(bool),
    /// Whether the call returned true, and the count it wrote.
    Count { ok: bool, count: i32 },
    /// A returned handle, 0 for none.
    Handle(usize),
    /// Whether the returned `EGLBoolean` was not `EGL_FALSE`.
    Status(bool),
    /// `eglChooseConfig`: whether it returned true, the count it wrote, and the
    /// first entry of the config array afterwards.
    Chosen { ok: bool, count: i32, first: usize },
    /// One `eglGetConfigAttrib` answer for `config`: the returned `EGLBoolean` and
    /// the value written.
    Attrib { config: usize, status: u32, value: i32 },
    /// A string (lossily decoded), or none.
    Text(Option<String>),
    /// An error code.
    Code(i32),
    /// The call was made; nothing to report.
    Done,
}

pub open spec fn reply_found(r: Reply) -> bool {
    match r {
        Reply::Found(b) => b,
        _ => false,
    }
}

pub open spec fn reply_handle(r: Reply) -> usize {
    match r {
        Reply::Handle(h) => h,
        _ => 0,
    }
}

pub open spec fn reply_status(r: Reply) -> bool {
    match r {
        Reply::Status(b) => b,
        _ => false,
    }
}

pub open spec fn reply_code(r: Reply) -> i32 {
    match r {
        Reply::Code(c) => c,
        _ => 0,
    }
}

impl Reply {
    /// `Found(b)` gives `b`; any other reply counts as not found.
    pub fn found(&self) -> (b: bool)
        ensures
            b == reply_found(*self),
    {
        match self {
            Reply::Found(b) => *b,
            _ => false,
        }
    }

    /// `Handle(h)` gives `h`; any other reply counts as no handle.
    pub fn handle(&self) -> (h: usize)
        ensures
            h == reply_handle(*self),
    {
        match self {
            Reply::Handle(h) => *h,
            _ => 0,
        }
    }

    /// `Status(b)` gives `b`; any other reply counts as failure.
    pub fn status(&self) -> (b: bool)
        ensures
            b == reply_status(*self),
    {
        match self {
            Reply::Status(b) => *b,
            _ => false,
        }
    }

    /// `Code(c)` gives `c`; any other reply counts as 0.
    pub fn code(&self) -> (c: i32)
        ensures
            c == reply_code(*self),
    {
        match self {
            Reply::Code(c) => *c,
            _ => 0,
        }
    }
}

/// The release calls that end a context's life, made in this order:
/// `eglMakeCurrent(display, NULL, NULL, NULL)` when `unbind`, then the surface and
/// the context that are given, then `eglTerminate(display)` when `terminate`.
#[derive(Clone, Copy, Debug, PartialEq, Eq, Structural)]
pub struct Teardown {
    pub display: usize,
    pub unbind: bool,
    pub surface: Option<usize>,
    pub context: Option<usize>,
    pub terminate: bool,
}

/// No call at all.
pub open spec fn no_teardown() -> Teardown {
    Teardown { display: 0, unbind: false, surface: None, context: None, terminate: false }
}

impl Teardown {
    /// The calls, in order.
    pub open spec fn call_seq(self) -> Seq<EglCall> {
        let d = self.display;
        (if self.unbind {
            seq![EglCall::MakeCurrent { display: d, draw: 0, read: 0, context: 0 }]
        } else {
            Seq::empty()
        }) + (match self.surface {
            Some(s) => seq![EglCall::DestroySurface { display: d, surface: s }],
            None => Seq::empty(),
        }) + (match self.context {
            Some(c) => seq![EglCall::DestroyContext { display: d, context: c }],
            None => Seq::empty(),
        }) + (if self.terminate {
            seq![EglCall::Terminate { display: d }]
        } else {
            Seq::empty()
        })
    }

    /// No call at all.
    pub fn none() -> (t: Teardown)
        ensures
            t == no_teardown(),
    {
        Teardown { display: 0, unbind: false, surface: None, context: None, terminate: false }
    }

    /// The calls, in the order to make them.
    pub fn calls(&self) -> (v: Vec<EglCall>)
        ensures
            v@ == self.call_seq(),
    {
        let d = self.display;
        let mut v: Vec<EglCall> = Vec::new();
        if self.unbind {
            v.push(EglCall::MakeCurrent { display: d, draw: 0, read: 0, context: 0 });
        }
        match self.surface {
            Some(s) => v.push(EglCall::DestroySurface { display: d, surface: s }),
            None => {},
        }
        match self.context {
            Some(c) => v.push(EglCall::DestroyContext { display: d, context: c }),
            None => {},
        }
        if self.terminate {
            v.push(EglCall::Terminate { display: d });
        }
        assert(v@ =~= self.call_seq());
        v
    }
}

/// What a setup machine asks for next.
#[derive(Debug)]
pub enum Step<T, E> {
    /// Make this call and hand back its reply.
    Call(EglCall),
    /// Make the teardown calls, then hand back `Done`.
    Release(Teardown),
    /// Report this error as a warning, then hand back `Done`.
    Warn(E),
    /// The machine is done: make the teardown calls, then return `result`.
    Finish { cleanup: Teardown, result: Result<T, E> },
}

} // verus!
