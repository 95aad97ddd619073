use vstd::prelude::*;
use crate::attrib::{AttributeList, alpha_bits};
use crate::command::{ConfigQuery, EglCall, Reply, Step, Teardown, no_teardown, reply_handle, reply_status};
use crate::config::{
    ConfigRule, ConfigSearch, SearchStep, attrib_call, first_passing, lemma_search_chooses_first_passing,
    lemma_search_progress, no_values, search_replies, search_result, search_test,
};
use crate::consts;
use crate::error::EglError;

verus! {

/// The EGL entry points come from the host, which loads the EGL library; this
/// type stands for that library in this crate's interface.
pub struct Egl {}

/// A desktop EGL context for a window: the context, the config it was made with,
/// and its display.
#[derive(Clone, Copy, Debug, PartialEq, Eq, Structural)]
pub struct WindowEglContext {
    pub context: usize,
    pub config: usize,
    pub display: usize,
}

/// Where the window setup stands.
#[derive(Clone, Copy, Debug, PartialEq, Eq, Structural)]
pub enum WindowPhase {
    GettingDisplay,
    Initializing { display: usize },
    ChoosingConfig { display: usize },
    CheckingConfig { search: ConfigSearch },
    CreatingContext { display: usize, config: usize },
    Finished,
}

pub type WindowStep = Step<WindowEglContext, EglError>;

/// Creates an OpenGL ES 2 context for a window: gets and initializes the display
/// of the native display, asks for up to 32 window configs with 8-bit colour,
/// 16-bit depth, no stencil and `sample_count` samples, takes the first whose
/// attributes match exactly (else the first one), and creates the context.
#[derive(Clone, Copy, Debug, PartialEq, Eq, Structural)]
pub struct WindowSetup {
    pub alpha: bool,
    pub sample_count: i32,
    pub phase: WindowPhase,
}

/// The window config counts that the setup takes: from 1 to 32. `step` requires
/// such a count at `ChoosingConfig`; a host handed any other count panics instead
/// (see `accepts`).
pub open spec fn window_count_valid(count: i32) -> bool {
    0 < count <= consts::CONFIG_CAPACITY
}

impl WindowSetup {
    pub open spec fn is_finished(self) -> bool {
        self.phase is Finished
    }

    /// Whether the reply is one the setup can take: at `ChoosingConfig` it must be
    /// a `Chosen` reply with a count from 1 to 32.
    pub open spec fn admits(self, r: Reply) -> bool {
        match self.phase {
            WindowPhase::ChoosingConfig { .. } => match r {
                Reply::Chosen { ok: _, count, first: _ } => window_count_valid(count),
                _ => false,
            },
            _ => true,
        }
    }

    /// The setup's next state and request, given the reply to its last call.
    pub open spec fn next(self, r: Reply) -> (WindowSetup, WindowStep) {
        let s = self;
        let done = WindowSetup { phase: WindowPhase::Finished, ..s };
        match self.phase {
            WindowPhase::GettingDisplay => {
                let d = reply_handle(r);
                if d == 0 {
                    (done, Step::Finish { cleanup: no_teardown(), result: Err(EglError::NoDisplay) })
                } else {
                    (WindowSetup { phase: WindowPhase::Initializing { display: d }, ..s }, Step::Call(EglCall::Initialize { display: d }))
                }
            },
            WindowPhase::Initializing { display } => if reply_status(r) {
                (WindowSetup { phase: WindowPhase::ChoosingConfig { display }, ..s }, Step::Call(EglCall::ChooseConfig {
                    display,
                    attributes: AttributeList::WindowConfig { alpha: s.alpha, sample_count: s.sample_count },
                    capacity: consts::CONFIG_CAPACITY,
                }))
            } else {
                (done, Step::Finish { cleanup: no_teardown(), result: Err(EglError::InitializeFailed) })
            },
            WindowPhase::ChoosingConfig { display } => match r {
                Reply::Chosen { ok: _, count, first } => (
                    WindowSetup {
                        phase: WindowPhase::CheckingConfig {
                            search: ConfigSearch {
                                display,
                                index: 0,
                                count: count as usize,
                                first,
                                attribute: 0,
                                values: no_values(),
                                rule: ConfigRule::WindowExact,
                                alpha_size: alpha_bits(s.alpha),
                            },
                        },
                        ..s
                    },
                    Step::Call(attrib_call(display, 0, 0)),
                ),
                _ => (done, Step::Finish { cleanup: no_teardown(), result: Err(EglError::NoConfig) }),
            },
            WindowPhase::CheckingConfig { search } => match search.next(r) {
                (search2, SearchStep::Ask(call)) => (WindowSetup { phase: WindowPhase::CheckingConfig { search: search2 }, ..s }, Step::Call(call)),
                (_, SearchStep::Chosen(config)) => (
                    WindowSetup { phase: WindowPhase::CreatingContext { display: search.display, config }, ..s },
                    Step::Call(EglCall::CreateContext { display: search.display, config, attributes: AttributeList::WindowContext }),
                ),
            },
            WindowPhase::CreatingContext { display, config } => {
                let c = reply_handle(r);
                if c == 0 {
                    (done, Step::Finish { cleanup: no_teardown(), result: Err(EglError::CreateContextFailed) })
                } else {
                    (done, Step::Finish { cleanup: no_teardown(), result: Ok(WindowEglContext { context: c, config, display }) })
                }
            },
            // A finished setup is not stepped again (`step` requires so); this arm
            // only keeps the function total.
            WindowPhase::Finished => (s, Step::Finish { cleanup: no_teardown(), result: Err(EglError::NoDisplay) }),
        }
    }

    /// Whether a reply can be handed to `step` (see `admits`).
    pub fn accepts(&self, r: &Reply) -> (b: bool)
        ensures
            b == self.admits(*r),
    {
        match self.phase {
            WindowPhase::ChoosingConfig { .. } => match r {
                Reply::Chosen { ok: _, count, first: _ } => 0 < *count && *count <= consts::CONFIG_CAPACITY,
                _ => false,
            },
            _ => true,
        }
    }

    /// Takes the reply to the last call and says what comes next.
    pub fn step(&mut self, r: &Reply) -> (out: WindowStep)
        requires
            !old(self).is_finished(),
            old(self).admits(*r),
        ensures
            (*final(self), out) == old(self).next(*r),
    {
        match self.phase {
            WindowPhase::GettingDisplay => {
                let d = r.handle();
                if d == 0 {
                    self.phase = WindowPhase::Finished;
                    Step::Finish { cleanup: Teardown::none(), result: Err(EglError::NoDisplay) }
                } else {
                    self.phase = WindowPhase::Initializing { display: d };
                    Step::Call(EglCall::Initialize { display: d })
                }
            },
            WindowPhase::Initializing { display } => if r.status() {
                self.phase = WindowPhase::ChoosingConfig { display };
                Step::Call(EglCall::ChooseConfig {
                    display,
                    attributes: AttributeList::WindowConfig { alpha: self.alpha, sample_count: self.sample_count },
                    capacity: consts::CONFIG_CAPACITY,
                })
            } else {
                self.phase = WindowPhase::Finished;
                Step::Finish { cleanup: Teardown::none(), result: Err(EglError::InitializeFailed) }
            },
            WindowPhase::ChoosingConfig { display } => match r {
                Reply::Chosen { ok: _, count, first } => {
                    let alpha_size: i32 = if self.alpha { 8 } else { 0 };
                    let (search, call) = ConfigSearch::start(display, *count as usize, *first, ConfigRule::WindowExact, alpha_size);
                    self.phase = WindowPhase::CheckingConfig { search };
                    Step::Call(call)
                },
                _ => {
                    self.phase = WindowPhase::Finished;
                    Step::Finish { cleanup: Teardown::none(), result: Err(EglError::NoConfig) }
                },
            },
            WindowPhase::CheckingConfig { search } => {
                let mut search2 = search;
                match search2.step(r) {
                    SearchStep::Ask(call) => {
                        self.phase = WindowPhase::CheckingConfig { search: search2 };
                        Step::Call(call)
                    },
                    SearchStep::Chosen(config) => {
                        self.phase = WindowPhase::CreatingContext { display: search.display, config };
                        Step::Call(EglCall::CreateContext { display: search.display, config, attributes: AttributeList::WindowContext })
                    },
                }
            },
            WindowPhase::CreatingContext { display, config } => {
                let c = r.handle();
                self.phase = WindowPhase::Finished;
                if c == 0 {
                    Step::Finish { cleanup: Teardown::none(), result: Err(EglError::CreateContextFailed) }
                } else {
                    Step::Finish { cleanup: Teardown::none(), result: Ok(WindowEglContext { context: c, config, display }) }
                }
            },
            WindowPhase::Finished => Step::Finish { cleanup: Teardown::none(), result: Err(EglError::NoDisplay) },
        }
    }
}

/// Starts creating a window context: the setup and its first call,
/// `eglGetDisplay` of the window's native display.
pub fn create_egl_context(alpha: bool, sample_count: i32) -> (res: (WindowSetup, EglCall))
    ensures
        res.0 == (WindowSetup { alpha, sample_count, phase: WindowPhase::GettingDisplay }),
        res.1 == EglCall::GetDisplay,
{
    (WindowSetup { alpha, sample_count, phase: WindowPhase::GettingDisplay }, EglCall::GetDisplay)
}

// ---------------------------------------------------------------------------
// Laws
// ---------------------------------------------------------------------------

pub open spec fn window_phase_wf(phase: WindowPhase) -> bool {
    match phase {
        WindowPhase::Initializing { display } => display != 0,
        WindowPhase::ChoosingConfig { display } => display != 0,
        WindowPhase::CheckingConfig { search } => search.display != 0 && search.wf(),
        WindowPhase::CreatingContext { display, .. } => display != 0,
        _ => true,
    }
}

pub open spec fn window_rank(phase: WindowPhase) -> nat {
    match phase {
        WindowPhase::GettingDisplay => 240,
        WindowPhase::Initializing { .. } => 239,
        WindowPhase::ChoosingConfig { .. } => 238,
        WindowPhase::CheckingConfig { search } => (1 + 5 * (search.count - search.index) - search.attribute) as nat,
        WindowPhase::CreatingContext { .. } => 1,
        WindowPhase::Finished => 0,
    }
}

/// The window setup moves strictly forward, never releases anything when it
/// fails, and a context it returns has a non-null display and context.
pub proof fn lemma_window_progress(s: WindowSetup, r: Reply)
    requires
        !s.is_finished(),
        s.admits(r),
        window_phase_wf(s.phase),
    ensures
        window_phase_wf(s.next(r).0.phase),
        s.next(r).0.is_finished() <==> s.next(r).1 is Finish,
        !s.next(r).0.is_finished() ==> s.next(r).1 is Call && window_rank(s.next(r).0.phase) < window_rank(s.phase),
        s.next(r).1 matches Step::Finish { cleanup, result } ==> cleanup == no_teardown(),
        s.next(r).1 matches Step::Finish { cleanup, result: Ok(ctx) } ==> ctx.display != 0 && ctx.context != 0,
{
    if let WindowPhase::CheckingConfig { search } = s.phase {
        lemma_search_progress(search, r);
    }
}

/// The setup after the replies `rs`, stopping once it leaves the config search.
pub open spec fn after_window_checks(s: WindowSetup, rs: Seq<Reply>) -> WindowSetup
    decreases rs.len(),
{
    if rs.len() == 0 || !(s.phase is CheckingConfig) {
        s
    } else {
        after_window_checks(s.next(rs[0]).0, rs.drop_first())
    }
}

proof fn lemma_window_checks_follow_search(s: WindowSetup, rs: Seq<Reply>)
    requires
        s.phase is CheckingConfig,
        search_result(s.phase->search, rs) is Some,
    ensures
        after_window_checks(s, rs).phase == (WindowPhase::CreatingContext {
            display: s.phase->search.display,
            config: search_result(s.phase->search, rs)->0,
        }),
    decreases rs.len(),
{
    let search = s.phase->search;
    let s1 = s.next(rs[0]).0;
    assert(after_window_checks(s, rs) == after_window_checks(s1, rs.drop_first()));
    match search.next(rs[0]).1 {
        SearchStep::Chosen(c) => {
            assert(after_window_checks(s1, rs.drop_first()) == s1);
        },
        SearchStep::Ask(_) => {
            lemma_window_checks_follow_search(s1, rs.drop_first());
        },
    }
}

/// The window setup creates its context with the first of the configs EGL
/// returned whose attribute queries all return `EGL_TRUE` and whose sizes match
/// exactly, and with the first config EGL returned when none does. It asks each
/// config's red, green, blue, alpha and depth sizes in turn and stops asking a
/// config at its first query that does not return `EGL_TRUE`.
pub proof fn lemma_window_config_choice(s: WindowSetup, qs: Seq<ConfigQuery>)
    requires
        s.phase is CheckingConfig,
        s.phase->search == (ConfigSearch {
            index: 0,
            attribute: 0,
            values: no_values(),
            count: qs.len() as usize,
            rule: ConfigRule::WindowExact,
            alpha_size: alpha_bits(s.alpha),
            ..s.phase->search
        }),
        0 < qs.len() <= 32,
    ensures
        after_window_checks(s, search_replies(ConfigRule::WindowExact, qs)).phase == (WindowPhase::CreatingContext {
            display: s.phase->search.display,
            config: first_passing(qs, search_test(ConfigRule::WindowExact, alpha_bits(s.alpha)), s.phase->search.first),
        }),
{
    lemma_search_chooses_first_passing(s.phase->search, qs);
    lemma_window_checks_follow_search(s, search_replies(ConfigRule::WindowExact, qs));
}


/// Once its display is initialized, the window setup asks that display for up to
/// 32 configs with the alpha and sample count it was given; with EGL's configs in
/// hand it asks the red size of the first one, and tests each config with the
/// exact window test, wanting an 8-bit alpha channel when alpha was asked for and
/// any alpha otherwise.
pub proof fn lemma_window_config_requests(s: WindowSetup, display: usize, ok: bool, count: i32, first: usize)
    ensures
        s.phase == (WindowPhase::Initializing { display }) ==> s.next(Reply::Status(true)).1 == WindowStep::Call(
            EglCall::ChooseConfig {
                display,
                attributes: AttributeList::WindowConfig { alpha: s.alpha, sample_count: s.sample_count },
                capacity: 32,
            },
        ),
        s.phase == (WindowPhase::ChoosingConfig { display }) && 0 < count <= 32 ==> {
            let (s1, out) = s.next(Reply::Chosen { ok, count, first });
            &&& out == WindowStep::Call(EglCall::QueryConfigAttrib { display, index: 0, attribute: consts::EGL_RED_SIZE })
            &&& s1.phase is CheckingConfig
            &&& s1.phase->search.display == display
            &&& s1.phase->search.count == count
            &&& s1.phase->search.first == first
            &&& s1.phase->search.rule == ConfigRule::WindowExact
            &&& s1.phase->search.alpha_size == (if s.alpha { 8i32 } else { 0i32 })
        },
{
}

} // verus!
