use vstd::prelude::*;

verus! {

// ---------------------------------------------------------------------------
// Quitting
// ---------------------------------------------------------------------------

/// The quit flags of the shared display state.
#[derive(Clone, Copy, Debug, PartialEq, Eq, Structural)]
pub struct QuitFlags {
    pub quit_requested: bool,
    pub quit_ordered: bool,
}

/// What a quit check decides before the event handler is involved.
#[derive(Clone, Copy, Debug, PartialEq, Eq, Structural)]
pub enum QuitCheck {
    /// Quit was ordered: leave the loop.
    Quit,
    /// Quit was requested: tell the handler (`quit_requested_event`), then decide
    /// with `confirm_quit` on the flags as they are afterwards.
    AskHandler,
    /// Nothing to do.
    Continue,
}

pub open spec fn quit_check(flags: QuitFlags) -> QuitCheck {
    if flags.quit_ordered {
        QuitCheck::Quit
    } else if flags.quit_requested {
        QuitCheck::AskHandler
    } else {
        QuitCheck::Continue
    }
}

/// Whether the loop should stop: an ordered quit stops it at once; a requested
/// quit is first shown to the handler, which may withdraw it.
pub fn quit_requested(flags: QuitFlags) -> (check: QuitCheck)
    ensures
        check == quit_check(flags),
{
    if flags.quit_ordered {
        QuitCheck::Quit
    } else if flags.quit_requested {
        QuitCheck::AskHandler
    } else {
        QuitCheck::Continue
    }
}

/// After the handler saw a quit request: a request that still stands becomes an
/// order. Returns whether quit is ordered.
pub fn confirm_quit(flags: &mut QuitFlags) -> (quit: bool)
    ensures
        final(flags).quit_requested == old(flags).quit_requested,
        final(flags).quit_ordered == (old(flags).quit_ordered || old(flags).quit_requested),
        quit == final(flags).quit_ordered,
{
    if flags.quit_requested {
        flags.quit_ordered = true;
    }
    flags.quit_ordered
}

/// Quitting is final: an ordered quit stops every later check, and confirming a
/// quit never withdraws an order. The handler is consulted only about a request
/// that is not yet an order, and a request it lets stand becomes an order.
pub proof fn lemma_quit_is_final(flags: QuitFlags)
    ensures
        flags.quit_ordered ==> quit_check(flags) == QuitCheck::Quit,
        quit_check(flags) == QuitCheck::AskHandler ==> flags.quit_requested && !flags.quit_ordered,
        quit_check(flags) == QuitCheck::Continue ==> !flags.quit_requested && !flags.quit_ordered,
{
}

// ---------------------------------------------------------------------------
// Requests
// ---------------------------------------------------------------------------

/// What the loop reads of a request sent to the window.
#[derive(Clone, Copy, Debug, PartialEq, Eq, Structural)]
pub enum RequestKind {
    ScheduleUpdate,
    SetWindowSize { new_width: u32, new_height: u32 },
    /// Any request a pbuffer has nothing to do for (cursor, mouse, position,
    /// fullscreen, keyboard, IME, text input).
    Other,
}

/// A window size that a pbuffer cannot have.
#[derive(Clone, Copy, Debug, PartialEq, Eq, Structural)]
pub enum SizeError {
    WidthTooLarge,
    HeightTooLarge,
}

impl SizeError {
    pub open spec fn message_text(self) -> Seq<char> {
        match self {
            SizeError::WidthTooLarge => "pbuffer width exceeds i32::MAX"@,
            SizeError::HeightTooLarge => "pbuffer height exceeds i32::MAX"@,
        }
    }

    pub fn message(&self) -> (s: String)
        ensures
            s@ == self.message_text(),
    {
        match self {
            SizeError::WidthTooLarge => String::from_str("pbuffer width exceeds i32::MAX"),
            SizeError::HeightTooLarge => String::from_str("pbuffer height exceeds i32::MAX"),
        }
    }
}

/// A pbuffer size.
#[derive(Clone, Copy, Debug, PartialEq, Eq, Structural)]
pub struct PbufferSize {
    pub width: i32,
    pub height: i32,
}

/// What to do for a request: resize the pbuffer to `resize` (then record the new
/// screen size and tell the handler), and whether a frame is due afterwards.
#[derive(Clone, Copy, Debug, PartialEq, Eq, Structural)]
pub struct RequestPlan {
    pub resize: Option<PbufferSize>,
    pub update: bool,
}

pub open spec fn size_at_least_one(v: u32) -> i32 {
    if v < 1 { 1 } else { v as i32 }
}

pub open spec fn request_plan(request: RequestKind, screen_width: i32, screen_height: i32) -> Result<RequestPlan, SizeError> {
    match request {
        RequestKind::ScheduleUpdate => Ok(RequestPlan { resize: None, update: true }),
        RequestKind::SetWindowSize { new_width, new_height } => if new_width > i32::MAX {
            Err(SizeError::WidthTooLarge)
        } else if new_height > i32::MAX {
            Err(SizeError::HeightTooLarge)
        } else {
            let w = size_at_least_one(new_width);
            let h = size_at_least_one(new_height);
            Ok(RequestPlan {
                resize: if w != screen_width || h != screen_height { Some(PbufferSize { width: w, height: h }) } else { None },
                update: true,
            })
        },
        RequestKind::Other => Ok(RequestPlan { resize: None, update: false }),
    }
}

/// Decides what a request asks of the loop, given the current screen size: an
/// update request schedules a frame; a size request (each side at least 1, at most
/// `i32::MAX`) resizes the pbuffer when the size changes, and schedules a frame.
pub fn process_request(request: RequestKind, screen_width: i32, screen_height: i32) -> (plan: Result<RequestPlan, SizeError>)
    ensures
        plan == request_plan(request, screen_width, screen_height),
{
    match request {
        RequestKind::ScheduleUpdate => Ok(RequestPlan { resize: None, update: true }),
        RequestKind::SetWindowSize { new_width, new_height } => if new_width > 0x7fff_ffffu32 {
            Err(SizeError::WidthTooLarge)
        } else if new_height > 0x7fff_ffffu32 {
            Err(SizeError::HeightTooLarge)
        } else {
            let w: i32 = if new_width < 1 { 1 } else { new_width as i32 };
            let h: i32 = if new_height < 1 { 1 } else { new_height as i32 };
            Ok(RequestPlan {
                resize: if w != screen_width || h != screen_height { Some(PbufferSize { width: w, height: h }) } else { None },
                update: true,
            })
        },
        RequestKind::Other => Ok(RequestPlan { resize: None, update: false }),
    }
}

/// A size request never resizes the pbuffer below one pixel a side, nor to the
/// size it already has, and it always schedules a frame once it is accepted.
pub proof fn lemma_resize_plans_are_sane(request: RequestKind, screen_width: i32, screen_height: i32)
    ensures
        request_plan(request, screen_width, screen_height) matches Ok(plan) ==> {
            &&& plan.resize matches Some(size) ==> {
                &&& size.width >= 1 && size.height >= 1
                &&& (size.width != screen_width || size.height != screen_height)
            }
            &&& (request is SetWindowSize ==> plan.update)
        },
{
}

/// A size request whose sides fit in an `i32` is accepted and schedules a frame;
/// each side below one pixel counts as one; the pbuffer is resized to that size
/// exactly when it differs from the screen size in width or in height, and kept
/// when both are equal. A width above `i32::MAX` is refused first, then a height
/// above it. An update request only schedules a frame; any other request does
/// nothing.
pub proof fn lemma_request_plan_exact(request: RequestKind, screen_width: i32, screen_height: i32)
    ensures
        request == RequestKind::ScheduleUpdate ==> request_plan(request, screen_width, screen_height)
            == Ok::<RequestPlan, SizeError>(RequestPlan { resize: None, update: true }),
        request == RequestKind::Other ==> request_plan(request, screen_width, screen_height)
            == Ok::<RequestPlan, SizeError>(RequestPlan { resize: None, update: false }),
        request matches RequestKind::SetWindowSize { new_width, new_height } ==> {
            let plan = request_plan(request, screen_width, screen_height);
            let w: int = if new_width == 0 { 1 } else { new_width as int };
            let h: int = if new_height == 0 { 1 } else { new_height as int };
            &&& new_width > 0x7fff_ffff ==> plan == Err::<RequestPlan, SizeError>(SizeError::WidthTooLarge)
            &&& new_width <= 0x7fff_ffff && new_height > 0x7fff_ffff ==> plan == Err::<RequestPlan, SizeError>(
                SizeError::HeightTooLarge,
            )
            &&& new_width <= 0x7fff_ffff && new_height <= 0x7fff_ffff ==> {
                &&& plan is Ok
                &&& plan->Ok_0.update
                &&& (w != screen_width || h != screen_height) ==> plan->Ok_0.resize
                    == Some(PbufferSize { width: w as i32, height: h as i32 })
                &&& (w == screen_width && h == screen_height) ==> plan->Ok_0.resize is None
            }
        },
{
}

// ---------------------------------------------------------------------------
// The main loop
// ---------------------------------------------------------------------------

/// The loop's request to the host.
#[derive(Clone, Copy, Debug, PartialEq, Eq, Structural)]
pub enum LoopCall {
    /// Run the quit check (`quit_requested`, the handler, `confirm_quit`); reply `Quit`.
    CheckQuit,
    /// Take a pending request without waiting; reply `Received`.
    TryReceive,
    /// Process the request just received; reply `Processed`.
    ProcessRequest,
    /// Run the handler's `update`; reply `Done`.
    Update,
    /// Run the handler's `draw`, then `glFlush`; reply `Done`.
    DrawAndFlush,
    /// Wait up to `timeout_ms` milliseconds for a request; reply `Waited`.
    WaitRequest { timeout_ms: u64 },
}

#[derive(Clone, Copy, Debug, PartialEq, Eq, Structural)]
pub enum WaitOutcome {
    Request,
    Timeout,
    Disconnected,
}

#[derive(Clone, Copy, Debug, PartialEq, Eq, Structural)]
pub enum LoopReply {
    Quit(bool),
    Received(bool),
    /// Whether processing succeeded, and whether it scheduled a frame.
    Processed { ok: bool, update: bool },
    Waited(WaitOutcome),
    Done,
}

#[derive(Clone, Copy, Debug, PartialEq, Eq, Structural)]
pub enum LoopPhase {
    TopCheck,
    Draining,
    ProcessingDrained,
    MidCheck,
    Updating,
    PostUpdateCheck,
    Drawing,
    Waiting,
    ProcessingWaited,
    Finished,
}

#[derive(Clone, Copy, Debug, PartialEq, Eq, Structural)]
pub enum LoopStep {
    Call(LoopCall),
    /// The loop is over: `ok` is false when processing a request failed (the loop
    /// then returns that request's error).
    Finish { ok: bool },
}

/// The frame loop of a windowless renderer: check for quit, drain pending
/// requests, check again, then either run a frame (when not blocking, or a frame
/// is due) or wait up to 16 ms for a request.
#[derive(Clone, Copy, Debug, PartialEq, Eq, Structural)]
pub struct MainLoop {
    pub blocking: bool,
    pub update: bool,
    pub phase: LoopPhase,
}

/// The wait of a blocking loop, in milliseconds.
pub const WAIT_MS: u64 = 16;

pub open spec fn quit_of(r: LoopReply) -> bool {
    match r {
        LoopReply::Quit(b) => b,
        _ => false,
    }
}

pub open spec fn received_of(r: LoopReply) -> bool {
    match r {
        LoopReply::Received(b) => b,
        _ => false,
    }
}

/// The outcome of processing; any other reply counts as a failure.
pub open spec fn processed_of(r: LoopReply) -> (bool, bool) {
    match r {
        LoopReply::Processed { ok, update } => (ok, update),
        _ => (false, false),
    }
}

/// The outcome of waiting; any other reply counts as a timeout.
pub open spec fn waited_of(r: LoopReply) -> WaitOutcome {
    match r {
        LoopReply::Waited(o) => o,
        _ => WaitOutcome::Timeout,
    }
}

impl MainLoop {
    pub open spec fn is_finished(self) -> bool {
        self.phase is Finished
    }

    pub open spec fn next(self, r: LoopReply) -> (MainLoop, LoopStep) {
        let go = |p: LoopPhase, c: LoopCall| (MainLoop { phase: p, ..self }, LoopStep::Call(c));
        let end = |ok: bool| (MainLoop { phase: LoopPhase::Finished, ..self }, LoopStep::Finish { ok });
        match self.phase {
            LoopPhase::TopCheck => if quit_of(r) { end(true) } else { go(LoopPhase::Draining, LoopCall::TryReceive) },
            LoopPhase::Draining => if received_of(r) {
                go(LoopPhase::ProcessingDrained, LoopCall::ProcessRequest)
            } else {
                go(LoopPhase::MidCheck, LoopCall::CheckQuit)
            },
            LoopPhase::ProcessingDrained => {
                let (ok, u) = processed_of(r);
                if !ok {
                    end(false)
                } else {
                    (MainLoop { phase: LoopPhase::Draining, update: self.update || u, ..self }, LoopStep::Call(LoopCall::TryReceive))
                }
            },
            LoopPhase::MidCheck => if quit_of(r) {
                end(true)
            } else if !self.blocking || self.update {
                (MainLoop { phase: LoopPhase::Updating, update: false, ..self }, LoopStep::Call(LoopCall::Update))
            } else {
                go(LoopPhase::Waiting, LoopCall::WaitRequest { timeout_ms: WAIT_MS })
            },
            LoopPhase::Updating => go(LoopPhase::PostUpdateCheck, LoopCall::CheckQuit),
            LoopPhase::PostUpdateCheck => if quit_of(r) { end(true) } else { go(LoopPhase::Drawing, LoopCall::DrawAndFlush) },
            LoopPhase::Drawing => go(LoopPhase::TopCheck, LoopCall::CheckQuit),
            LoopPhase::Waiting => match waited_of(r) {
                WaitOutcome::Request => go(LoopPhase::ProcessingWaited, LoopCall::ProcessRequest),
                WaitOutcome::Timeout => go(LoopPhase::TopCheck, LoopCall::CheckQuit),
                WaitOutcome::Disconnected => end(true),
            },
            LoopPhase::ProcessingWaited => {
                let (ok, u) = processed_of(r);
                if !ok {
                    end(false)
                } else {
                    (MainLoop { phase: LoopPhase::TopCheck, update: self.update || u, ..self }, LoopStep::Call(LoopCall::CheckQuit))
                }
            },
            LoopPhase::Finished => (self, LoopStep::Finish { ok: true }),
        }
    }

    /// Takes the reply to the last request and says what comes next.
    pub fn step(&mut self, r: LoopReply) -> (out: LoopStep)
        ensures
            (*final(self), out) == old(self).next(r),
    {
        let quit = match r {
            LoopReply::Quit(b) => b,
            _ => false,
        };
        match self.phase {
            LoopPhase::TopCheck => if quit {
                self.phase = LoopPhase::Finished;
                LoopStep::Finish { ok: true }
            } else {
                self.phase = LoopPhase::Draining;
                LoopStep::Call(LoopCall::TryReceive)
            },
            LoopPhase::Draining => {
                let got = match r {
                    LoopReply::Received(b) => b,
                    _ => false,
                };
                if got {
                    self.phase = LoopPhase::ProcessingDrained;
                    LoopStep::Call(LoopCall::ProcessRequest)
                } else {
                    self.phase = LoopPhase::MidCheck;
                    LoopStep::Call(LoopCall::CheckQuit)
                }
            },
            LoopPhase::ProcessingDrained => {
                let (ok, u) = match r {
                    LoopReply::Processed { ok, update } => (ok, update),
                    _ => (false, false),
                };
                if !ok {
                    self.phase = LoopPhase::Finished;
                    LoopStep::Finish { ok: false }
                } else {
                    self.phase = LoopPhase::Draining;
                    self.update = self.update || u;
                    LoopStep::Call(LoopCall::TryReceive)
                }
            },
            LoopPhase::MidCheck => if quit {
                self.phase = LoopPhase::Finished;
                LoopStep::Finish { ok: true }
            } else if !self.blocking || self.update {
                self.phase = LoopPhase::Updating;
                self.update = false;
                LoopStep::Call(LoopCall::Update)
            } else {
                self.phase = LoopPhase::Waiting;
                LoopStep::Call(LoopCall::WaitRequest { timeout_ms: WAIT_MS })
            },
            LoopPhase::Updating => {
                self.phase = LoopPhase::PostUpdateCheck;
                LoopStep::Call(LoopCall::CheckQuit)
            },
            LoopPhase::PostUpdateCheck => if quit {
                self.phase = LoopPhase::Finished;
                LoopStep::Finish { ok: true }
            } else {
                self.phase = LoopPhase::Drawing;
                LoopStep::Call(LoopCall::DrawAndFlush)
            },
            LoopPhase::Drawing => {
                self.phase = LoopPhase::TopCheck;
                LoopStep::Call(LoopCall::CheckQuit)
            },
            LoopPhase::Waiting => {
                let o = match r {
                    LoopReply::Waited(o) => o,
                    _ => WaitOutcome::Timeout,
                };
                match o {
                    WaitOutcome::Request => {
                        self.phase = LoopPhase::ProcessingWaited;
                        LoopStep::Call(LoopCall::ProcessRequest)
                    },
                    WaitOutcome::Timeout => {
                        self.phase = LoopPhase::TopCheck;
                        LoopStep::Call(LoopCall::CheckQuit)
                    },
                    WaitOutcome::Disconnected => {
                        self.phase = LoopPhase::Finished;
                        LoopStep::Finish { ok: true }
                    },
                }
            },
            LoopPhase::ProcessingWaited => {
                let (ok, u) = match r {
                    LoopReply::Processed { ok, update } => (ok, update),
                    _ => (false, false),
                };
                if !ok {
                    self.phase = LoopPhase::Finished;
                    LoopStep::Finish { ok: false }
                } else {
                    self.phase = LoopPhase::TopCheck;
                    self.update = self.update || u;
                    LoopStep::Call(LoopCall::CheckQuit)
                }
            },
            LoopPhase::Finished => LoopStep::Finish { ok: true },
        }
    }
}

/// Starts the main loop (a frame is due at first): the loop and its first
/// request, a quit check.
pub fn main_loop(blocking: bool) -> (res: (MainLoop, LoopCall))
    ensures
        res.0 == (MainLoop { blocking, update: true, phase: LoopPhase::TopCheck }),
        res.1 == LoopCall::CheckQuit,
{
    (MainLoop { blocking, update: true, phase: LoopPhase::TopCheck }, LoopCall::CheckQuit)
}

/// The loop's promises, step by step: a quit check that says quit ends the loop
/// normally, as does a closed request channel; a request that fails to process
/// ends it with that failure; a frame runs only when the loop is not blocking or a
/// frame is due, and running it clears the due flag; a blocking loop with no frame
/// due waits for a request instead; a due frame is never forgotten until it runs;
/// a draw is asked for only right after the quit check that follows an update;
/// and the loop ends with a failure only when processing a request failed.
pub proof fn lemma_loop_promises(m: MainLoop, r: LoopReply)
    requires
        !m.is_finished(),
    ensures
        (m.phase is TopCheck || m.phase is MidCheck || m.phase is PostUpdateCheck) && quit_of(r)
            ==> m.next(r).1 == (LoopStep::Finish { ok: true }),
        m.phase is Waiting && waited_of(r) == WaitOutcome::Disconnected ==> m.next(r).1 == (LoopStep::Finish { ok: true }),
        (m.phase is ProcessingDrained || m.phase is ProcessingWaited) && !processed_of(r).0
            ==> m.next(r).1 == (LoopStep::Finish { ok: false }),
        m.next(r).1 == LoopStep::Call(LoopCall::Update) ==> (!m.blocking || m.update) && !m.next(r).0.update,
        m.phase is MidCheck && !quit_of(r) && m.blocking && !m.update
            ==> m.next(r).1 == (LoopStep::Call(LoopCall::WaitRequest { timeout_ms: WAIT_MS })),
        m.update && !(m.next(r).1 == LoopStep::Call(LoopCall::Update)) && !m.next(r).0.is_finished()
            ==> m.next(r).0.update,
        m.next(r).0.blocking == m.blocking,
        (m.next(r).1 is Finish) <==> m.next(r).0.is_finished(),
        m.next(r).1 == LoopStep::Call(LoopCall::DrawAndFlush) ==> m.phase is PostUpdateCheck && !quit_of(r),
        m.next(r).0.phase is PostUpdateCheck ==> m.phase is Updating && m.next(r).1 == LoopStep::Call(LoopCall::CheckQuit),
        m.next(r).1 == (LoopStep::Finish { ok: false })
            ==> (m.phase is ProcessingDrained || m.phase is ProcessingWaited) && !processed_of(r).0,
{
}

/// Processing a request that succeeded keeps a due frame due and makes one due
/// when the request scheduled it, whether the request was drained at the top of
/// a round or arrived while the loop waited. A frame scheduled by a drained
/// request runs in the same round: once the drain finds no more requests and the
/// quit check does not say quit, the loop asks for the frame update, blocking or not.
pub proof fn lemma_scheduled_frame_runs(blocking: bool, update: bool, scheduled: bool)
    ensures
        ({
            let drained = MainLoop { blocking, update, phase: LoopPhase::ProcessingDrained };
            let waited = MainLoop { blocking, update, phase: LoopPhase::ProcessingWaited };
            let r = LoopReply::Processed { ok: true, update: scheduled };
            &&& drained.next(r).0 == MainLoop { blocking, update: update || scheduled, phase: LoopPhase::Draining }
            &&& drained.next(r).1 == LoopStep::Call(LoopCall::TryReceive)
            &&& waited.next(r).0 == MainLoop { blocking, update: update || scheduled, phase: LoopPhase::TopCheck }
            &&& waited.next(r).1 == LoopStep::Call(LoopCall::CheckQuit)
        }),
        ({
            let m = MainLoop { blocking, update, phase: LoopPhase::ProcessingDrained };
            let m1 = m.next(LoopReply::Processed { ok: true, update: true }).0;
            let m2 = m1.next(LoopReply::Received(false)).0;
            &&& m1.next(LoopReply::Received(false)).1 == LoopStep::Call(LoopCall::CheckQuit)
            &&& m2.next(LoopReply::Quit(false)).1 == LoopStep::Call(LoopCall::Update)
        }),
{
}

/// The loop after the first `i` replies of `rs`, starting from `m`.
pub open spec fn loop_state(m: MainLoop, rs: Seq<LoopReply>, i: nat) -> MainLoop
    decreases i,
{
    if i == 0 || i > rs.len() {
        m
    } else {
        loop_state(m, rs, (i - 1) as nat).next(rs[i - 1]).0
    }
}

/// What the loop asks for after the reply `rs[i]`.
pub open spec fn loop_out(m: MainLoop, rs: Seq<LoopReply>, i: nat) -> LoopStep {
    loop_state(m, rs, i).next(rs[i as int]).1
}

proof fn lemma_loop_state_unfold(m: MainLoop, rs: Seq<LoopReply>, i: nat)
    requires
        1 <= i <= rs.len(),
    ensures
        loop_state(m, rs, i) == loop_state(m, rs, (i - 1) as nat).next(rs[i - 1]).0,
{
}

/// Where a state of a run that starts with a quit check can have come from:
/// a loop about to learn how its frame update went asked for the update one
/// step before; a loop about to learn the quit check that follows an update
/// asked for that check one step before, right after the update.
proof fn lemma_loop_history(m: MainLoop, rs: Seq<LoopReply>, k: nat)
    requires
        m.phase is TopCheck,
        k <= rs.len(),
    ensures
        loop_state(m, rs, k).phase is Updating ==> k >= 1 && loop_out(m, rs, (k - 1) as nat) == LoopStep::Call(LoopCall::Update),
        loop_state(m, rs, k).phase is PostUpdateCheck ==> {
            &&& k >= 2
            &&& loop_out(m, rs, (k - 1) as nat) == LoopStep::Call(LoopCall::CheckQuit)
            &&& loop_out(m, rs, (k - 2) as nat) == LoopStep::Call(LoopCall::Update)
        },
    decreases k,
{
    if k >= 1 {
        lemma_loop_state_unfold(m, rs, k);
        lemma_loop_history(m, rs, (k - 1) as nat);
    }
}

/// In every run of the main loop from its start, each draw (with the flush that
/// goes with it, one request) is asked for only right after a frame update and
/// then a quit check that did not say quit (any reply but `Quit(true)` counts as
/// no), in that order and in the same round; and the
/// round ends there: the next request is the quit check that opens the next round.
pub proof fn lemma_every_draw_follows_update_and_check(blocking: bool, rs: Seq<LoopReply>, k: nat)
    requires
        k < rs.len(),
        loop_out(MainLoop { blocking, update: true, phase: LoopPhase::TopCheck }, rs, k)
            == LoopStep::Call(LoopCall::DrawAndFlush),
    ensures
        ({
            let m = MainLoop { blocking, update: true, phase: LoopPhase::TopCheck };
            &&& k >= 2
            &&& loop_out(m, rs, (k - 2) as nat) == LoopStep::Call(LoopCall::Update)
            &&& loop_out(m, rs, (k - 1) as nat) == LoopStep::Call(LoopCall::CheckQuit)
            &&& !quit_of(rs[k as int])
            &&& loop_state(m, rs, k + 1).phase is Drawing
            &&& (k + 1 < rs.len() ==> loop_out(m, rs, k + 1) == LoopStep::Call(LoopCall::CheckQuit)
                && loop_state(m, rs, k + 2).phase is TopCheck)
        }),
{
    let m = MainLoop { blocking, update: true, phase: LoopPhase::TopCheck };
    assert(loop_state(m, rs, k).phase is PostUpdateCheck);
    lemma_loop_history(m, rs, k);
    lemma_loop_state_unfold(m, rs, k + 1);
    if k + 1 < rs.len() {
        lemma_loop_state_unfold(m, rs, k + 2);
    }
}

// ---------------------------------------------------------------------------
// Checks made before the loop starts
// ---------------------------------------------------------------------------

/// The GLES 3 entry points the renderer cannot work without.
#[derive(Clone, Copy, Debug, PartialEq, Eq, Structural)]
pub enum GlFunction {
    GetString,
    GenVertexArrays,
    DrawElementsInstanced,
    ReadPixels,
    Flush,
}

impl GlFunction {
    pub open spec fn name_text(self) -> Seq<char> {
        match self {
            GlFunction::GetString => "glGetString"@,
            GlFunction::GenVertexArrays => "glGenVertexArrays"@,
            GlFunction::DrawElementsInstanced => "glDrawElementsInstanced"@,
            GlFunction::ReadPixels => "glReadPixels"@,
            GlFunction::Flush => "glFlush"@,
        }
    }

    pub fn name(&self) -> (s: &'static str)
        ensures
            s@ == self.name_text(),
    {
        match self {
            GlFunction::GetString => "glGetString",
            GlFunction::GenVertexArrays => "glGenVertexArrays",
            GlFunction::DrawElementsInstanced => "glDrawElementsInstanced",
            GlFunction::ReadPixels => "glReadPixels",
            GlFunction::Flush => "glFlush",
        }
    }
}

pub open spec fn required_gl_function_seq() -> Seq<GlFunction> {
    seq![GlFunction::GetString, GlFunction::GenVertexArrays, GlFunction::DrawElementsInstanced, GlFunction::ReadPixels, GlFunction::Flush]
}

/// The required entry points, in the order they are checked.
pub fn required_gl_functions() -> (v: Vec<GlFunction>)
    ensures
        v@ == required_gl_function_seq(),
{
    let v = vec![GlFunction::GetString, GlFunction::GenVertexArrays, GlFunction::DrawElementsInstanced, GlFunction::ReadPixels, GlFunction::Flush];
    assert(v@ =~= required_gl_function_seq());
    v
}

fn gl_function_at(i: usize) -> (f: GlFunction)
    requires
        i < 5,
    ensures
        f == required_gl_function_seq()[i as int],
{
    if i == 0 {
        GlFunction::GetString
    } else if i == 1 {
        GlFunction::GenVertexArrays
    } else if i == 2 {
        GlFunction::DrawElementsInstanced
    } else if i == 3 {
        GlFunction::ReadPixels
    } else {
        GlFunction::Flush
    }
}

/// Where the check of the required entry points stands.
#[derive(Clone, Copy, Debug, PartialEq, Eq, Structural)]
pub enum GlCheck {
    /// Look up `function`, the `index`-th required entry point, and report
    /// whether it was found.
    Look { index: usize, function: GlFunction },
    /// This required entry point is missing: the check failed.
    Missing(GlFunction),
    /// Every required entry point was found.
    AllFound,
}

/// The check before it looks up the `i`-th required entry point; past the last
/// one, all were found.
pub open spec fn gl_check_at(i: int) -> GlCheck {
    if 0 <= i < 5 {
        GlCheck::Look { index: i as usize, function: required_gl_function_seq()[i] }
    } else {
        GlCheck::AllFound
    }
}

impl GlCheck {
    /// The check once the lookup it asked for has `found` its entry point or not.
    pub open spec fn after(self, found: bool) -> GlCheck {
        match self {
            GlCheck::Look { index, function } => if found {
                gl_check_at(index + 1)
            } else {
                GlCheck::Missing(function)
            },
            _ => self,
        }
    }

    /// The check's start: look up the first required entry point.
    pub fn start() -> (c: GlCheck)
        ensures
            c == gl_check_at(0),
    {
        GlCheck::Look { index: 0, function: GlFunction::GetString }
    }

    /// Takes whether the asked-for entry point was found, and says what comes next.
    pub fn next(self, found: bool) -> (c: GlCheck)
        ensures
            c == self.after(found),
    {
        match self {
            GlCheck::Look { index, function } => if !found {
                GlCheck::Missing(function)
            } else if index < 4 {
                GlCheck::Look { index: index + 1, function: gl_function_at(index + 1) }
            } else {
                GlCheck::AllFound
            },
            _ => self,
        }
    }
}

/// The check after it is told, in turn, the lookup results `found`; it stops
/// taking them once it has an outcome.
pub open spec fn gl_check_run(c: GlCheck, found: Seq<bool>) -> GlCheck
    decreases found.len(),
{
    if found.len() == 0 || !(c is Look) {
        c
    } else {
        gl_check_run(c.after(found[0]), found.drop_first())
    }
}

proof fn lemma_gl_check_from(found: Seq<bool>, k: int)
    requires
        found.len() == 5,
        0 <= k <= 5,
    ensures
        (forall|i: int| k <= i < 5 ==> found[i]) ==> gl_check_run(gl_check_at(k), found.subrange(k, 5))
            == GlCheck::AllFound,
        forall|j: int|
            k <= j < 5 && !found[j] && (forall|i: int| k <= i < j ==> found[i]) ==> gl_check_run(
                gl_check_at(k),
                found.subrange(k, 5),
            ) == GlCheck::Missing(#[trigger] required_gl_function_seq()[j]),
    decreases 5 - k,
{
    if k < 5 {
        lemma_gl_check_from(found, k + 1);
        let rest = found.subrange(k, 5);
        assert(rest.drop_first() =~= found.subrange(k + 1, 5));
        assert(rest[0] == found[k]);
        assert(gl_check_run(gl_check_at(k), rest) == gl_check_run(gl_check_at(k).after(found[k]), found.subrange(k + 1, 5)));
        if !found[k] {
            assert(gl_check_run(GlCheck::Missing(required_gl_function_seq()[k]), found.subrange(k + 1, 5))
                == GlCheck::Missing(required_gl_function_seq()[k]));
        }
        assert forall|j: int|
            k <= j < 5 && !found[j] && (forall|i: int| k <= i < j ==> found[i]) implies gl_check_run(
                gl_check_at(k),
                found.subrange(k, 5),
            ) == GlCheck::Missing(#[trigger] required_gl_function_seq()[j]) by {
            if j > k {
                assert(found[k]);
            }
        }
    }
}

/// Told the five lookup results in order, the check of the required entry
/// points reports the first one that was not found, and succeeds only when all
/// were found.
pub proof fn lemma_gl_check_reports_first_missing(found: Seq<bool>)
    requires
        found.len() == 5,
    ensures
        (forall|i: int| 0 <= i < 5 ==> found[i]) ==> gl_check_run(gl_check_at(0), found) == GlCheck::AllFound,
        forall|j: int|
            0 <= j < 5 && !found[j] && (forall|i: int| 0 <= i < j ==> found[i]) ==> gl_check_run(gl_check_at(0), found)
                == GlCheck::Missing(#[trigger] required_gl_function_seq()[j]),
{
    lemma_gl_check_from(found, 0);
    assert(found.subrange(0, 5) =~= found);
}

pub open spec fn missing_function_text(f: GlFunction) -> Seq<char> {
    "ANGLE is missing required GLES 3 function "@ + f.name_text()
}

/// The error when an entry point cannot be found.
pub fn missing_function_message(f: GlFunction) -> (s: String)
    ensures
        s@ == missing_function_text(f),
{
    let mut s = String::from_str("ANGLE is missing required GLES 3 function ");
    s.append(f.name());
    s
}

/// "OpenGL ES 3" in ASCII.
pub open spec fn gles3_prefix() -> Seq<u8> {
    seq![79u8, 112u8, 101u8, 110u8, 71u8, 76u8, 32u8, 69u8, 83u8, 32u8, 51u8]
}

/// Whether a `GL_VERSION` string (its bytes, without the NUL) names an OpenGL ES 3
/// context: it starts with "OpenGL ES 3".
pub fn is_gles3_version(version: &[u8]) -> (b: bool)
    ensures
        b == (version@.len() >= 11 && version@.subrange(0, 11) == gles3_prefix()),
{
    let prefix: [u8; 11] = [79, 112, 101, 110, 71, 76, 32, 69, 83, 32, 51];
    assert(prefix@ =~= gles3_prefix());
    if version.len() < 11 {
        return false;
    }
    let mut i: usize = 0;
    while i < 11
        invariant
            version@.len() >= 11,
            prefix@ == gles3_prefix(),
            i <= 11,
            forall|j: int| 0 <= j < i ==> version@[j] == gles3_prefix()[j],
        decreases 11 - i,
    {
        if version[i] != prefix[i] {
            assert(version@.subrange(0, 11)[i as int] != gles3_prefix()[i as int]);
            return false;
        }
        i = i + 1;
    }
    assert(version@.subrange(0, 11) =~= gles3_prefix());
    true
}

pub open spec fn not_gles3_text() -> Seq<char> {
    "ANGLE did not create a current OpenGL ES 3 context"@
}

/// The error when the current context is not OpenGL ES 3.
pub fn not_gles3_message() -> (s: String)
    ensures
        s@ == not_gles3_text(),
{
    String::from_str("ANGLE did not create a current OpenGL ES 3 context")
}

} // verus!
