//! States and errors of the motor identification procedure.

use vstd::prelude::*;
use crate::interfaces::MotorState;
use crate::queue::{RequestQueue, CONTROL_REQUEST_CAPACITY};

verus! {

/// A step of the identification procedure.
#[derive(Clone, Copy, Debug, PartialEq, Eq, Structural)]
pub enum AutoTuneState {
    Idle,
    Init,
    CurrentOffset,
    RsPrepare,
    RsMeasure,
    LPrepare,
    LMeasure,
    CurrentPiCalc,
    CurrentPiVerify,
    OpenLoopPrepare,
    OpenLoopRun,
    FluxMeasure,
    ObserverInit,
    ObserverVerify,
    PlLConfig,
    TransitionVerify,
    Save,
    Done,
    Error,
}

impl AutoTuneState {
    /// The console name.
    pub open spec fn spec_name(self) -> Seq<char> {
        match self {
            AutoTuneState::Idle => "idle"@,
            AutoTuneState::Init => "init"@,
            AutoTuneState::CurrentOffset => "current-offset"@,
            AutoTuneState::RsPrepare => "rs-prepare"@,
            AutoTuneState::RsMeasure => "rs-measure"@,
            AutoTuneState::LPrepare => "l-prepare"@,
            AutoTuneState::LMeasure => "l-measure"@,
            AutoTuneState::CurrentPiCalc => "current-pi-calc"@,
            AutoTuneState::CurrentPiVerify => "current-pi-verify"@,
            AutoTuneState::OpenLoopPrepare => "open-loop-prepare"@,
            AutoTuneState::OpenLoopRun => "open-loop-run"@,
            AutoTuneState::FluxMeasure => "flux-measure"@,
            AutoTuneState::ObserverInit => "observer-init"@,
            AutoTuneState::ObserverVerify => "observer-verify"@,
            AutoTuneState::PlLConfig => "pll-config"@,
            AutoTuneState::TransitionVerify => "transition-verify"@,
            AutoTuneState::Save => "save"@,
            AutoTuneState::Done => "done"@,
            AutoTuneState::Error => "error"@,
        }
    }

    /// The console name.
    pub fn name(self) -> (text: &'static str)
        ensures
            text@ == self.spec_name(),
    {
        match self {
            AutoTuneState::Idle => "idle",
            AutoTuneState::Init => "init",
            AutoTuneState::CurrentOffset => "current-offset",
            AutoTuneState::RsPrepare => "rs-prepare",
            AutoTuneState::RsMeasure => "rs-measure",
            AutoTuneState::LPrepare => "l-prepare",
            AutoTuneState::LMeasure => "l-measure",
            AutoTuneState::CurrentPiCalc => "current-pi-calc",
            AutoTuneState::CurrentPiVerify => "current-pi-verify",
            AutoTuneState::OpenLoopPrepare => "open-loop-prepare",
            AutoTuneState::OpenLoopRun => "open-loop-run",
            AutoTuneState::FluxMeasure => "flux-measure",
            AutoTuneState::ObserverInit => "observer-init",
            AutoTuneState::ObserverVerify => "observer-verify",
            AutoTuneState::PlLConfig => "pll-config",
            AutoTuneState::TransitionVerify => "transition-verify",
            AutoTuneState::Save => "save",
            AutoTuneState::Done => "done",
            AutoTuneState::Error => "error",
        }
    }

    /// Percent complete when a step begins.
    pub open spec fn spec_progress_base(self) -> u8 {
        match self {
            AutoTuneState::Idle => 0,
            AutoTuneState::Init => 2,
            AutoTuneState::CurrentOffset => 5,
            AutoTuneState::RsPrepare => 10,
            AutoTuneState::RsMeasure => 12,
            AutoTuneState::LPrepare => 32,
            AutoTuneState::LMeasure => 34,
            AutoTuneState::CurrentPiCalc => 52,
            AutoTuneState::CurrentPiVerify => 55,
            AutoTuneState::OpenLoopPrepare => 70,
            AutoTuneState::OpenLoopRun => 73,
            AutoTuneState::FluxMeasure => 78,
            AutoTuneState::ObserverInit => 84,
            AutoTuneState::ObserverVerify => 88,
            AutoTuneState::PlLConfig => 91,
            AutoTuneState::TransitionVerify => 93,
            AutoTuneState::Save => 96,
            AutoTuneState::Done => 100,
            AutoTuneState::Error => 0,
        }
    }

    /// Percent complete when a step begins.
    pub fn progress_base(self) -> (percent: u8)
        ensures
            percent == self.spec_progress_base(),
            percent <= 100,
    {
        match self {
            AutoTuneState::Idle => 0,
            AutoTuneState::Init => 2,
            AutoTuneState::CurrentOffset => 5,
            AutoTuneState::RsPrepare => 10,
            AutoTuneState::RsMeasure => 12,
            AutoTuneState::LPrepare => 32,
            AutoTuneState::LMeasure => 34,
            AutoTuneState::CurrentPiCalc => 52,
            AutoTuneState::CurrentPiVerify => 55,
            AutoTuneState::OpenLoopPrepare => 70,
            AutoTuneState::OpenLoopRun => 73,
            AutoTuneState::FluxMeasure => 78,
            AutoTuneState::ObserverInit => 84,
            AutoTuneState::ObserverVerify => 88,
            AutoTuneState::PlLConfig => 91,
            AutoTuneState::TransitionVerify => 93,
            AutoTuneState::Save => 96,
            AutoTuneState::Done => 100,
            AutoTuneState::Error => 0,
        }
    }

    /// The percent a measuring step spans, reached in proportion to its own
    /// progress; one for the other steps.
    pub open spec fn spec_progress_span(self) -> u8 {
        match self {
            AutoTuneState::RsMeasure => 20,
            AutoTuneState::LMeasure => 18,
            AutoTuneState::CurrentPiVerify => 14,
            AutoTuneState::FluxMeasure => 5,
            _ => 1,
        }
    }

    /// The percent a measuring step spans.
    pub fn progress_span(self) -> (percent: u8)
        ensures
            percent == self.spec_progress_span(),
            self.spec_progress_base() + percent <= 101,
    {
        match self {
            AutoTuneState::RsMeasure => 20,
            AutoTuneState::LMeasure => 18,
            AutoTuneState::CurrentPiVerify => 14,
            AutoTuneState::FluxMeasure => 5,
            _ => 1,
        }
    }

    /// The procedure is not running: it never started, finished, or failed.
    pub open spec fn spec_is_terminal(self) -> bool {
        self == AutoTuneState::Idle || self == AutoTuneState::Done || self == AutoTuneState::Error
    }

    pub fn is_terminal(self) -> (terminal: bool)
        ensures
            terminal == self.spec_is_terminal(),
    {
        match self {
            AutoTuneState::Idle | AutoTuneState::Done | AutoTuneState::Error => true,
            _ => false,
        }
    }
}

/// Why the identification procedure stopped.
#[derive(Clone, Copy, Debug, PartialEq, Eq, Structural)]
pub enum AutoTuneError {
    NoError,
    Aborted,
    NotReady,
    Timeout,
    OverCurrent,
    OverVoltage,
    UnderVoltage,
    ResidualCurrent,
    SensorInvalid,
    FrameOverrun,
    RsFit,
    LFit,
    PiUnstable,
    OpenLoopFailed,
    FluxRange,
    SaveFailed,
}

impl AutoTuneError {
    /// The console name.
    pub open spec fn spec_name(self) -> Seq<char> {
        match self {
            AutoTuneError::NoError => "none"@,
            AutoTuneError::Aborted => "aborted"@,
            AutoTuneError::NotReady => "not-ready"@,
            AutoTuneError::Timeout => "timeout"@,
            AutoTuneError::OverCurrent => "over-current"@,
            AutoTuneError::OverVoltage => "over-voltage"@,
            AutoTuneError::UnderVoltage => "under-voltage"@,
            AutoTuneError::ResidualCurrent => "residual-current"@,
            AutoTuneError::SensorInvalid => "sensor-invalid"@,
            AutoTuneError::FrameOverrun => "frame-overrun"@,
            AutoTuneError::RsFit => "rs-fit"@,
            AutoTuneError::LFit => "l-fit"@,
            AutoTuneError::PiUnstable => "pi-unstable"@,
            AutoTuneError::OpenLoopFailed => "open-loop-failed"@,
            AutoTuneError::FluxRange => "flux-range"@,
            AutoTuneError::SaveFailed => "save-failed"@,
        }
    }

    /// The console name.
    pub fn name(self) -> (text: &'static str)
        ensures
            text@ == self.spec_name(),
    {
        match self {
            AutoTuneError::NoError => "none",
            AutoTuneError::Aborted => "aborted",
            AutoTuneError::NotReady => "not-ready",
            AutoTuneError::Timeout => "timeout",
            AutoTuneError::OverCurrent => "over-current",
            AutoTuneError::OverVoltage => "over-voltage",
            AutoTuneError::UnderVoltage => "under-voltage",
            AutoTuneError::ResidualCurrent => "residual-current",
            AutoTuneError::SensorInvalid => "sensor-invalid",
            AutoTuneError::FrameOverrun => "frame-overrun",
            AutoTuneError::RsFit => "rs-fit",
            AutoTuneError::LFit => "l-fit",
            AutoTuneError::PiUnstable => "pi-unstable",
            AutoTuneError::OpenLoopFailed => "open-loop-failed",
            AutoTuneError::FluxRange => "flux-range",
            AutoTuneError::SaveFailed => "save-failed",
        }
    }
}

impl Default for AutoTuneError {
    fn default() -> (error: Self)
        ensures
            error == AutoTuneError::NoError,
    {
        AutoTuneError::NoError
    }
}

/// The steps of a successful identification, in order.
pub open spec fn procedure_order() -> Seq<AutoTuneState> {
    seq![
        AutoTuneState::Idle,
        AutoTuneState::Init,
        AutoTuneState::CurrentOffset,
        AutoTuneState::RsPrepare,
        AutoTuneState::RsMeasure,
        AutoTuneState::LPrepare,
        AutoTuneState::LMeasure,
        AutoTuneState::CurrentPiCalc,
        AutoTuneState::CurrentPiVerify,
        AutoTuneState::OpenLoopPrepare,
        AutoTuneState::OpenLoopRun,
        AutoTuneState::FluxMeasure,
        AutoTuneState::ObserverInit,
        AutoTuneState::ObserverVerify,
        AutoTuneState::PlLConfig,
        AutoTuneState::TransitionVerify,
        AutoTuneState::Save,
        AutoTuneState::Done,
    ]
}

/// Reported progress never goes back along a successful identification:
/// the span of each step ends no later than the next step starts, and the
/// last step reports one hundred percent.
pub proof fn lemma_progress_increases()
    ensures
        forall|i: int|
            0 <= i < procedure_order().len() - 1 ==> #[trigger] procedure_order()[i].spec_progress_base()
                + procedure_order()[i].spec_progress_span() <= procedure_order()[i + 1].spec_progress_base(),
        procedure_order().last().spec_progress_base() == 100,
{
    assert forall|i: int|
        0 <= i < procedure_order().len() - 1 implies #[trigger] procedure_order()[i].spec_progress_base()
        + procedure_order()[i].spec_progress_span() <= procedure_order()[i + 1].spec_progress_base() by {
        assert(0 <= i < 17);
    }
}

/// Whether the identification procedure may start: the controller is
/// idle, the bridge is off and no procedure is running.
pub fn autotune_may_start(state: MotorState, bridge_enabled: bool, running: bool) -> (allowed: bool)
    ensures
        allowed == (state == MotorState::Idle && !bridge_enabled && !running),
{
    state == MotorState::Idle && !bridge_enabled && !running
}

/// The queue after `request` is offered to it: queued behind the others
/// unless the queue is full.
pub open spec fn offered<R>(waiting: Seq<R>, request: R) -> Seq<R> {
    if waiting.len() < CONTROL_REQUEST_CAPACITY {
        waiting.push(request)
    } else {
        waiting
    }
}

/// Where the identification procedure stands: its step, why it stopped,
/// and the control requests it has queued for the motor task, oldest
/// first. `R` is the request type; the measurements themselves are kept
/// elsewhere.
pub struct AutoTuneSequence<R> {
    state: AutoTuneState,
    error: AutoTuneError,
    requests: RequestQueue<R>,
}

impl<R> AutoTuneSequence<R> {
    pub closed spec fn spec_state(&self) -> AutoTuneState {
        self.state
    }

    pub closed spec fn spec_error(&self) -> AutoTuneError {
        self.error
    }

    /// The queued control requests, oldest first.
    pub closed spec fn waiting(&self) -> Seq<R> {
        self.requests.waiting()
    }

    /// No procedure has run: idle, no error, nothing queued.
    pub fn new() -> (sequence: Self)
        ensures
            sequence.spec_state() == AutoTuneState::Idle,
            sequence.spec_error() == AutoTuneError::NoError,
            sequence.waiting() == Seq::<R>::empty(),
    {
        AutoTuneSequence {
            state: AutoTuneState::Idle,
            error: AutoTuneError::NoError,
            requests: RequestQueue::new(),
        }
    }

    pub fn state(&self) -> (state: AutoTuneState)
        ensures
            state == self.spec_state(),
    {
        self.state
    }

    pub fn error(&self) -> (error: AutoTuneError)
        ensures
            error == self.spec_error(),
    {
        self.error
    }

    /// A procedure is running while its step is not idle, done or error.
    pub fn is_running(&self) -> (running: bool)
        ensures
            running == !self.spec_state().spec_is_terminal(),
    {
        !self.state.is_terminal()
    }

    /// Starts a procedure unless one is running: the first step, no
    /// error, and nothing queued. Returns whether it started; when it did
    /// not, nothing changes.
    pub fn begin(&mut self) -> (started: bool)
        ensures
            started == old(self).spec_state().spec_is_terminal(),
            started ==> final(self).spec_state() == AutoTuneState::Init && final(self).spec_error()
                == AutoTuneError::NoError && final(self).waiting() == Seq::<R>::empty(),
            !started ==> final(self).spec_state() == old(self).spec_state() && final(self).spec_error()
                == old(self).spec_error() && final(self).waiting() == old(self).waiting(),
    {
        if self.is_running() {
            return false;
        }
        self.state = AutoTuneState::Init;
        self.error = AutoTuneError::NoError;
        self.requests = RequestQueue::new();
        true
    }

    /// Moves to `state`.
    pub fn enter(&mut self, state: AutoTuneState)
        ensures
            final(self).spec_state() == state,
            final(self).spec_error() == old(self).spec_error(),
            final(self).waiting() == old(self).waiting(),
    {
        self.state = state;
    }

    /// Aborts a running procedure: the error becomes `Aborted`, `disable`
    /// is queued and the procedure is idle. Nothing changes when none is
    /// running.
    pub fn stop(&mut self, disable: R)
        ensures
            !old(self).spec_state().spec_is_terminal() ==> final(self).spec_state()
                == AutoTuneState::Idle && final(self).spec_error() == AutoTuneError::Aborted
                && final(self).waiting() == offered(old(self).waiting(), disable),
            old(self).spec_state().spec_is_terminal() ==> final(self).spec_state() == old(
                self,
            ).spec_state() && final(self).spec_error() == old(self).spec_error()
                && final(self).waiting() == old(self).waiting(),
    {
        if self.is_running() {
            self.error = AutoTuneError::Aborted;
            self.requests.push(disable);
            self.state = AutoTuneState::Idle;
        }
    }

    /// Ends the procedure with `error`, queueing `disable`.
    pub fn fail(&mut self, error: AutoTuneError, disable: R)
        ensures
            final(self).spec_state() == AutoTuneState::Error,
            final(self).spec_error() == error,
            final(self).waiting() == offered(old(self).waiting(), disable),
    {
        self.error = error;
        self.requests.push(disable);
        self.state = AutoTuneState::Error;
    }

    /// Takes the answer to the save request. Outside the save step nothing
    /// changes; a successful save queues `disable` and ends the procedure
    /// as done, a failed one ends it with `SaveFailed`, queueing `disable`.
    pub fn notify_saved(&mut self, saved: bool, disable: R)
        ensures
            old(self).spec_state() != AutoTuneState::Save ==> final(self).spec_state() == old(
                self,
            ).spec_state() && final(self).spec_error() == old(self).spec_error()
                && final(self).waiting() == old(self).waiting(),
            old(self).spec_state() == AutoTuneState::Save && saved ==> final(self).spec_state()
                == AutoTuneState::Done && final(self).spec_error() == old(self).spec_error()
                && final(self).waiting() == offered(old(self).waiting(), disable),
            old(self).spec_state() == AutoTuneState::Save && !saved ==> final(self).spec_state()
                == AutoTuneState::Error && final(self).spec_error() == AutoTuneError::SaveFailed
                && final(self).waiting() == offered(old(self).waiting(), disable),
    {
        if self.state != AutoTuneState::Save {
            return;
        }
        if saved {
            self.requests.push(disable);
            self.state = AutoTuneState::Done;
        } else {
            self.fail(AutoTuneError::SaveFailed, disable);
        }
    }

    /// Queues a control request for the motor task, unless the queue is
    /// full.
    pub fn push_request(&mut self, request: R)
        ensures
            final(self).spec_state() == old(self).spec_state(),
            final(self).spec_error() == old(self).spec_error(),
            final(self).waiting() == offered(old(self).waiting(), request),
    {
        self.requests.push(request);
    }

    pub fn has_pending_requests(&self) -> (pending: bool)
        ensures
            pending == (self.waiting().len() > 0),
    {
        self.requests.has_pending()
    }

    /// Takes the oldest queued request.
    pub fn pop_request(&mut self) -> (request: Option<R>)
        ensures
            final(self).spec_state() == old(self).spec_state(),
            final(self).spec_error() == old(self).spec_error(),
            old(self).waiting().len() > 0 ==> request == Some(old(self).waiting()[0])
                && final(self).waiting() == old(self).waiting().drop_first(),
            old(self).waiting().len() == 0 ==> request is None && final(self).waiting() == old(
                self,
            ).waiting(),
    {
        self.requests.pop()
    }
}

} // verus!
