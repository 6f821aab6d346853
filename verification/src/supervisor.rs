//! The supervisor: it orders the start of the bridge and decides what follows
//! when the caster is lost.
//!
//! Like the relay it does no work of its own. It is told what happened and
//! answers with the next thing to do.

use crate::caster::{plan_connect_url, plan_of_url, ConnectPlan, ConnectPlanView};
use crate::error::{ConnectError, ErrorClass};
use crate::relay::RelayEnd;
use crate::serial::{SerialSettings, BAUD_RATE};
use vstd::prelude::*;

verus! {

/// The time between two ticks, in milliseconds.
pub const TICK_MILLIS: u64 = 1000;

/// What becomes of the bridge when the correction relay ends.
#[derive(Clone, Copy, Debug, PartialEq, Eq, Structural)]
pub enum Mode {
    /// The caster is dialled again, and again, at the pace of the ticks.
    AlwaysOn,
    /// The bridge fails, and the failure is handed to whoever started it.
    SingleShot,
}

/// Where the supervisor stands.
#[derive(Clone, Copy, Debug, PartialEq, Eq, Structural)]
pub enum Phase {
    /// Not started.
    Idle,
    /// Started: the serial link is being opened, or the caster dialled.
    ConnectingCaster,
    /// Both directions are at work.
    Streaming,
    /// The caster is lost and will be dialled again at the next tick.
    Retrying,
    /// Given up.
    Failed,
    /// Stopped from outside.
    Stopped,
}

/// Why the supervisor gave up.
#[derive(Clone, Copy, Debug, PartialEq, Eq, Structural)]
pub enum Failure {
    /// The serial link could not be opened.
    SerialOpen,
    /// The caster could not be connected to.
    Caster(ConnectError),
    /// The correction relay ended.
    Relay(RelayEnd),
}

impl Failure {
    /// The class of this failure.
    pub open spec fn class_of(self) -> ErrorClass {
        match self {
            Failure::SerialOpen => ErrorClass::Connection,
            Failure::Caster(e) => e.class_of(),
            Failure::Relay(_) => ErrorClass::Io,
        }
    }

    /// The class of this failure.
    pub fn class(&self) -> (r: ErrorClass)
        ensures
            r == self.class_of(),
    {
        match self {
            Failure::SerialOpen => ErrorClass::Connection,
            Failure::Caster(e) => e.class(),
            Failure::Relay(_) => ErrorClass::Io,
        }
    }
}

/// What the supervisor is told.
#[derive(Clone, Copy, Debug, PartialEq, Eq, Structural)]
pub enum Event {
    /// The command to start.
    Start,
    /// The serial link is open.
    SerialOpened,
    /// The serial link could not be opened.
    SerialFailed,
    /// The caster answered and the correction stream is open.
    CasterConnected,
    /// No correction stream could be opened.
    CasterRefused(ConnectError),
    /// The correction relay ended.
    RelayEnded(RelayEnd),
    /// The time between two looks at the relay has passed.
    Tick,
    /// The command to stop.
    Stop,
}

/// What the supervisor asks for.
#[derive(Clone, Copy, Debug, PartialEq, Eq, Structural)]
pub enum Directive {
    /// Nothing: the event changes nothing.
    Nothing,
    /// Open the serial link.
    OpenSerial,
    /// Dial the caster.
    ConnectCaster,
    /// Start the correction relay on the new stream, and begin to read from the
    /// receiver.
    StartStreaming,
    /// Start the correction relay on the new stream. The reading from the
    /// receiver and the downstream server go on as they are.
    RespawnRelay,
    /// Wait for the next tick.
    AwaitTick,
    /// Stop everything and report the failure.
    Halt(Failure),
    /// Stop everything.
    Teardown,
    /// The start command is turned down: the bridge was started before.
    Reject,
}

/// What the supervisor reports of itself to the outside.
#[derive(Clone, Copy, Debug, PartialEq, Eq, Structural)]
pub enum Lifecycle {
    /// The correction stream is open.
    Connected,
    /// The correction stream is lost and will be opened again.
    Retrying,
    /// The bridge has given up.
    Failed,
}

/// All that the supervisor's decisions depend on.
#[derive(Clone, Copy, Debug, PartialEq, Eq, Structural)]
pub struct Control {
    /// The operating mode. It never changes.
    pub mode: Mode,
    /// The phase.
    pub phase: Phase,
    /// Whether the serial link is open.
    pub serial_open: bool,
    /// Whether the reading from the receiver has begun.
    pub receiving: bool,
    /// Why the supervisor gave up, once it has.
    pub failure: Option<Failure>,
}

impl Control {
    /// The control of a supervisor that was not started yet.
    pub open spec fn initial(mode: Mode) -> Control {
        Control { mode, phase: Phase::Idle, serial_open: false, receiving: false, failure: None }
    }

    /// What holds of every control that a supervisor can reach: nothing is
    /// streamed or retried without the serial link, the receiver is read only
    /// through an open link, and a failure is recorded exactly when failed.
    pub open spec fn wf(self) -> bool {
        &&& (self.phase is Streaming || self.phase is Retrying) ==> self.serial_open
        &&& self.phase is Streaming ==> self.receiving
        &&& self.phase is Idle ==> !self.serial_open
        &&& self.receiving ==> self.serial_open
        &&& self.failure is Some <==> self.phase is Failed
    }

    /// This control, failed for `failure`.
    pub open spec fn failed(self, failure: Failure) -> Control {
        Control { phase: Phase::Failed, failure: Some(failure), ..self }
    }

    /// This control in another phase.
    pub open spec fn in_phase(self, phase: Phase) -> Control {
        Control { phase, ..self }
    }

    /// What is reported to the outside in this state, if anything.
    pub open spec fn lifecycle(self) -> Option<Lifecycle> {
        match self.phase {
            Phase::Streaming => Some(Lifecycle::Connected),
            Phase::Retrying => Some(Lifecycle::Retrying),
            Phase::Failed => Some(Lifecycle::Failed),
            _ => None,
        }
    }
}

/// Whether a refusal by the caster is followed by another attempt: only in
/// the always-on mode, and only where another attempt can end otherwise.
pub open spec fn retries(mode: Mode, error: ConnectError) -> bool {
    mode is AlwaysOn && error.is_transient()
}

/// The supervisor's rule: the control after an event, and what is asked for.
pub open spec fn supervise(c: Control, event: Event) -> (Control, Directive) {
    match c.phase {
        Phase::Idle => match event {
            Event::Start => (c.in_phase(Phase::ConnectingCaster), Directive::OpenSerial),
            Event::Stop => (c.in_phase(Phase::Stopped), Directive::Teardown),
            _ => (c, Directive::Nothing),
        },
        Phase::ConnectingCaster => match event {
            Event::Start => (c, Directive::Reject),
            Event::Stop => (c.in_phase(Phase::Stopped), Directive::Teardown),
            Event::SerialOpened => if c.serial_open {
                (c, Directive::Nothing)
            } else {
                (Control { serial_open: true, ..c }, Directive::ConnectCaster)
            },
            Event::SerialFailed => if c.serial_open {
                (c, Directive::Nothing)
            } else {
                (c.failed(Failure::SerialOpen), Directive::Halt(Failure::SerialOpen))
            },
            Event::CasterConnected => if !c.serial_open {
                (c, Directive::Nothing)
            } else if c.receiving {
                (c.in_phase(Phase::Streaming), Directive::RespawnRelay)
            } else {
                (
                    Control { phase: Phase::Streaming, receiving: true, ..c },
                    Directive::StartStreaming,
                )
            },
            Event::CasterRefused(e) => if !c.serial_open {
                (c, Directive::Nothing)
            } else if retries(c.mode, e) {
                (c.in_phase(Phase::Retrying), Directive::AwaitTick)
            } else {
                (c.failed(Failure::Caster(e)), Directive::Halt(Failure::Caster(e)))
            },
            _ => (c, Directive::Nothing),
        },
        Phase::Streaming => match event {
            Event::Start => (c, Directive::Reject),
            Event::Stop => (c.in_phase(Phase::Stopped), Directive::Teardown),
            Event::RelayEnded(end) => match c.mode {
                Mode::AlwaysOn => (c.in_phase(Phase::Retrying), Directive::AwaitTick),
                Mode::SingleShot => (
                    c.failed(Failure::Relay(end)),
                    Directive::Halt(Failure::Relay(end)),
                ),
            },
            _ => (c, Directive::Nothing),
        },
        Phase::Retrying => match event {
            Event::Start => (c, Directive::Reject),
            Event::Stop => (c.in_phase(Phase::Stopped), Directive::Teardown),
            Event::Tick => (c.in_phase(Phase::ConnectingCaster), Directive::ConnectCaster),
            _ => (c, Directive::Nothing),
        },
        Phase::Failed | Phase::Stopped => match event {
            Event::Start => (c, Directive::Reject),
            _ => (c, Directive::Nothing),
        },
    }
}

/// The control after a run of events.
pub open spec fn supervise_all(c: Control, events: Seq<Event>) -> Control
    decreases events.len(),
{
    if events.len() == 0 {
        c
    } else {
        supervise_all(supervise(c, events.first()).0, events.drop_first())
    }
}

/// No event breaks what `Control::wf` says, and none changes the mode.
pub proof fn lemma_step_keeps_wf(c: Control, event: Event)
    requires
        c.wf(),
    ensures
        supervise(c, event).0.wf(),
        supervise(c, event).0.mode == c.mode,
{
}

/// Whatever happens to a supervisor from its start on, `Control::wf` holds of
/// it and its mode is the one it began with.
pub proof fn lemma_reachable_is_wf(mode: Mode, events: Seq<Event>)
    ensures
        supervise_all(Control::initial(mode), events).wf(),
        supervise_all(Control::initial(mode), events).mode == mode,
{
    lemma_run_keeps_wf(Control::initial(mode), events);
}

/// A run of events breaks nothing of what `Control::wf` says.
pub proof fn lemma_run_keeps_wf(c: Control, events: Seq<Event>)
    requires
        c.wf(),
    ensures
        supervise_all(c, events).wf(),
        supervise_all(c, events).mode == c.mode,
    decreases events.len(),
{
    if events.len() > 0 {
        lemma_step_keeps_wf(c, events.first());
        lemma_run_keeps_wf(supervise(c, events.first()).0, events.drop_first());
    }
}

/// Once failed or stopped, the supervisor stays as it is and asks for nothing.
pub proof fn lemma_end_is_final(c: Control, event: Event)
    requires
        c.phase is Failed || c.phase is Stopped,
    ensures
        supervise(c, event).0 == c,
        supervise(c, event).1 is Nothing || supervise(c, event).1 is Reject,
{
}

/// A start command is taken only by a supervisor that was not started yet;
/// any other turns it down and stays as it is.
pub proof fn lemma_start_is_taken_once(c: Control)
    ensures
        c.phase is Idle ==> supervise(c, Event::Start).1 is OpenSerial,
        !(c.phase is Idle) ==> supervise(c, Event::Start) == (c, Directive::Reject),
{
}

/// The serial link comes first: the caster is dialled, and streams are
/// started, only over an open link; and a link that cannot be opened is the
/// end.
pub proof fn lemma_serial_comes_first(c: Control, event: Event)
    requires
        c.wf(),
    ensures
        ({
            let d = supervise(c, event).1;
            d is ConnectCaster || d is StartStreaming || d is RespawnRelay
        }) ==> supervise(c, event).0.serial_open,
        c.phase is ConnectingCaster && !c.serial_open && event is SerialFailed ==> supervise(
            c,
            event,
        ) == (c.failed(Failure::SerialOpen), Directive::Halt(Failure::SerialOpen)),
{
}

/// In the always-on mode the end of the relay is never the end of the bridge:
/// the supervisor waits for a tick and dials again, and the serial link and
/// the reading from the receiver are as they were.
pub proof fn lemma_always_on_dials_again(c: Control, end: RelayEnd)
    requires
        c.wf(),
        c.mode is AlwaysOn,
        c.phase is Streaming,
    ensures
        supervise(c, Event::RelayEnded(end)) == (c.in_phase(Phase::Retrying), Directive::AwaitTick),
        supervise(c.in_phase(Phase::Retrying), Event::Tick) == (
            c.in_phase(Phase::ConnectingCaster),
            Directive::ConnectCaster,
        ),
        supervise(c.in_phase(Phase::ConnectingCaster), Event::CasterConnected) == (
            c,
            Directive::RespawnRelay,
        ),
{
}

/// In the single-shot mode the end of the relay is the end of the bridge, and
/// the reason is kept.
pub proof fn lemma_single_shot_gives_up(c: Control, end: RelayEnd)
    requires
        c.mode is SingleShot,
        c.phase is Streaming,
    ensures
        supervise(c, Event::RelayEnded(end)) == (
            c.failed(Failure::Relay(end)),
            Directive::Halt(Failure::Relay(end)),
        ),
        Failure::Relay(end).class_of() == ErrorClass::Io,
{
}

/// A URL that is refused is never dialled again, in either mode.
pub proof fn lemma_bad_configuration_is_final(c: Control, error: ConnectError)
    requires
        c.phase is ConnectingCaster,
        c.serial_open,
        error is InvalidScheme || error is MalformedUrl,
    ensures
        supervise(c, Event::CasterRefused(error)) == (
            c.failed(Failure::Caster(error)),
            Directive::Halt(Failure::Caster(error)),
        ),
{
}

/// The supervisor of one bridge.
#[derive(Debug)]
pub struct Supervisor {
    control: Control,
    plan: ConnectPlan,
    serial: SerialSettings,
}

impl Supervisor {
    /// The supervisor's control.
    pub closed spec fn control_of(&self) -> Control {
        self.control
    }

    /// How the caster is dialled.
    pub closed spec fn plan_of(&self) -> ConnectPlanView {
        self.plan@
    }

    /// The serial device.
    pub closed spec fn device_of(&self) -> Seq<char> {
        self.serial.device@
    }

    /// The speed of the serial link.
    pub closed spec fn baud_of(&self) -> u32 {
        self.serial.baud
    }

    /// A supervisor for the caster behind `url` and the receiver at `device`,
    /// not started yet. The URL is checked here, before anything is opened.
    pub fn new(mode: Mode, url: &str, device: &str, client: &str) -> (r: Result<
        Supervisor,
        ConnectError,
    >)
        ensures
            match r {
                Ok(s) => {
                    &&& plan_of_url(url@, client@) == Ok::<ConnectPlanView, ConnectError>(
                        s.plan_of(),
                    )
                    &&& s.control_of() == Control::initial(mode)
                    &&& s.device_of() == device@
                    &&& s.baud_of() == BAUD_RATE
                },
                Err(e) => plan_of_url(url@, client@) == Err::<ConnectPlanView, ConnectError>(e),
            },
    {
        match plan_connect_url(url, client) {
            Ok(plan) => Ok(
                Supervisor {
                    control: Control {
                        mode,
                        phase: Phase::Idle,
                        serial_open: false,
                        receiving: false,
                        failure: None,
                    },
                    plan,
                    serial: SerialSettings::new(device),
                },
            ),
            Err(e) => Err(e),
        }
    }

    /// The supervisor's control.
    pub fn control(&self) -> (r: Control)
        ensures
            r == self.control_of(),
    {
        self.control
    }

    /// The phase.
    pub fn phase(&self) -> (r: Phase)
        ensures
            r == self.control_of().phase,
    {
        self.control.phase
    }

    /// How the caster is dialled.
    pub fn plan(&self) -> (r: &ConnectPlan)
        ensures
            r@ == self.plan_of(),
    {
        &self.plan
    }

    /// How the serial link is opened.
    pub fn serial(&self) -> (r: &SerialSettings)
        ensures
            r.device@ == self.device_of(),
            r.baud == self.baud_of(),
    {
        &self.serial
    }

    /// What is reported to the outside in this state, if anything.
    pub fn lifecycle(&self) -> (r: Option<Lifecycle>)
        ensures
            r == self.control_of().lifecycle(),
    {
        match self.control.phase {
            Phase::Streaming => Some(Lifecycle::Connected),
            Phase::Retrying => Some(Lifecycle::Retrying),
            Phase::Failed => Some(Lifecycle::Failed),
            _ => None,
        }
    }

    /// Why the supervisor gave up, once it has.
    pub fn failure(&self) -> (r: Option<Failure>)
        ensures
            r == self.control_of().failure,
    {
        self.control.failure
    }

    /// Tells the supervisor what happened, and learns what to do next. What
    /// it dials and which device it opens never change.
    pub fn step(&mut self, event: Event) -> (d: Directive)
        ensures
            (final(self).control_of(), d) == supervise(old(self).control_of(), event),
            final(self).plan_of() == old(self).plan_of(),
            final(self).device_of() == old(self).device_of(),
            final(self).baud_of() == old(self).baud_of(),
    {
        let (next, directive) = decide(self.control, event);
        self.control = next;
        directive
    }
}

/// Whether a refusal by the caster is followed by another attempt.
pub fn will_retry(mode: Mode, error: ConnectError) -> (r: bool)
    ensures
        r == retries(mode, error),
{
    match mode {
        Mode::AlwaysOn => error.transient(),
        Mode::SingleShot => false,
    }
}

/// The supervisor's rule, computed.
pub fn decide(c: Control, event: Event) -> (r: (Control, Directive))
    ensures
        r == supervise(c, event),
{
    let stay = (c, Directive::Nothing);
    match c.phase {
        Phase::Failed | Phase::Stopped => match event {
            Event::Start => (c, Directive::Reject),
            _ => stay,
        },
        _ => match event {
            Event::Start => match c.phase {
                Phase::Idle => (
                    Control { phase: Phase::ConnectingCaster, ..c },
                    Directive::OpenSerial,
                ),
                _ => (c, Directive::Reject),
            },
            Event::Stop => (Control { phase: Phase::Stopped, ..c }, Directive::Teardown),
            Event::SerialOpened => match c.phase {
                Phase::ConnectingCaster => if c.serial_open {
                    stay
                } else {
                    (Control { serial_open: true, ..c }, Directive::ConnectCaster)
                },
                _ => stay,
            },
            Event::SerialFailed => match c.phase {
                Phase::ConnectingCaster => if c.serial_open {
                    stay
                } else {
                    give_up(c, Failure::SerialOpen)
                },
                _ => stay,
            },
            Event::CasterConnected => match c.phase {
                Phase::ConnectingCaster => if !c.serial_open {
                    stay
                } else if c.receiving {
                    (Control { phase: Phase::Streaming, ..c }, Directive::RespawnRelay)
                } else {
                    (
                        Control { phase: Phase::Streaming, receiving: true, ..c },
                        Directive::StartStreaming,
                    )
                },
                _ => stay,
            },
            Event::CasterRefused(e) => match c.phase {
                Phase::ConnectingCaster => if !c.serial_open {
                    stay
                } else if will_retry(c.mode, e) {
                    (Control { phase: Phase::Retrying, ..c }, Directive::AwaitTick)
                } else {
                    give_up(c, Failure::Caster(e))
                },
                _ => stay,
            },
            Event::RelayEnded(end) => match c.phase {
                Phase::Streaming => match c.mode {
                    Mode::AlwaysOn => (
                        Control { phase: Phase::Retrying, ..c },
                        Directive::AwaitTick,
                    ),
                    Mode::SingleShot => give_up(c, Failure::Relay(end)),
                },
                _ => stay,
            },
            Event::Tick => match c.phase {
                Phase::Retrying => (
                    Control { phase: Phase::ConnectingCaster, ..c },
                    Directive::ConnectCaster,
                ),
                _ => stay,
            },
        },
    }
}

fn give_up(c: Control, failure: Failure) -> (r: (Control, Directive))
    ensures
        r == (c.failed(failure), Directive::Halt(failure)),
{
    (Control { phase: Phase::Failed, failure: Some(failure), ..c }, Directive::Halt(failure))
}

} // verus!
