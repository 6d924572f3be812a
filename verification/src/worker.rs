//! The printer worker's decisions: how it retries opening the device, and
//! what it does with each command and each outcome of the outside work.
//! The worker thread performs the actions and feeds back the outcomes.
use vstd::prelude::*;

use crate::status::{unavailable, PrinterAvailability};

verus! {

/// How many times the device is opened before the worker gives up.
pub const CONNECT_ATTEMPTS: usize = 3;

/// The pause after the first failed open; the n-th failure waits n times this.
pub const RETRY_DELAY_MS: u64 = 250;

/// What to do after a failed attempt to open the printer device.
#[derive(Debug, PartialEq, Eq)]
pub enum RetryStep {
    /// Sleep this many milliseconds, then open the device again.
    Wait(u64),
    /// Stop: the connection failed with this error.
    GiveUp(String),
}

/// The state of one round of attempts to open the printer device.
pub struct ConnectRetry {
    failures: usize,
    last_error: String,
}

/// The message that stands for a connection error before any attempt failed.
pub open spec fn initial_connect_error() -> Seq<char> {
    "Printer connection failed"@
}

impl ConnectRetry {
    /// How many attempts have failed so far.
    pub closed spec fn failures(&self) -> nat {
        self.failures as nat
    }

    /// The error of the last failed attempt.
    pub closed spec fn last_error(&self) -> String {
        self.last_error
    }

    #[verifier::type_invariant]
    spec fn within_attempts(self) -> bool {
        self.failures <= CONNECT_ATTEMPTS
    }

    /// A fresh round: nothing has failed yet.
    pub fn new() -> (r: Self)
        ensures
            r.failures() == 0,
            r.last_error()@ == initial_connect_error(),
    {
        ConnectRetry { failures: 0, last_error: String::from_str("Printer connection failed") }
    }

    /// Whether the round has ended: every attempt failed.
    pub fn exhausted(&self) -> (b: bool)
        ensures
            b == (self.failures() == CONNECT_ATTEMPTS),
    {
        self.failures == CONNECT_ATTEMPTS
    }

    /// Records that an attempt failed with `error` and says what comes next:
    /// a pause of `RETRY_DELAY_MS` times the number of failures so far while
    /// attempts remain, else giving up with this last error. Once the round
    /// has ended, it stays ended and keeps its last error.
    pub fn failed(&mut self, error: String) -> (step: RetryStep)
        ensures
            retry_spec(*old(self), error, *final(self), step),
    {
        proof { use_type_invariant(&*self); }
        if self.failures == CONNECT_ATTEMPTS {
            return RetryStep::GiveUp(self.last_error.clone());
        }
        self.failures = self.failures + 1;
        if self.failures < CONNECT_ATTEMPTS {
            self.last_error = error;
            RetryStep::Wait(RETRY_DELAY_MS * (self.failures as u64))
        } else {
            self.last_error = error.clone();
            RetryStep::GiveUp(error)
        }
    }
}

/// One failed attempt: `before` records it as `after` and answers `step`.
/// While attempts remain, the failure is counted and becomes the last error;
/// the step is a pause of `RETRY_DELAY_MS` times the number of failures so far
/// while attempts remain after it, else giving up with this error. Once the
/// round has ended, it stays ended and keeps its last error.
pub open spec fn retry_spec(before: ConnectRetry, error: String, after: ConnectRetry, step: RetryStep) -> bool {
    &&& after.failures() <= CONNECT_ATTEMPTS
    &&& before.failures() < CONNECT_ATTEMPTS ==> {
        &&& after.failures() == before.failures() + 1
        &&& after.last_error() == error
        &&& if after.failures() < CONNECT_ATTEMPTS {
            step == RetryStep::Wait((RETRY_DELAY_MS * after.failures()) as u64)
        } else {
            step == RetryStep::GiveUp(error)
        }
    }
    &&& before.failures() == CONNECT_ATTEMPTS ==> {
        &&& after == before
        &&& step == RetryStep::GiveUp(before.last_error())
    }
}

/// Where the worker stands between two outside results.
#[derive(Debug, Clone, Copy, PartialEq, Eq, Structural)]
pub enum Phase {
    /// Opening the device for the first time.
    Starting,
    /// Waiting for the next command.
    Idle,
    /// A print command found the device closed and is reopening it.
    PrintConnecting,
    /// The device is out, printing a receipt.
    Printing,
    /// A status command is reopening the device.
    StatusConnecting,
    /// The device is out, answering the status requests.
    Checking,
}

/// An input to the worker: a command, or the outcome of the outside work
/// that the last action asked for. `H` is the open device.
#[derive(Debug)]
pub enum WorkerEvent<H> {
    PrintRequested,
    StatusRequested,
    /// The outcome of opening the device (with retries).
    Connected(Result<H, String>),
    /// The device back from printing, and how printing went.
    Printed(H, Result<(), String>),
    /// The device back from the status check, and what it found.
    Checked(H, Result<PrinterAvailability, String>),
}

/// What the worker asks for next.
#[derive(Debug, PartialEq, Eq)]
pub enum WorkerAction<H> {
    /// Wait for the next command.
    AwaitCommand,
    /// Open the device (with retries) and report the outcome.
    Connect,
    /// Print the current job on this device and hand it back.
    Print(H),
    /// Query the status of this device and hand it back.
    CheckStatus(H),
    /// Answer the current print command.
    ReplyPrint(Result<(), String>),
    /// Answer the current status command.
    ReplyStatus(PrinterAvailability),
}

/// The connection error that stands while a status command reopens the device.
pub open spec fn refreshing_message() -> Seq<char> {
    "Refreshing printer connection"@
}

/// The events that the worker accepts in each phase.
pub open spec fn accepts<H>(phase: Phase, event: WorkerEvent<H>) -> bool {
    match event {
        WorkerEvent::PrintRequested => phase == Phase::Idle,
        WorkerEvent::StatusRequested => phase == Phase::Idle,
        WorkerEvent::Connected(_) => phase == Phase::Starting || phase == Phase::PrintConnecting
            || phase == Phase::StatusConnecting,
        WorkerEvent::Printed(_, _) => phase == Phase::Printing,
        WorkerEvent::Checked(_, _) => phase == Phase::Checking,
    }
}

/// The availability answered for a failed connection or status check.
pub open spec fn unavailable_with(a: PrinterAvailability, error: String) -> bool {
    !a.available && !a.paper_present && !a.paper_low && a.message == error
}

/// One step of the worker: from its phase and connection (`None` while the
/// device is out) and an accepted event, the next phase, the next connection,
/// and whether `action` is the action that it asks for.
pub open spec fn step_spec<H>(
    phase: Phase,
    link: Option<Result<H, String>>,
    event: WorkerEvent<H>,
    next_phase: Phase,
    next_link: Option<Result<H, String>>,
    action: WorkerAction<H>,
) -> bool {
    match event {
        WorkerEvent::PrintRequested => match link {
            Some(Ok(h)) => next_phase == Phase::Printing && next_link is None
                && action == WorkerAction::Print(h),
            _ => next_phase == Phase::PrintConnecting && next_link == link
                && action == WorkerAction::<H>::Connect,
        },
        WorkerEvent::StatusRequested => next_phase == Phase::StatusConnecting
            && (next_link matches Some(Err(e)) && e@ == refreshing_message())
            && action == WorkerAction::<H>::Connect,
        WorkerEvent::Connected(outcome) => {
            if phase == Phase::Starting {
                next_phase == Phase::Idle && next_link == Some(outcome)
                    && action == WorkerAction::<H>::AwaitCommand
            } else if phase == Phase::PrintConnecting {
                match outcome {
                    Ok(h) => next_phase == Phase::Printing && next_link is None
                        && action == WorkerAction::Print(h),
                    Err(e) => next_phase == Phase::Idle && next_link == Some(Err::<H, String>(e))
                        && action == WorkerAction::<H>::ReplyPrint(Err(e)),
                }
            } else {
                match outcome {
                    Ok(h) => next_phase == Phase::Checking && next_link is None
                        && action == WorkerAction::CheckStatus(h),
                    Err(e) => next_phase == Phase::Idle && next_link == Some(Err::<H, String>(e))
                        && (action matches WorkerAction::ReplyStatus(a) && unavailable_with(a, e)),
                }
            }
        },
        WorkerEvent::Printed(h, outcome) => next_phase == Phase::Idle
            && action == WorkerAction::<H>::ReplyPrint(outcome)
            && match outcome {
                Ok(_) => next_link == Some(Ok::<H, String>(h)),
                Err(e) => next_link == Some(Err::<H, String>(e)),
            },
        WorkerEvent::Checked(h, outcome) => next_phase == Phase::Idle && match outcome {
            Ok(a) => next_link == Some(Ok::<H, String>(h)) && action == WorkerAction::<H>::ReplyStatus(a),
            Err(e) => next_link == Some(Err::<H, String>(e))
                && (action matches WorkerAction::ReplyStatus(a) && unavailable_with(a, e)),
        },
    }
}

/// The printer worker: its phase, and the device connection, which is
/// either open, or the error that closed it, or out with the thread that
/// prints or checks.
pub struct PrinterWorker<H> {
    state: WorkerState<H>,
}

struct WorkerState<H> {
    phase: Phase,
    link: Option<Result<H, String>>,
}

/// The device is out exactly while it is being opened for the first time,
/// printed on, or checked.
pub open spec fn device_out_rule<H>(phase: Phase, link: Option<Result<H, String>>) -> bool {
    (link is None) <==> (phase == Phase::Starting || phase == Phase::Printing || phase == Phase::Checking)
}

impl<H> PrinterWorker<H> {
    #[verifier::type_invariant]
    spec fn keeps_device_rule(self) -> bool {
        device_out_rule(self.state.phase, self.state.link)
    }

    pub closed spec fn phase(&self) -> Phase {
        self.state.phase
    }

    pub closed spec fn link(&self) -> Option<Result<H, String>> {
        self.state.link
    }

    /// A worker that starts by opening the device.
    pub fn new() -> (r: (Self, WorkerAction<H>))
        ensures
            device_out_rule(r.0.phase(), r.0.link()),
            r.0.phase() == Phase::Starting,
            r.1 == WorkerAction::<H>::Connect,
    {
        (PrinterWorker { state: WorkerState { phase: Phase::Starting, link: None } }, WorkerAction::Connect)
    }

    /// Whether the worker accepts `event` now.
    pub fn accepts(&self, event: &WorkerEvent<H>) -> (b: bool)
        ensures
            b == accepts(self.phase(), *event),
    {
        let phase = self.state.phase;
        match event {
            WorkerEvent::PrintRequested => phase == Phase::Idle,
            WorkerEvent::StatusRequested => phase == Phase::Idle,
            WorkerEvent::Connected(_) => phase == Phase::Starting || phase == Phase::PrintConnecting
                || phase == Phase::StatusConnecting,
            WorkerEvent::Printed(_, _) => phase == Phase::Printing,
            WorkerEvent::Checked(_, _) => phase == Phase::Checking,
        }
    }

    /// Takes one event and says what to do next. The device stays out
    /// exactly while it is being opened for the first time, printed on, or
    /// checked.
    pub fn step(&mut self, event: WorkerEvent<H>) -> (action: WorkerAction<H>)
        requires
            accepts(old(self).phase(), event),
        ensures
            device_out_rule(final(self).phase(), final(self).link()),
            step_spec(old(self).phase(), old(self).link(), event, final(self).phase(), final(self).link(), action),
    {
        proof { use_type_invariant(&*self); }
        let mut state = WorkerState { phase: Phase::Starting, link: None };
        std::mem::swap(&mut self.state, &mut state);
        let action = Self::transition(&mut state, event);
        self.state = state;
        action
    }

    fn transition(state: &mut WorkerState<H>, event: WorkerEvent<H>) -> (action: WorkerAction<H>)
        requires
            device_out_rule(old(state).phase, old(state).link),
            accepts(old(state).phase, event),
        ensures
            device_out_rule(final(state).phase, final(state).link),
            step_spec(old(state).phase, old(state).link, event, final(state).phase, final(state).link, action),
    {
        match event {
            WorkerEvent::PrintRequested => {
                let link = state.link.take();
                match link {
                    Some(Ok(h)) => {
                        state.phase = Phase::Printing;
                        WorkerAction::Print(h)
                    },
                    other => {
                        state.link = other;
                        state.phase = Phase::PrintConnecting;
                        WorkerAction::Connect
                    },
                }
            },
            WorkerEvent::StatusRequested => {
                state.link = Some(Err(String::from_str("Refreshing printer connection")));
                state.phase = Phase::StatusConnecting;
                WorkerAction::Connect
            },
            WorkerEvent::Connected(outcome) => {
                if state.phase == Phase::Starting {
                    state.link = Some(outcome);
                    state.phase = Phase::Idle;
                    WorkerAction::AwaitCommand
                } else if state.phase == Phase::PrintConnecting {
                    match outcome {
                        Ok(h) => {
                            state.link = None;
                            state.phase = Phase::Printing;
                            WorkerAction::Print(h)
                        },
                        Err(e) => {
                            state.link = Some(Err(e.clone()));
                            state.phase = Phase::Idle;
                            WorkerAction::ReplyPrint(Err(e))
                        },
                    }
                } else {
                    match outcome {
                        Ok(h) => {
                            state.link = None;
                            state.phase = Phase::Checking;
                            WorkerAction::CheckStatus(h)
                        },
                        Err(e) => {
                            state.link = Some(Err(e.clone()));
                            state.phase = Phase::Idle;
                            WorkerAction::ReplyStatus(unavailable(e))
                        },
                    }
                }
            },
            WorkerEvent::Printed(h, outcome) => {
                state.phase = Phase::Idle;
                match &outcome {
                    Ok(_) => {
                        state.link = Some(Ok(h));
                    },
                    Err(e) => {
                        state.link = Some(Err(e.clone()));
                    },
                }
                WorkerAction::ReplyPrint(outcome)
            },
            WorkerEvent::Checked(h, outcome) => {
                state.phase = Phase::Idle;
                match outcome {
                    Ok(a) => {
                        state.link = Some(Ok(h));
                        WorkerAction::ReplyStatus(a)
                    },
                    Err(e) => {
                        state.link = Some(Err(e.clone()));
                        WorkerAction::ReplyStatus(unavailable(e))
                    },
                }
            },
        }
    }
}

/// Law: a print that fails closes the connection with its error, so the
/// next print command reopens the device before printing.
pub proof fn lemma_failed_print_reconnects<H>(
    h: H,
    error: String,
    p1: Phase,
    l1: Option<Result<H, String>>,
    a1: WorkerAction<H>,
    p2: Phase,
    l2: Option<Result<H, String>>,
    a2: WorkerAction<H>,
)
    requires
        step_spec(Phase::Printing, None, WorkerEvent::Printed(h, Err(error)), p1, l1, a1),
        step_spec(p1, l1, WorkerEvent::<H>::PrintRequested, p2, l2, a2),
    ensures
        a1 == WorkerAction::<H>::ReplyPrint(Err(error)),
        p1 == Phase::Idle,
        l1 == Some(Err::<H, String>(error)),
        a2 == WorkerAction::<H>::Connect,
        p2 == Phase::PrintConnecting,
{
}

/// Law: a status command never trusts the open connection: whatever the
/// worker held, it drops it and reopens the device.
pub proof fn lemma_status_reconnects<H>(
    link: Option<Result<H, String>>,
    p: Phase,
    l: Option<Result<H, String>>,
    a: WorkerAction<H>,
)
    requires
        step_spec(Phase::Idle, link, WorkerEvent::<H>::StatusRequested, p, l, a),
    ensures
        a == WorkerAction::<H>::Connect,
        p == Phase::StatusConnecting,
        l matches Some(Err(e)) && e@ == refreshing_message(),
{
}

/// Law: every print command is answered within three steps, whatever the
/// device does: the reply is the connection error when the device cannot be
/// opened, else what printing returned; and the worker is idle again.
pub proof fn lemma_print_answered<H>(
    link: Option<Result<H, String>>,
    connected: Result<H, String>,
    printed: Result<(), String>,
    p1: Phase,
    l1: Option<Result<H, String>>,
    a1: WorkerAction<H>,
    p2: Phase,
    l2: Option<Result<H, String>>,
    a2: WorkerAction<H>,
    p3: Phase,
    l3: Option<Result<H, String>>,
    a3: WorkerAction<H>,
)
    requires
        link is Some,
        step_spec(Phase::Idle, link, WorkerEvent::<H>::PrintRequested, p1, l1, a1),
        a1 is Connect ==> step_spec(p1, l1, WorkerEvent::Connected(connected), p2, l2, a2),
        a2 matches WorkerAction::Print(h) ==> step_spec(p2, l2, WorkerEvent::Printed(h, printed), p3, l3, a3),
        a1 matches WorkerAction::Print(h) ==> step_spec(p1, l1, WorkerEvent::Printed(h, printed), p2, l2, a2),
    ensures
        a1 matches WorkerAction::Print(_) ==> (a2 == WorkerAction::<H>::ReplyPrint(printed) && p2 == Phase::Idle),
        a1 is Connect ==> (connected matches Err(e) ==> (a2 == WorkerAction::<H>::ReplyPrint(Err(e)) && p2 == Phase::Idle)),
        (a1 is Connect && connected is Ok) ==> (a3 == WorkerAction::<H>::ReplyPrint(printed) && p3 == Phase::Idle),
{
}

/// Law: every status command is answered within three steps; when the
/// device cannot be opened or checked, the answer reports nothing available
/// and carries the error, and the connection is left closed with it.
pub proof fn lemma_status_answered<H>(
    link: Option<Result<H, String>>,
    connected: Result<H, String>,
    checked: Result<PrinterAvailability, String>,
    p1: Phase,
    l1: Option<Result<H, String>>,
    a1: WorkerAction<H>,
    p2: Phase,
    l2: Option<Result<H, String>>,
    a2: WorkerAction<H>,
    p3: Phase,
    l3: Option<Result<H, String>>,
    a3: WorkerAction<H>,
)
    requires
        step_spec(Phase::Idle, link, WorkerEvent::<H>::StatusRequested, p1, l1, a1),
        step_spec(p1, l1, WorkerEvent::Connected(connected), p2, l2, a2),
        a2 matches WorkerAction::CheckStatus(h) ==> step_spec(p2, l2, WorkerEvent::Checked(h, checked), p3, l3, a3),
    ensures
        connected matches Err(e) ==> (a2 matches WorkerAction::ReplyStatus(a) && unavailable_with(a, e)
            && p2 == Phase::Idle && l2 == Some(Err::<H, String>(e))),
        connected is Ok ==> (checked matches Ok(s) ==> (a3 == WorkerAction::<H>::ReplyStatus(s) && p3 == Phase::Idle)),
        connected is Ok ==> (checked matches Err(e) ==> (a3 matches WorkerAction::ReplyStatus(a)
            && unavailable_with(a, e) && p3 == Phase::Idle && l3 == Some(Err::<H, String>(e)))),
{
}

/// Law: a round of attempts to open the device opens it at most
/// `CONNECT_ATTEMPTS` times: the first two failures wait 250 and 500 ms, and
/// the third gives up with its own error, whatever the errors are.
pub proof fn lemma_retry_round(
    r0: ConnectRetry,
    r1: ConnectRetry,
    r2: ConnectRetry,
    r3: ConnectRetry,
    e1: String,
    e2: String,
    e3: String,
    s1: RetryStep,
    s2: RetryStep,
    s3: RetryStep,
)
    requires
        r0.failures() == 0,
        retry_spec(r0, e1, r1, s1),
        retry_spec(r1, e2, r2, s2),
        retry_spec(r2, e3, r3, s3),
    ensures
        s1 == RetryStep::Wait(250),
        s2 == RetryStep::Wait(500),
        s3 == RetryStep::GiveUp(e3),
        r3.failures() == CONNECT_ATTEMPTS,
{
}

/// The event is a command.
pub open spec fn is_command<H>(e: WorkerEvent<H>) -> bool {
    e is PrintRequested || e is StatusRequested
}

/// The action answers a command.
pub open spec fn is_reply<H>(a: WorkerAction<H>) -> bool {
    a is ReplyPrint || a is ReplyStatus
}

/// A print command is being handled.
pub open spec fn print_pending(p: Phase) -> bool {
    p == Phase::PrintConnecting || p == Phase::Printing
}

/// A status command is being handled.
pub open spec fn status_pending(p: Phase) -> bool {
    p == Phase::StatusConnecting || p == Phase::Checking
}

/// How many commands there are among `events`.
pub open spec fn count_commands<H>(events: Seq<WorkerEvent<H>>) -> nat
    decreases events.len(),
{
    if events.len() == 0 {
        0
    } else {
        count_commands(events.drop_last()) + if is_command(events.last()) { 1nat } else { 0nat }
    }
}

/// How many replies there are among `actions`.
pub open spec fn count_replies<H>(actions: Seq<WorkerAction<H>>) -> nat
    decreases actions.len(),
{
    if actions.len() == 0 {
        0
    } else {
        count_replies(actions.drop_last()) + if is_reply(actions.last()) { 1nat } else { 0nat }
    }
}

/// The last command among `events`, if any.
pub open spec fn last_command<H>(events: Seq<WorkerEvent<H>>) -> Option<WorkerEvent<H>>
    decreases events.len(),
{
    if events.len() == 0 {
        None
    } else if is_command(events.last()) {
        Some(events.last())
    } else {
        last_command(events.drop_last())
    }
}

/// A run of the worker: `events[i]` is accepted in `phases[i]` with
/// connection `links[i]`, and takes it to `phases[i + 1]` and `links[i + 1]`
/// with `actions[i]`.
pub open spec fn is_run<H>(
    phases: Seq<Phase>,
    links: Seq<Option<Result<H, String>>>,
    events: Seq<WorkerEvent<H>>,
    actions: Seq<WorkerAction<H>>,
) -> bool {
    &&& phases.len() == events.len() + 1
    &&& links.len() == phases.len()
    &&& actions.len() == events.len()
    &&& forall|i: int| 0 <= i < events.len() ==> #[trigger] accepts(phases[i], events[i])
    &&& forall|i: int| 0 <= i < events.len() ==> #[trigger] step_spec(
        phases[i],
        links[i],
        events[i],
        phases[i + 1],
        links[i + 1],
        actions[i],
    )
}

/// Law: in any run from a worker that is starting or idle, commands are
/// handled one at a time and each is answered exactly once, by a reply of
/// its own kind:
/// - after the first `i` steps, the commands taken equal the replies given,
///   plus one while a command is being handled;
/// - while a command is being handled, it is the last command taken, and a
///   print is handled in the print phases, a status in the status phases;
/// - a command is only taken once every earlier command has been answered;
/// - the device is used (printed on or checked) only while a command is
///   being handled, and a reply answers the last command taken.
pub proof fn lemma_one_reply_per_command<H>(
    phases: Seq<Phase>,
    links: Seq<Option<Result<H, String>>>,
    events: Seq<WorkerEvent<H>>,
    actions: Seq<WorkerAction<H>>,
    i: int,
)
    requires
        is_run(phases, links, events, actions),
        phases[0] == Phase::Starting || phases[0] == Phase::Idle,
        0 <= i <= events.len(),
    ensures
        count_commands(events.take(i)) == count_replies(actions.take(i)) + if print_pending(phases[i])
            || status_pending(phases[i]) { 1nat } else { 0nat },
        print_pending(phases[i]) ==> last_command(events.take(i)) == Some(WorkerEvent::<H>::PrintRequested),
        status_pending(phases[i]) ==> last_command(events.take(i)) == Some(WorkerEvent::<H>::StatusRequested),
        i < events.len() && is_command(events[i]) ==> count_commands(events.take(i)) == count_replies(actions.take(i)),
        i < events.len() && (actions[i] is Print || actions[i] is CheckStatus) ==> count_commands(events.take(i + 1))
            == count_replies(actions.take(i + 1)) + 1,
        i < events.len() && actions[i] is ReplyPrint ==> last_command(events.take(i)) == Some(
            WorkerEvent::<H>::PrintRequested,
        ),
        i < events.len() && actions[i] is ReplyStatus ==> last_command(events.take(i)) == Some(
            WorkerEvent::<H>::StatusRequested,
        ),
    decreases i,
{
    if i > 0 {
        lemma_one_reply_per_command(phases, links, events, actions, i - 1);
        let j = i - 1;
        assert(accepts(phases[j], events[j]));
        assert(step_spec(phases[j], links[j], events[j], phases[j + 1], links[j + 1], actions[j]));
        assert(events.take(i).drop_last() =~= events.take(j));
        assert(actions.take(i).drop_last() =~= actions.take(j));
        assert(events.take(i).last() == events[j]);
        assert(actions.take(i).last() == actions[j]);
    } else {
        assert(events.take(0) =~= Seq::<WorkerEvent<H>>::empty());
        assert(actions.take(0) =~= Seq::<WorkerAction<H>>::empty());
    }
    if i < events.len() {
        assert(accepts(phases[i], events[i]));
        assert(step_spec(phases[i], links[i], events[i], phases[i + 1], links[i + 1], actions[i]));
        assert(events.take(i + 1).drop_last() =~= events.take(i));
        assert(actions.take(i + 1).drop_last() =~= actions.take(i));
        assert(events.take(i + 1).last() == events[i]);
        assert(actions.take(i + 1).last() == actions[i]);
    }
}

/// Law: the worker never stalls on its own request. After any step, the
/// event that brings the outcome of the action it asked for is accepted,
/// whatever that outcome is: the outcome of opening the device after
/// `Connect`, the same device back from printing after `Print`, the same
/// device back from the status check after `CheckStatus`; and after a reply
/// or `AwaitCommand`, both commands are accepted. Commands are accepted
/// only while the worker is idle.
pub proof fn lemma_actions_can_complete<H>(
    phase: Phase,
    link: Option<Result<H, String>>,
    event: WorkerEvent<H>,
    next_phase: Phase,
    next_link: Option<Result<H, String>>,
    action: WorkerAction<H>,
    connected: Result<H, String>,
    printed: Result<(), String>,
    checked: Result<PrinterAvailability, String>,
)
    requires
        accepts(phase, event),
        step_spec(phase, link, event, next_phase, next_link, action),
    ensures
        action is Connect ==> accepts(next_phase, WorkerEvent::Connected(connected)),
        action matches WorkerAction::Print(h) ==> accepts(next_phase, WorkerEvent::Printed(h, printed)),
        action matches WorkerAction::CheckStatus(h) ==> accepts(next_phase, WorkerEvent::Checked(h, checked)),
        (action is ReplyPrint || action is ReplyStatus || action is AwaitCommand) ==> (
            accepts(next_phase, WorkerEvent::<H>::PrintRequested)
            && accepts(next_phase, WorkerEvent::<H>::StatusRequested)),
        is_command(event) ==> phase == Phase::Idle,
{
}

/// Law: a new worker accepts the outcome of its first opening of the device.
pub proof fn lemma_start_can_complete<H>(connected: Result<H, String>)
    ensures
        accepts(Phase::Starting, WorkerEvent::Connected(connected)),
        !accepts(Phase::Starting, WorkerEvent::<H>::PrintRequested),
        !accepts(Phase::Starting, WorkerEvent::<H>::StatusRequested),
{
}
/// Law: a print command uses the device that is open without reopening
/// it, and reopens the device only when the connection is closed.
pub proof fn lemma_print_uses_open_device<H>(
    link: Option<Result<H, String>>,
    p: Phase,
    l: Option<Result<H, String>>,
    a: WorkerAction<H>,
)
    requires
        step_spec(Phase::Idle, link, WorkerEvent::<H>::PrintRequested, p, l, a),
    ensures
        link matches Some(Ok(h)) ==> (a == WorkerAction::Print(h) && l is None),
        link matches Some(Err(e)) ==> (a == WorkerAction::<H>::Connect && l == Some(Err::<H, String>(e))),
{
}

/// Law: after the first opening of the device, the worker is idle and
/// holds what the opening gave.
pub proof fn lemma_start_keeps_outcome<H>(
    connected: Result<H, String>,
    p: Phase,
    l: Option<Result<H, String>>,
    a: WorkerAction<H>,
)
    requires
        step_spec(Phase::Starting, None, WorkerEvent::Connected(connected), p, l, a),
    ensures
        p == Phase::Idle,
        l == Some(connected),
        a == WorkerAction::<H>::AwaitCommand,
{
}
} // verus!
