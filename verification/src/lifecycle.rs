use vstd::prelude::*;
use crate::config::ServerConfig;
use crate::config::spec_validate;
use crate::coordinator::FireOutcome;
use crate::coordinator::ShutdownCoordinator;
use crate::counter::ConnectionCounter;

verus! {

/// The single source of truth for what actions are currently valid.
/// Exactly one value is current at any time; it is owned exclusively by
/// the [`LifecycleController`] and only read by the caller.
#[derive(Clone, Debug, PartialEq)]
pub enum ServerStatus {
    Stopped,
    Starting,
    Running,
    Stopping,
    Error(String),
}

/// The human-readable form of each status, as shown to the caller.
pub open spec fn spec_status_label(s: ServerStatus) -> Seq<char> {
    match s {
        ServerStatus::Stopped => "Stopped"@,
        ServerStatus::Starting => "Starting..."@,
        ServerStatus::Running => "Running"@,
        ServerStatus::Stopping => "Stopping..."@,
        ServerStatus::Error(e) => "Error: "@ + e@,
    }
}

impl ServerStatus {
    /// Render the status for display.
    pub fn label(&self) -> (s: String)
        ensures
            s@ == spec_status_label(*self),
    {
        match self {
            ServerStatus::Stopped => String::from_str("Stopped"),
            ServerStatus::Starting => String::from_str("Starting..."),
            ServerStatus::Running => String::from_str("Running"),
            ServerStatus::Stopping => String::from_str("Stopping..."),
            ServerStatus::Error(e) => {
                let mut s = String::from_str("Error: ");
                s.append(e.as_str());
                s
            },
        }
    }
}

/// Mathematical view of a [`ServerStatus`].
#[verifier::ext_equal]
pub ghost enum StatusView {
    Stopped,
    Starting,
    Running,
    Stopping,
    Error { msg: Seq<char> },
}

pub open spec fn status_view(s: ServerStatus) -> StatusView {
    match s {
        ServerStatus::Stopped => StatusView::Stopped,
        ServerStatus::Starting => StatusView::Starting,
        ServerStatus::Running => StatusView::Running,
        ServerStatus::Stopping => StatusView::Stopping,
        ServerStatus::Error(m) => StatusView::Error { msg: m@ },
    }
}

/// Mathematical view of a [`LifecycleController`].
#[verifier::ext_equal]
pub ghost struct Model {
    pub status: StatusView,
    /// In-flight request tally.
    pub active: nat,
    /// Whether an unconsumed shutdown signal exists.
    pub armed: bool,
    /// Timestamp (whole seconds) of the last transition into Running.
    pub started_at: Option<u64>,
}

/// One observable step of a server run: a caller command, a phase-1 or
/// phase-2 completion reported by the serving runtime, or one side of a
/// request's scoped counter acquisition. Where the outside world decides
/// an outcome (is the listening half of the shutdown channel still
/// alive?), the event carries that outcome, so every possible run is some
/// sequence of events.
pub ghost enum Event {
    /// `start()` was accepted or rejected according to the current status.
    Start,
    /// Phase-1 bind finished successfully at `now_seconds`.
    BindOk { now_seconds: u64 },
    /// Phase-1 bind failed.
    BindErr { msg: Seq<char> },
    /// `stop()`; `listener_alive` tells whether the serving side still
    /// held its end of the shutdown channel.
    Stop { listener_alive: bool },
    /// The phase-2 serving task resolved after a graceful drain.
    ServeResolved,
    /// The phase-2 serving task failed with an unrecoverable fault.
    ServeFault { msg: Seq<char> },
    /// A request was accepted and tallied.
    RequestBegin,
    /// An in-flight request completed and was untallied.
    RequestEnd,
}

/// Statuses from which `start` begins a new run.
pub open spec fn can_start(s: StatusView) -> bool {
    s is Stopped || s is Error
}

/// Statuses from which `stop` initiates a shutdown.
pub open spec fn can_stop(s: StatusView) -> bool {
    s is Starting || s is Running
}

/// The transition function of the lifecycle state machine. Events that
/// are not valid for the current status leave the model unchanged: the
/// controller is safe to drive from a caller that cannot know the current
/// state.
pub open spec fn step(m: Model, e: Event) -> Model {
    match e {
        Event::Start => if can_start(m.status) {
            Model { status: StatusView::Starting, armed: true, ..m }
        } else {
            m
        },
        Event::BindOk { now_seconds } => if m.status is Starting {
            Model { status: StatusView::Running, started_at: Some(now_seconds), ..m }
        } else {
            m
        },
        Event::BindErr { msg } => if m.status is Starting {
            Model { status: StatusView::Error { msg }, armed: false, ..m }
        } else if m.status is Stopping && m.active == 0 {
            // Stop was requested while binding was still in progress and
            // the bind then failed: nothing was ever bound, so the run
            // settles in Stopped rather than Error.
            Model { status: StatusView::Stopped, started_at: None, ..m }
        } else {
            m
        },
        Event::Stop { listener_alive } => if can_stop(m.status) {
            if listener_alive {
                Model { status: StatusView::Stopping, armed: false, ..m }
            } else {
                // The serving side is already gone, so there is nothing to
                // drain: settle immediately and clear the stale tally.
                Model { status: StatusView::Stopped, armed: false, active: 0, started_at: None, ..m }
            }
        } else {
            m
        },
        Event::ServeResolved => if m.status is Stopping && m.active == 0 {
            Model { status: StatusView::Stopped, started_at: None, ..m }
        } else {
            m
        },
        Event::ServeFault { msg } => if m.status is Running {
            Model { status: StatusView::Error { msg }, active: 0, armed: false, ..m }
        } else if m.status is Stopping {
            // A fault during the drain is fail-safe toward stopping: a stop
            // was already asked for, so the run settles in Stopped with the
            // tally cleared, and the fault is only logged.
            Model { status: StatusView::Stopped, active: 0, started_at: None, ..m }
        } else {
            m
        },
        Event::RequestBegin => if m.status is Running && m.active < usize::MAX {
            Model { active: m.active + 1, ..m }
        } else {
            m
        },
        Event::RequestEnd => if (m.status is Running || m.status is Stopping) && m.active > 0 {
            Model { active: (m.active - 1) as nat, ..m }
        } else {
            m
        },
    }
}

/// The model of a freshly constructed controller.
pub open spec fn init_model() -> Model {
    Model { status: StatusView::Stopped, active: 0, armed: false, started_at: None }
}

/// Run the state machine over a whole sequence of events.
pub open spec fn run(m: Model, es: Seq<Event>) -> Model
    decreases es.len(),
{
    if es.len() == 0 {
        m
    } else {
        run(step(m, es[0]), es.subrange(1, es.len() as int))
    }
}

/// The controller's invariant: a shutdown signal is armed exactly while a
/// run is starting or serving; no request is tallied unless the listener
/// ran; a running listener has a start timestamp, and a stopped one has
/// none.
pub open spec fn inv(m: Model) -> bool {
    &&& m.armed <==> (m.status is Starting || m.status is Running)
    &&& (m.status is Stopped || m.status is Starting || m.status is Error) ==> m.active == 0
    &&& m.status is Running ==> m.started_at is Some
    &&& m.status is Stopped ==> m.started_at is None
}

pub proof fn lemma_step_preserves_inv(m: Model, e: Event)
    requires
        inv(m),
    ensures
        inv(step(m, e)),
{
}

pub proof fn lemma_run_preserves_inv(m: Model, es: Seq<Event>)
    requires
        inv(m),
    ensures
        inv(run(m, es)),
    decreases es.len(),
{
    if es.len() > 0 {
        lemma_step_preserves_inv(m, es[0]);
        lemma_run_preserves_inv(step(m, es[0]), es.subrange(1, es.len() as int));
    }
}

/// Law: over every sequence of events — any interleaving of request
/// arrivals and completions with control actions — the connection tally
/// never goes negative (it is a `nat`) and is exactly zero whenever the
/// status is Stopped. It is also zero in Starting and in Error.
pub proof fn lemma_counter_zero_when_inactive(es: Seq<Event>)
    ensures
        inv(run(init_model(), es)),
        !(run(init_model(), es).status is Running || run(init_model(), es).status is Stopping)
            ==> run(init_model(), es).active == 0,
{
    lemma_run_preserves_inv(init_model(), es);
}

/// Law: a `start()` followed immediately by `stop()` before the bind
/// completes settles in Stopped with no request ever tallied, whichever
/// way the bind then turns out. On bind success the serving task is still
/// launched, sees the already-fired signal, drains at once and resolves,
/// releasing the socket; on bind failure nothing was ever bound.
pub proof fn lemma_stop_before_bind_settles_stopped(
    m: Model,
    now_seconds: u64,
    msg: Seq<char>,
)
    requires
        inv(m),
        can_start(m.status),
    ensures
        ({
            let stopping = step(step(m, Event::Start), Event::Stop { listener_alive: true });
            &&& stopping.status is Stopping
            &&& stopping.active == 0
            &&& step(
                step(stopping, Event::BindOk { now_seconds }),
                Event::ServeResolved,
            ).status is Stopped
            &&& step(stopping, Event::BindErr { msg }).status is Stopped
        }),
{
}

/// Law: the Error status is entered only from Starting (a bind failure)
/// or from Running (an unrecoverable serve fault). In particular nothing
/// that happens during Stopping escalates: once a stop is under way,
/// anomalies are fail-safe toward Stopped.
pub proof fn lemma_error_only_from_starting_or_running(m: Model, e: Event)
    requires
        inv(m),
        !(m.status is Error),
        step(m, e).status is Error,
    ensures
        (m.status is Starting && e is BindErr) || (m.status is Running && e is ServeFault),
{
}

/// Law: once a stop has settled in Stopped, a second `stop()` is a no-op:
/// it does not alter the status, the tally, or anything else.
pub proof fn lemma_second_stop_is_noop(m: Model, first_alive: bool, second_alive: bool)
    requires
        inv(m),
    ensures
        ({
            let m1 = step(m, Event::Stop { listener_alive: first_alive });
            m1.status is Stopped ==> step(m1, Event::Stop { listener_alive: second_alive }) == m1
        }),
{
}

/// Law: `start()` while already Starting or Running is a no-op, so a
/// second start never creates a second listener or shutdown pair: the one
/// armed signal stays as it is.
pub proof fn lemma_second_start_is_noop(m: Model)
    requires
        inv(m),
        m.status is Starting || m.status is Running,
    ensures
        step(m, Event::Start) == m,
{
}

/// The server lifecycle controller: the state machine governing
/// start/stop transitions, the graceful-shutdown handshake and the
/// in-flight request tally. It is the sole object the external caller
/// interacts with; all transitions on one instance are serialized.
///
/// The controller decides; the surrounding runtime acts. `start` and
/// `stop` perform the decision and the shutdown handshake themselves,
/// while the outside work they call for (binding the socket, running the
/// accept loop) is reported back through the `on_*` event methods, each of
/// which refines one [`Event`] of the model.
pub struct LifecycleController {
    status: ServerStatus,
    counter: ConnectionCounter,
    coordinator: ShutdownCoordinator,
    started_at: Option<u64>,
}

impl View for LifecycleController {
    type V = Model;

    closed spec fn view(&self) -> Model {
        Model {
            status: status_view(self.status),
            active: self.counter.spec_count(),
            armed: self.coordinator.armed(),
            started_at: self.started_at,
        }
    }
}

impl LifecycleController {
    pub fn new() -> (c: LifecycleController)
        ensures
            c@ == init_model(),
    {
        LifecycleController {
            status: ServerStatus::Stopped,
            counter: ConnectionCounter::new(),
            coordinator: ShutdownCoordinator::new(),
            started_at: None,
        }
    }

    /// The current status, the caller's single source of truth.
    pub fn status(&self) -> (s: &ServerStatus)
        ensures
            status_view(*s) == self@.status,
    {
        &self.status
    }

    /// The current in-flight request tally.
    pub fn active_connections(&self) -> (n: usize)
        ensures
            n == self@.active,
    {
        self.counter.current()
    }

    /// Timestamp of the last transition into Running, if any.
    pub fn started_at(&self) -> (t: Option<u64>)
        ensures
            t == self@.started_at,
    {
        self.started_at
    }

    /// Begin a new run: validate the configuration, arm a fresh shutdown
    /// pair and move to Starting. Returns the validated configuration to
    /// bind with and the shutdown token for the serving task, or `None`
    /// when a run is already starting, running or stopping — an
    /// informational no-op, never an error, so only one listener/shutdown
    /// pair ever exists per run.
    pub fn start(&mut self, raw: ServerConfig) -> (r: Option<
        (ServerConfig, tokio::sync::oneshot::Receiver<()>),
    >)
        ensures
            final(self)@ == step(old(self)@, Event::Start),
            r is Some <==> can_start(old(self)@.status),
            r matches Some(p) ==> p.0@ == spec_validate(raw@),
    {
        match self.status {
            ServerStatus::Stopped | ServerStatus::Error(_) => {
                let validated = raw.validate();
                let token = self.coordinator.arm();
                self.status = ServerStatus::Starting;
                Some((validated, token))
            },
            _ => None,
        }
    }

    /// Phase-1 bind succeeded at `now_seconds`: if still Starting, move to
    /// Running and record the start timestamp. If a stop arrived while the
    /// bind was in flight (or the event is stale), nothing changes: the
    /// already-fired signal will drain the fresh listener at once.
    pub fn on_bind_success(&mut self, now_seconds: u64)
        ensures
            final(self)@ == step(old(self)@, Event::BindOk { now_seconds }),
    {
        if let ServerStatus::Starting = self.status {
            self.status = ServerStatus::Running;
            self.started_at = Some(now_seconds);
        }
    }

    /// Phase-1 bind failed (address in use, permission denied, invalid
    /// combination): from Starting this surfaces as `Error(msg)` with the
    /// unused shutdown signal discarded — resumable via a new `start()`.
    /// If a stop arrived while the bind was in flight, the run settles in
    /// Stopped instead: nothing was ever bound.
    pub fn on_bind_failure(&mut self, msg: String)
        ensures
            final(self)@ == step(old(self)@, Event::BindErr { msg: msg@ }),
    {
        match self.status {
            ServerStatus::Starting => {
                self.coordinator.disarm();
                self.status = ServerStatus::Error(msg);
            },
            ServerStatus::Stopping => {
                if self.counter.current() == 0 {
                    self.started_at = None;
                    self.status = ServerStatus::Stopped;
                }
            },
            _ => {},
        }
    }

    /// Ask the run to stop. From Starting or Running this fires the armed
    /// shutdown signal and moves to Stopping; should the serving side
    /// already be gone, there is nothing to drain and the run settles in
    /// Stopped at once. From any other status it is an informational
    /// no-op, never an error.
    pub fn stop(&mut self) -> (o: FireOutcome)
        requires
            inv(old(self)@),
        ensures
            o is NotArmed <==> !can_stop(old(self)@.status),
            o is Signaled ==> final(self)@ == step(
                old(self)@,
                Event::Stop { listener_alive: true },
            ),
            o is ListenerGone ==> final(self)@ == step(
                old(self)@,
                Event::Stop { listener_alive: false },
            ),
            o is NotArmed ==> final(self)@ == old(self)@,
    {
        match self.status {
            ServerStatus::Starting | ServerStatus::Running => {
                let outcome = self.coordinator.fire();
                match outcome {
                    FireOutcome::Signaled => {
                        self.status = ServerStatus::Stopping;
                    },
                    FireOutcome::ListenerGone | FireOutcome::NotArmed => {
                        self.counter.reset();
                        self.started_at = None;
                        self.status = ServerStatus::Stopped;
                    },
                }
                outcome
            },
            _ => FireOutcome::NotArmed,
        }
    }

    /// The phase-2 serving task resolved after a graceful drain: from
    /// Stopping with no request still tallied, the run settles in Stopped
    /// and the start timestamp is cleared.
    pub fn on_serve_resolved(&mut self)
        ensures
            final(self)@ == step(old(self)@, Event::ServeResolved),
    {
        if let ServerStatus::Stopping = self.status {
            if self.counter.current() == 0 {
                self.started_at = None;
                self.status = ServerStatus::Stopped;
            }
        }
    }

    /// The phase-2 serving task failed with an unrecoverable fault. From
    /// Running this is an implicit stop: the tally is forcibly reset, the
    /// signal discarded, and the fault surfaces as `Error(msg)` — resumable
    /// via a new `start()`. From Stopping a stop was already asked for, so
    /// the fault only ends the drain: the run settles in Stopped with the
    /// tally cleared, and the caller's log sink keeps the message.
    pub fn on_serve_fault(&mut self, msg: String)
        ensures
            final(self)@ == step(old(self)@, Event::ServeFault { msg: msg@ }),
    {
        match self.status {
            ServerStatus::Running => {
                self.coordinator.disarm();
                self.counter.reset();
                self.status = ServerStatus::Error(msg);
            },
            ServerStatus::Stopping => {
                self.counter.reset();
                self.started_at = None;
                self.status = ServerStatus::Stopped;
            },
            _ => {},
        }
    }

    /// A request arrived: tally it if the listener is accepting (Running)
    /// and the tally has room. Returns whether it was tallied; the caller
    /// must pair every `true` with one later `request_end`.
    pub fn request_begin(&mut self) -> (accepted: bool)
        ensures
            final(self)@ == step(old(self)@, Event::RequestBegin),
            accepted <==> (old(self)@.status is Running && old(self)@.active < usize::MAX),
    {
        match self.status {
            ServerStatus::Running => {
                if self.counter.current() < usize::MAX {
                    self.counter.increment();
                    true
                } else {
                    false
                }
            },
            _ => false,
        }
    }

    /// A tallied request completed: release its slot. Completions are
    /// accepted while Running and during the Stopping drain; a stale
    /// completion after a fault reset changes nothing.
    pub fn request_end(&mut self)
        ensures
            final(self)@ == step(old(self)@, Event::RequestEnd),
    {
        match self.status {
            ServerStatus::Running | ServerStatus::Stopping => {
                if self.counter.current() > 0 {
                    self.counter.decrement();
                }
            },
            _ => {},
        }
    }
}

} // verus!
