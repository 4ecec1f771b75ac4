//! The per-actor supervisor: the decisions of an actor's lifecycle, from
//! its one-time setup through its strictly sequential message loop to its
//! end. The driver that performs the work reports each event here and
//! carries out the action that comes back.
use vstd::prelude::*;

verus! {

/// Lifecycle state of one actor.
#[derive(Clone, Copy, Debug, PartialEq, Eq, Structural)]
pub enum RelayState {
    /// Mailbox and registry entry exist; setup has not begun.
    Starting,
    /// The one-time setup is running.
    Initializing,
    /// Running, and waiting for the next message.
    Idle,
    /// Running, and a handler is working on one message.
    Handling,
    /// Terminal.
    Stopped,
}

/// A failure that the relay reports.
#[derive(Clone, Copy, Debug, PartialEq, Eq, Structural)]
pub enum Failure {
    /// The actor's setup failed; it never handles a message.
    Initialization,
    /// A payload could not be decoded into the actor's message type.
    Decode,
    /// A handler returned an error.
    Handler,
}

/// How a handler run ended.
#[derive(Clone, Copy, Debug, PartialEq, Eq, Structural)]
pub enum Outcome {
    Done,
    DecodeFailed,
    HandlerFailed,
}

/// Something that happened to the actor, reported by the driver.
#[derive(Clone, Copy, Debug, PartialEq, Eq, Structural)]
pub enum Event {
    /// The driver wants to run the actor's setup.
    BeginInit,
    /// The setup finished, successfully or not.
    InitDone(bool),
    /// A message was taken from the mailbox and the driver wants to handle it.
    BeginMessage,
    /// The handler of the current message finished.
    MessageDone(Outcome),
    /// Someone asked the actor to stop.
    Stop,
}

/// What the driver must do next.
#[derive(Clone, Copy, Debug, PartialEq, Eq, Structural)]
pub enum Action {
    /// Go ahead with the step that the event asked for.
    Run,
    /// Wait for the next message.
    Continue,
    /// Report the failure; the actor goes on.
    Report(Failure),
    /// Remove the registry entry and close the mailbox, reporting the
    /// failure if there is one.
    Shutdown(Option<Failure>),
    /// Nothing now: a stop was recorded and takes effect when the running
    /// handler finishes.
    Deferred,
    /// The event is not allowed in the current state; nothing changed.
    Reject,
}

/// The supervisor of one actor.
#[derive(Clone, Copy, Debug, PartialEq, Eq, Structural)]
pub struct Relay {
    pub state: RelayState,
    /// A stop arrived while a handler was running.
    pub stop_requested: bool,
    /// Whether a handler error ends the actor.
    pub fatal_on_error: bool,
}

/// True while a setup or a handler of the actor is running.
pub open spec fn busy(s: RelayState) -> bool {
    s == RelayState::Initializing || s == RelayState::Handling
}

/// The state that ends a handler run, and the action to take.
pub open spec fn after_message(r: Relay, o: Outcome) -> (Relay, Action) {
    let failure = match o {
        Outcome::Done => None,
        Outcome::DecodeFailed => Some(Failure::Decode),
        Outcome::HandlerFailed => Some(Failure::Handler),
    };
    if r.stop_requested || (o == Outcome::HandlerFailed && r.fatal_on_error) {
        (Relay { state: RelayState::Stopped, stop_requested: false, ..r }, Action::Shutdown(failure))
    } else {
        match failure {
            Some(f) => (Relay { state: RelayState::Idle, ..r }, Action::Report(f)),
            None => (Relay { state: RelayState::Idle, ..r }, Action::Continue),
        }
    }
}

/// The transition of the lifecycle on event `e`, and the action to take.
pub open spec fn step_spec(r: Relay, e: Event) -> (Relay, Action) {
    match (r.state, e) {
        (RelayState::Starting, Event::BeginInit) => (
            Relay { state: RelayState::Initializing, ..r },
            Action::Run,
        ),
        (RelayState::Initializing, Event::InitDone(true)) => (
            Relay { state: RelayState::Idle, ..r },
            Action::Continue,
        ),
        (RelayState::Initializing, Event::InitDone(false)) => (
            Relay { state: RelayState::Stopped, ..r },
            Action::Shutdown(Some(Failure::Initialization)),
        ),
        (RelayState::Idle, Event::BeginMessage) => (Relay { state: RelayState::Handling, ..r }, Action::Run),
        (RelayState::Handling, Event::MessageDone(o)) => after_message(r, o),
        (RelayState::Handling, Event::Stop) => (Relay { stop_requested: true, ..r }, Action::Deferred),
        (RelayState::Stopped, Event::Stop) => (r, Action::Reject),
        (_, Event::Stop) => (Relay { state: RelayState::Stopped, ..r }, Action::Shutdown(None)),
        _ => (r, Action::Reject),
    }
}

impl Relay {
    /// The supervisor of a freshly registered actor.
    pub fn new(fatal_on_error: bool) -> (r: Relay)
        ensures
            r == (Relay { state: RelayState::Starting, stop_requested: false, fatal_on_error }),
    {
        Relay { state: RelayState::Starting, stop_requested: false, fatal_on_error }
    }

    /// Applies event `e` and says what the driver must do.
    pub fn step(&mut self, e: Event) -> (a: Action)
        ensures
            (*final(self), a) == step_spec(*old(self), e),
    {
        match (self.state, e) {
            (RelayState::Starting, Event::BeginInit) => {
                self.state = RelayState::Initializing;
                Action::Run
            },
            (RelayState::Initializing, Event::InitDone(ok)) => {
                if ok {
                    self.state = RelayState::Idle;
                    Action::Continue
                } else {
                    self.state = RelayState::Stopped;
                    Action::Shutdown(Some(Failure::Initialization))
                }
            },
            (RelayState::Idle, Event::BeginMessage) => {
                self.state = RelayState::Handling;
                Action::Run
            },
            (RelayState::Handling, Event::MessageDone(o)) => {
                let failure = match o {
                    Outcome::Done => None,
                    Outcome::DecodeFailed => Some(Failure::Decode),
                    Outcome::HandlerFailed => Some(Failure::Handler),
                };
                let fatal = match o {
                    Outcome::HandlerFailed => self.fatal_on_error,
                    _ => false,
                };
                if self.stop_requested || fatal {
                    self.state = RelayState::Stopped;
                    self.stop_requested = false;
                    Action::Shutdown(failure)
                } else {
                    self.state = RelayState::Idle;
                    match failure {
                        Some(f) => Action::Report(f),
                        None => Action::Continue,
                    }
                }
            },
            (RelayState::Handling, Event::Stop) => {
                self.stop_requested = true;
                Action::Deferred
            },
            (RelayState::Stopped, Event::Stop) => Action::Reject,
            (_, Event::Stop) => {
                self.state = RelayState::Stopped;
                Action::Shutdown(None)
            },
            _ => Action::Reject,
        }
    }

    /// True once the actor has ended.
    pub fn is_stopped(&self) -> (r: bool)
        ensures
            r == (self.state == RelayState::Stopped),
    {
        match self.state {
            RelayState::Stopped => true,
            _ => false,
        }
    }
}

/// The state after each of `es` in turn.
pub open spec fn run_spec(r: Relay, es: Seq<Event>) -> Relay
    decreases es.len(),
{
    if es.len() == 0 {
        r
    } else {
        run_spec(step_spec(r, es[0]).0, es.drop_first())
    }
}

/// Sequential handling: a handler may start only when neither the setup nor
/// another handler is running and the setup has succeeded, and the setup may
/// start only before anything else has happened. Every other start is
/// refused and changes nothing.
pub proof fn lemma_sequential_handling(r: Relay)
    ensures
        step_spec(r, Event::BeginMessage).1 == Action::Run ==> !busy(r.state) && r.state == RelayState::Idle,
        step_spec(r, Event::BeginMessage).1 != Action::Run ==> step_spec(r, Event::BeginMessage) == (r, Action::Reject),
        step_spec(r, Event::BeginInit).1 == Action::Run ==> r.state == RelayState::Starting,
        step_spec(r, Event::BeginInit).1 != Action::Run ==> step_spec(r, Event::BeginInit) == (r, Action::Reject),
{
}

/// No event leads back to `Starting`, so the setup runs at most once; and
/// no event leaves `Stopped`.
pub proof fn lemma_no_way_back(r: Relay, es: Seq<Event>)
    requires
        r.state != RelayState::Starting,
    ensures
        run_spec(r, es).state != RelayState::Starting,
        r.state == RelayState::Stopped ==> run_spec(r, es).state == RelayState::Stopped,
    decreases es.len(),
{
    if es.len() > 0 {
        lemma_no_way_back(step_spec(r, es[0]).0, es.drop_first());
    }
}

/// A failed setup ends the actor before it handles any message.
pub proof fn lemma_failed_init_stops(r: Relay)
    requires
        r.state == RelayState::Initializing,
    ensures
        step_spec(r, Event::InitDone(false)).0.state == RelayState::Stopped,
        step_spec(r, Event::InitDone(false)).1 == Action::Shutdown(Some(Failure::Initialization)),
{
}

} // verus!
