//! The order of the steps at startup.
//!
//! The process reads its one setting, connects to storage, and only then opens
//! its port. Each step can end the startup. The program performs the steps;
//! [`advance`] decides, after each, what comes next.

use vstd::prelude::*;

verus! {

/// How far the startup has come.
#[derive(Clone, Copy, Debug, PartialEq, Eq)]
pub enum Phase {
    /// Nothing has happened yet: the connection string is to be read.
    Configuring,
    /// The connection string is known: storage is being connected.
    Connecting,
    /// Storage is connected: the listener is bound and serves.
    Serving,
    /// The startup was given up. Nothing follows.
    Stopped,
}

/// What the program reports after performing a step.
#[derive(Clone, Debug, PartialEq, Eq)]
pub enum Event {
    /// The configuration was read: the storage connection string, if set.
    Configuration(Option<String>),
    /// The pool connected to storage.
    StorageConnected,
    /// The pool could not connect to storage.
    StorageFailed,
}

/// Why a startup was given up.
#[derive(Clone, Copy, Debug, PartialEq, Eq)]
pub enum StartupError {
    /// The storage connection string is not set.
    MissingConfiguration,
    /// Storage could not be connected.
    StorageUnavailable,
    /// An event was reported that the current phase does not wait for.
    OutOfOrder,
}

/// What the program is to do next.
#[derive(Clone, Debug, PartialEq, Eq)]
pub enum Action {
    /// Build the pool with this bound and connect it to storage.
    Connect { url: String, max_connections: u32 },
    /// Announce readiness, bind the listener and serve.
    Serve,
    /// Exit without serving.
    Abort(StartupError),
}

/// The value of an [`Action`].
pub enum ActionView {
    Connect { url: Seq<char>, max_connections: u32 },
    Serve,
    Abort(StartupError),
}

impl View for Action {
    type V = ActionView;

    open spec fn view(&self) -> ActionView {
        match *self {
            Action::Connect { url, max_connections } => ActionView::Connect {
                url: url@,
                max_connections,
            },
            Action::Serve => ActionView::Serve,
            Action::Abort(reason) => ActionView::Abort(reason),
        }
    }
}

/// The most connections that the pool lends out at once.
pub open spec fn pool_bound() -> u32 {
    5
}

/// The name of the setting that holds the storage connection string.
pub open spec fn connection_setting() -> Seq<char> {
    "DATABASE_URL"@
}

/// The local address that the listener binds.
pub open spec fn listen_host() -> Seq<char> {
    "127.0.0.1"@
}

/// The port that the listener binds.
pub open spec fn listen_port() -> u16 {
    8080
}

/// The line that announces readiness.
pub open spec fn readiness_text() -> Seq<char> {
    "Server running at http://localhost:8080"@
}

/// What the process says when it gives up for the given reason.
pub open spec fn abort_text(reason: StartupError) -> Seq<char> {
    match reason {
        StartupError::MissingConfiguration => "DATABASE_URL not set in .env"@,
        StartupError::StorageUnavailable => "Failed to connect to database"@,
        StartupError::OutOfOrder => "Startup steps reported out of order"@,
    }
}

impl StartupError {
    /// What the process says when it gives up for this reason.
    pub fn message(&self) -> (text: &'static str)
        ensures
            text@ == abort_text(*self),
    {
        match self {
            StartupError::MissingConfiguration => "DATABASE_URL not set in .env",
            StartupError::StorageUnavailable => "Failed to connect to database",
            StartupError::OutOfOrder => "Startup steps reported out of order",
        }
    }
}

/// The name of the setting that holds the storage connection string.
pub fn connection_setting_name() -> (name: &'static str)
    ensures
        name@ == connection_setting(),
{
    "DATABASE_URL"
}

/// The address and port that the listener binds.
pub fn listen_address() -> (address: (&'static str, u16))
    ensures
        address.0@ == listen_host(),
        address.1 == listen_port(),
{
    ("127.0.0.1", 8080)
}

/// The line printed when the process is ready to serve.
pub fn readiness_message() -> (text: &'static str)
    ensures
        text@ == readiness_text(),
{
    "Server running at http://localhost:8080"
}

/// The phase that follows `phase` on `event`.
pub open spec fn next_phase(phase: Phase, event: Event) -> Phase {
    match (phase, event) {
        (Phase::Configuring, Event::Configuration(Some(_))) => Phase::Connecting,
        (Phase::Connecting, Event::StorageConnected) => Phase::Serving,
        _ => Phase::Stopped,
    }
}

/// What is to be done when `event` is reported in `phase`.
pub open spec fn action_for(phase: Phase, event: Event) -> ActionView {
    match (phase, event) {
        (Phase::Configuring, Event::Configuration(Some(url))) => ActionView::Connect {
            url: url@,
            max_connections: pool_bound(),
        },
        (Phase::Configuring, Event::Configuration(None)) => ActionView::Abort(
            StartupError::MissingConfiguration,
        ),
        (Phase::Connecting, Event::StorageConnected) => ActionView::Serve,
        (Phase::Connecting, Event::StorageFailed) => ActionView::Abort(
            StartupError::StorageUnavailable,
        ),
        _ => ActionView::Abort(StartupError::OutOfOrder),
    }
}

/// The phase reached from the start after the given events, in order.
pub open spec fn phase_after(events: Seq<Event>) -> Phase
    decreases events.len(),
{
    if events.len() == 0 {
        Phase::Configuring
    } else {
        next_phase(phase_after(events.drop_last()), events.last())
    }
}

/// Whether the last of the given events, reported after the others, makes the
/// program bind its listener.
pub open spec fn opens_listener(events: Seq<Event>) -> bool {
    events.len() > 0 && action_for(phase_after(events.drop_last()), events.last())
        == ActionView::Serve
}

/// Whether the event reports a connection string that is set.
pub open spec fn is_configured(event: Event) -> bool {
    event matches Event::Configuration(Some(_))
}

/// Where a run of events stands: each phase but the last is reached by
/// exactly one shape of run.
pub proof fn lemma_phase_after(events: Seq<Event>)
    ensures
        phase_after(events) == Phase::Configuring <==> events.len() == 0,
        phase_after(events) == Phase::Connecting <==> events.len() == 1 && is_configured(events[0]),
        phase_after(events) == Phase::Serving <==> events.len() == 2 && is_configured(events[0])
            && events[1] == Event::StorageConnected,
    decreases events.len(),
{
    if events.len() > 0 {
        let earlier = events.drop_last();
        lemma_phase_after(earlier);
        if earlier.len() > 0 {
            assert(earlier[0] == events[0]);
        }
    }
}

/// The listener is bound on exactly one run: the connection string was set,
/// and then storage connected.
pub proof fn lemma_listener_needs_configuration_and_storage(events: Seq<Event>)
    ensures
        opens_listener(events) <==> events.len() == 2 && is_configured(events[0]) && events[1]
            == Event::StorageConnected,
{
    if events.len() > 0 {
        let earlier = events.drop_last();
        lemma_phase_after(earlier);
        if earlier.len() > 0 {
            assert(earlier[0] == events[0]);
        }
    }
}

/// Once the connection string is found missing, the startup is over: whatever
/// is reported afterwards, the listener is never bound.
pub proof fn lemma_missing_configuration_never_serves(events: Seq<Event>)
    requires
        events.len() > 0,
        events[0] == Event::Configuration(None),
    ensures
        phase_after(events) == Phase::Stopped,
        !opens_listener(events),
        action_for(Phase::Configuring, events[0]) == ActionView::Abort(
            StartupError::MissingConfiguration,
        ),
{
    lemma_phase_after(events);
    lemma_listener_needs_configuration_and_storage(events);
}

/// Decides the next step of the startup.
///
/// A connection string leads to connecting, with the fixed pool bound; a
/// missing one ends the startup. A connection leads to serving; a failed one
/// ends the startup. Any event that the phase does not wait for ends it too.
pub fn advance(phase: Phase, event: Event) -> (next: (Phase, Action))
    ensures
        next.0 == next_phase(phase, event),
        next.1@ == action_for(phase, event),
{
    match phase {
        Phase::Configuring => match event {
            Event::Configuration(Some(url)) => (
                Phase::Connecting,
                Action::Connect { url, max_connections: 5 },
            ),
            Event::Configuration(None) => (
                Phase::Stopped,
                Action::Abort(StartupError::MissingConfiguration),
            ),
            _ => (Phase::Stopped, Action::Abort(StartupError::OutOfOrder)),
        },
        Phase::Connecting => match event {
            Event::StorageConnected => (Phase::Serving, Action::Serve),
            Event::StorageFailed => (
                Phase::Stopped,
                Action::Abort(StartupError::StorageUnavailable),
            ),
            _ => (Phase::Stopped, Action::Abort(StartupError::OutOfOrder)),
        },
        _ => (Phase::Stopped, Action::Abort(StartupError::OutOfOrder)),
    }
}

} // verus!
