//! What flows between the library and its host: the output of the helper on
//! the way in, events for observers and actions for the host on the way out.

use crate::model::{
    optional_config, optional_message, optional_status, AppConfig, AppConfigView, ProtocolMessage,
    ProtocolMessageView, TrackStatus, TrackStatusView,
};
use vstd::prelude::*;

verus! {

/// An event raised towards observers.
#[derive(Debug, Clone, PartialEq)]
pub enum Event {
    /// The helper started or stopped running.
    ServiceStatus(bool),
    /// A new track status, or none when the status was cleared.
    TrackStatus(Option<TrackStatus>),
    /// A new configuration, or none when the configuration was cleared.
    ConfigUpdated(Option<AppConfig>),
    /// Free text for the diagnostic log.
    Log(String),
}

/// The mathematical value of an [`Event`].
pub enum EventView {
    ServiceStatus(bool),
    TrackStatus(Option<TrackStatusView>),
    ConfigUpdated(Option<AppConfigView>),
    Log(Seq<char>),
}

impl View for Event {
    type V = EventView;

    open spec fn view(&self) -> EventView {
        match self {
            Event::ServiceStatus(b) => EventView::ServiceStatus(*b),
            Event::TrackStatus(s) => EventView::TrackStatus(optional_status(*s)),
            Event::ConfigUpdated(c) => EventView::ConfigUpdated(optional_config(*c)),
            Event::Log(t) => EventView::Log(t@),
        }
    }
}

/// The name under which an event is raised.
pub open spec fn event_name(event: EventView) -> Seq<char> {
    match event {
        EventView::ServiceStatus(_) => "service-status"@,
        EventView::TrackStatus(_) => "track-status"@,
        EventView::ConfigUpdated(_) => "config-updated"@,
        EventView::Log(_) => "diagnostic-log"@,
    }
}

impl Event {
    /// The name under which this event is raised.
    pub fn name(&self) -> (r: &'static str)
        ensures
            r@ == event_name(self@),
    {
        match self {
            Event::ServiceStatus(_) => "service-status",
            Event::TrackStatus(_) => "track-status",
            Event::ConfigUpdated(_) => "config-updated",
            Event::Log(_) => "diagnostic-log",
        }
    }
}

/// The values of a sequence of events.
pub open spec fn event_views(events: Seq<Event>) -> Seq<EventView> {
    Seq::new(events.len(), |i: int| events[i]@)
}

/// The logical name of the helper executable. The host launches the helper
/// under this name, and the orphan sweep finds strays by it.
pub const HELPER_NAME: &'static str = "tini-presence-core";

/// How long the host waits after an orphan sweep, in milliseconds.
pub const SETTLE_MILLIS: u64 = 100;

/// Something the host has to do on behalf of the supervisor. Actions are
/// carried out in the order in which they are handed out.
#[derive(Debug, PartialEq)]
pub enum Action {
    /// Terminate every process that runs [`HELPER_NAME`], then wait for
    /// [`SETTLE_MILLIS`]. It is no fault if there is nothing to terminate.
    SweepOrphans,
    /// Launch [`HELPER_NAME`] with piped input and output and report the outcome.
    /// Output of this child is to be tagged with the given number.
    Spawn(u64),
    /// Forcibly terminate the child with the given number.
    Kill(u64),
    /// Write the bytes to the helper's input. Where the write fails and
    /// `on_failure` holds a text, log that text.
    Write { bytes: Vec<u8>, on_failure: Option<String> },
    /// Raise the event.
    Emit(Event),
    /// Terminate the hosting application.
    ExitHost,
}

/// The mathematical value of an [`Action`].
pub enum ActionView {
    SweepOrphans,
    Spawn(u64),
    Kill(u64),
    Write { bytes: Seq<u8>, on_failure: Option<Seq<char>> },
    Emit(EventView),
    ExitHost,
}

impl View for Action {
    type V = ActionView;

    open spec fn view(&self) -> ActionView {
        match self {
            Action::SweepOrphans => ActionView::SweepOrphans,
            Action::Spawn(c) => ActionView::Spawn(*c),
            Action::Kill(c) => ActionView::Kill(*c),
            Action::Write { bytes, on_failure } => ActionView::Write {
                bytes: bytes@,
                on_failure: crate::model::optional_chars(*on_failure),
            },
            Action::Emit(e) => ActionView::Emit(e@),
            Action::ExitHost => ActionView::ExitHost,
        }
    }
}

/// The values of a sequence of actions.
pub open spec fn action_views(actions: Seq<Action>) -> Seq<ActionView> {
    Seq::new(actions.len(), |i: int| actions[i]@)
}

/// How an attempt to launch the helper ended.
#[derive(Debug, Clone, PartialEq)]
pub enum SpawnOutcome {
    /// The helper runs.
    Started,
    /// The launch command could not be put together; the text says why.
    CommandFailed(String),
    /// The process could not be started; the text says why.
    SpawnFailed(String),
}

/// The mathematical value of a [`SpawnOutcome`].
pub enum SpawnOutcomeView {
    Started,
    CommandFailed(Seq<char>),
    SpawnFailed(Seq<char>),
}

impl View for SpawnOutcome {
    type V = SpawnOutcomeView;

    open spec fn view(&self) -> SpawnOutcomeView {
        match self {
            SpawnOutcome::Started => SpawnOutcomeView::Started,
            SpawnOutcome::CommandFailed(t) => SpawnOutcomeView::CommandFailed(t@),
            SpawnOutcome::SpawnFailed(t) => SpawnOutcomeView::SpawnFailed(t@),
        }
    }
}

/// One notification from the helper process, as the host receives it.
#[derive(Debug, Clone, PartialEq)]
pub enum HelperOutput {
    /// A chunk of the helper's standard output.
    Stdout(Vec<u8>),
    /// One line of the helper's standard error.
    Stderr(Vec<u8>),
    /// The helper exited, with its exit code if one is known.
    Terminated(Option<i32>),
    /// The output stream failed; the text says how.
    Error(String),
}

/// The mathematical value of a [`HelperOutput`].
pub enum HelperOutputView {
    Stdout(Seq<u8>),
    Stderr(Seq<u8>),
    Terminated(Option<i32>),
    Error(Seq<char>),
}

impl View for HelperOutput {
    type V = HelperOutputView;

    open spec fn view(&self) -> HelperOutputView {
        match self {
            HelperOutput::Stdout(b) => HelperOutputView::Stdout(b@),
            HelperOutput::Stderr(b) => HelperOutputView::Stderr(b@),
            HelperOutput::Terminated(c) => HelperOutputView::Terminated(*c),
            HelperOutput::Error(t) => HelperOutputView::Error(t@),
        }
    }
}

/// One decoded unit of helper output, ready for the router.
#[derive(Debug, PartialEq)]
pub enum Inbound {
    /// A line of standard output: its text without trailing white space, and
    /// the envelope it holds if it is a protocol message.
    Line { text: String, message: Option<ProtocolMessage> },
    /// Text that goes to the diagnostic log as it stands.
    Diagnostic(String),
    /// The helper exited.
    Exited(Option<i32>),
}

/// The mathematical value of an [`Inbound`].
pub enum InboundView {
    Line { text: Seq<char>, message: Option<ProtocolMessageView> },
    Diagnostic(Seq<char>),
    Exited(Option<i32>),
}

impl View for Inbound {
    type V = InboundView;

    open spec fn view(&self) -> InboundView {
        match self {
            Inbound::Line { text, message } => InboundView::Line {
                text: text@,
                message: optional_message(*message),
            },
            Inbound::Diagnostic(t) => InboundView::Diagnostic(t@),
            Inbound::Exited(c) => InboundView::Exited(*c),
        }
    }
}

/// The values of a sequence of inbound units.
pub open spec fn inbound_views(units: Seq<Inbound>) -> Seq<InboundView> {
    Seq::new(units.len(), |i: int| units[i]@)
}

/// The value of an optional inbound unit.
pub open spec fn optional_inbound(unit: Option<Inbound>) -> Option<InboundView> {
    match unit {
        Some(u) => Some(u@),
        None => None,
    }
}

} // verus!
