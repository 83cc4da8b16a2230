//! The supervisor of the helper process: its lifecycle state machine, the
//! router that folds decoded helper output into the cached state, and the
//! command surface for callers.
//!
//! The supervisor never touches a process itself. A lifecycle operation
//! changes the state and hands back the actions that the host has to carry
//! out, in order; where an action has an outcome that matters, the host
//! reports it back. Every child gets a number when its launch is planned, and
//! output is routed together with the number of the child it came from, so
//! that what a dead child left behind cannot touch the state of its successor.

use crate::codec::{command_line, encode_command, optional_json};
use crate::events::{
    action_views, event_views, Action, ActionView, Event, EventView, Inbound, InboundView,
    SpawnOutcome, SpawnOutcomeView,
};
use crate::json::{printed_json, Json};
use crate::model::{
    app_config_of, config_json, optional_config, optional_status, track_status_of, AppConfig,
    AppConfigView, TrackStatus, TrackStatusView,
};
use crate::text::{append_signed_decimal, same_text, signed_decimal};
use vstd::prelude::*;
use vstd::string::*;

verus! {

/// Where the helper is in its lifecycle.
#[derive(Debug, Clone, Copy, PartialEq, Eq, Structural)]
pub enum Phase {
    /// No helper runs and none is being launched.
    Stopped,
    /// A launch was planned and its outcome is awaited.
    Starting,
    /// The helper runs.
    Running,
}

/// Why a command was not handed out for writing.
#[derive(Debug, Clone, Copy, PartialEq, Eq, Structural)]
pub enum SendError {
    /// No helper runs.
    NotRunning,
}

/// The mathematical value of a [`Supervisor`].
pub struct SupervisorView {
    pub phase: Phase,
    /// The number of the child that was planned last.
    pub child: u64,
    pub status: Option<TrackStatusView>,
    pub config: Option<AppConfigView>,
}

/// The number that the child after `child` gets.
pub open spec fn next_child(child: u64) -> u64 {
    if child == u64::MAX {
        0
    } else {
        (child + 1) as u64
    }
}

/// The cached status and configuration belong to a running helper: while
/// none runs, both are absent.
pub open spec fn settled(s: SupervisorView) -> bool {
    !(s.phase is Running) ==> s.status is None && s.config is None
}

/// Whether `child` is the helper that runs now.
pub open spec fn live(s: SupervisorView, child: u64) -> bool {
    s.phase is Running && s.child == child
}

/// Whether the outcome of launching `child` is awaited.
pub open spec fn awaited(s: SupervisorView, child: u64) -> bool {
    s.phase is Starting && s.child == child
}

/// The state after a start was asked for.
pub open spec fn started(s: SupervisorView) -> SupervisorView {
    if s.phase is Stopped {
        SupervisorView {
            phase: Phase::Starting,
            child: next_child(s.child),
            status: s.status,
            config: s.config,
        }
    } else {
        s
    }
}

/// What the host has to do when a start was asked for: sweep, then spawn, or
/// nothing where a helper runs or is being launched already.
pub open spec fn start_plan(s: SupervisorView) -> Seq<ActionView> {
    if s.phase is Stopped {
        seq![ActionView::SweepOrphans, ActionView::Spawn(next_child(s.child))]
    } else {
        Seq::empty()
    }
}

/// The state after the host reported how the launch of `child` ended.
pub open spec fn launched(s: SupervisorView, child: u64, outcome: SpawnOutcomeView) -> SupervisorView {
    if awaited(s, child) {
        SupervisorView {
            phase: if outcome is Started {
                Phase::Running
            } else {
                Phase::Stopped
            },
            child: s.child,
            status: s.status,
            config: s.config,
        }
    } else {
        s
    }
}

/// What the host has to do after it reported how the launch of `child` ended.
pub open spec fn launch_plan(s: SupervisorView, child: u64, outcome: SpawnOutcomeView) -> Seq<
    ActionView,
> {
    if awaited(s, child) {
        match outcome {
            SpawnOutcomeView::Started => seq![
                ActionView::Emit(EventView::Log("Sidecar started"@)),
                ActionView::Emit(EventView::ServiceStatus(true)),
                ActionView::Write {
                    bytes: command_line("get-config"@, None),
                    on_failure: Some("Failed to request config"@),
                },
            ],
            SpawnOutcomeView::CommandFailed(why) => seq![
                ActionView::Emit(EventView::Log("Failed to create sidecar command: "@ + why)),
            ],
            SpawnOutcomeView::SpawnFailed(why) => seq![
                ActionView::Emit(EventView::Log("Failed to spawn sidecar: "@ + why)),
            ],
        }
    } else if outcome is Started {
        seq![ActionView::Kill(child)]
    } else {
        Seq::empty()
    }
}

/// The state after a stop was asked for.
pub open spec fn stopped(s: SupervisorView) -> SupervisorView {
    if s.phase is Running {
        SupervisorView { phase: Phase::Stopped, child: s.child, status: None, config: None }
    } else {
        s
    }
}

/// What the host has to do when a stop was asked for.
pub open spec fn stop_plan(s: SupervisorView) -> Seq<ActionView> {
    if s.phase is Running {
        seq![
            ActionView::Kill(s.child),
            ActionView::Emit(EventView::ServiceStatus(false)),
            ActionView::Emit(EventView::TrackStatus(None)),
            ActionView::Emit(EventView::ConfigUpdated(None)),
        ]
    } else {
        Seq::empty()
    }
}

/// The state after the application shut down.
pub open spec fn shut_down(s: SupervisorView) -> SupervisorView {
    SupervisorView { phase: Phase::Stopped, child: s.child, status: None, config: None }
}

/// What the host has to do when the application shuts down.
pub open spec fn shutdown_plan(s: SupervisorView) -> Seq<ActionView> {
    if s.phase is Running {
        seq![ActionView::Kill(s.child)]
    } else {
        Seq::empty()
    }
}

/// The log text for a helper that exited.
pub open spec fn exit_text(code: Option<i32>) -> Seq<char> {
    "Sidecar terminated: code="@ + match code {
        Some(c) => "Some("@ + signed_decimal(c as int) + ")"@,
        None => "None"@,
    }
}

/// The state after one unit of output of `child` was routed.
pub open spec fn routed(s: SupervisorView, child: u64, unit: InboundView) -> SupervisorView {
    match unit {
        InboundView::Line { text, message: Some(m) } => if live(s, child) && m.kind == "status"@
            && track_status_of(m.payload) is Some {
            SupervisorView {
                phase: s.phase,
                child: s.child,
                status: track_status_of(m.payload),
                config: s.config,
            }
        } else if live(s, child) && m.kind != "status"@ && m.kind == "config"@ && app_config_of(
            m.payload,
        ) is Some {
            SupervisorView {
                phase: s.phase,
                child: s.child,
                status: s.status,
                config: app_config_of(m.payload),
            }
        } else {
            s
        },
        InboundView::Exited(_) => if live(s, child) {
            SupervisorView { phase: Phase::Stopped, child: s.child, status: None, config: None }
        } else {
            s
        },
        _ => s,
    }
}

/// The events that routing one unit of output of `child` raises, in order.
pub open spec fn routed_events(s: SupervisorView, child: u64, unit: InboundView) -> Seq<EventView> {
    match unit {
        InboundView::Line { text, message } => match message {
            Some(m) => if m.kind == "status"@ {
                match track_status_of(m.payload) {
                    Some(status) => if live(s, child) {
                        seq![EventView::TrackStatus(Some(status))]
                    } else {
                        Seq::empty()
                    },
                    None => seq![
                        EventView::Log(
                            "Failed to decode status payload: "@ + printed_json(m.payload),
                        ),
                    ],
                }
            } else if m.kind == "config"@ {
                match app_config_of(m.payload) {
                    Some(config) => if live(s, child) {
                        seq![EventView::ConfigUpdated(Some(config))]
                    } else {
                        Seq::empty()
                    },
                    None => seq![EventView::Log("Failed to decode config payload"@)],
                }
            } else {
                seq![EventView::Log("Unknown message: "@ + text)]
            },
            None => if text.len() > 0 {
                seq![EventView::Log(text)]
            } else {
                Seq::empty()
            },
        },
        InboundView::Diagnostic(text) => seq![EventView::Log(text)],
        InboundView::Exited(code) => if live(s, child) {
            seq![
                EventView::Log(exit_text(code)),
                EventView::ServiceStatus(false),
                EventView::TrackStatus(None),
                EventView::ConfigUpdated(None),
            ]
        } else {
            seq![EventView::Log(exit_text(code))]
        },
    }
}

/// What asking to send a command yields: the line to write while the helper
/// runs, a refusal otherwise.
pub open spec fn send_plan(s: SupervisorView, command: Seq<char>, payload: Option<
    crate::json::JsonValue,
>) -> Result<Seq<u8>, SendError> {
    if s.phase is Running {
        Ok(command_line(command, payload))
    } else {
        Err(SendError::NotRunning)
    }
}

/// The bytes of an optional line.
pub open spec fn line_result(r: Result<Vec<u8>, SendError>) -> Result<Seq<u8>, SendError> {
    match r {
        Ok(line) => Ok(line@),
        Err(e) => Err(e),
    }
}

/// Every transition keeps the cache settled: whatever is asked of a settled
/// supervisor, the cached status and configuration are absent afterwards
/// unless the helper runs.
pub proof fn lemma_transitions_keep_settled(
    s: SupervisorView,
    child: u64,
    outcome: SpawnOutcomeView,
    unit: InboundView,
)
    requires
        settled(s),
    ensures
        settled(started(s)),
        settled(launched(s, child, outcome)),
        settled(stopped(s)),
        settled(shut_down(s)),
        settled(routed(s, child, unit)),
{
}

/// At most one child lives at a time. A spawn is planned only while the
/// supervisor is stopped; a stop or a shutdown of a running helper begins with
/// the kill of that very child; and a child that started although nobody
/// awaited it is killed at once.
pub proof fn lemma_one_child_at_a_time(s: SupervisorView, child: u64)
    ensures
        start_plan(s).len() > 0 ==> s.phase is Stopped,
        s.phase is Running ==> stop_plan(s)[0] == ActionView::Kill(s.child) && shutdown_plan(s)[0]
            == ActionView::Kill(s.child),
        !awaited(s, child) ==> launch_plan(s, child, SpawnOutcomeView::Started) == seq![
            ActionView::Kill(child),
        ] && launched(s, child, SpawnOutcomeView::Started) == s,
{
}

/// A start that is asked for while the helper runs or is being launched does
/// nothing: no sweep, no spawn, no event, no change. So two starts in a row
/// plan one child, and a start after a successful launch plans none.
pub proof fn lemma_repeated_start_does_nothing(s: SupervisorView)
    ensures
        !(s.phase is Stopped) ==> started(s) == s && start_plan(s) == Seq::<ActionView>::empty(),
        started(started(s)) == started(s),
        start_plan(started(s)) == Seq::<ActionView>::empty(),
        ({
            let running = launched(started(s), started(s).child, SpawnOutcomeView::Started);
            started(running) == running && start_plan(running) == Seq::<ActionView>::empty()
        }),
{
}

/// A stop that is asked for while no helper runs does nothing, so the second
/// of two stops in a row raises no event and changes nothing.
pub proof fn lemma_repeated_stop_does_nothing(s: SupervisorView)
    ensures
        !(s.phase is Running) ==> stopped(s) == s && stop_plan(s) == Seq::<ActionView>::empty(),
        stopped(stopped(s)) == stopped(s),
        stop_plan(stopped(s)) == Seq::<ActionView>::empty(),
{
}

/// After a stop the cached status and configuration are absent, and a stop
/// of a running helper has raised both clearing events, each carrying an
/// explicit absent value.
pub proof fn lemma_stop_clears_both(s: SupervisorView)
    requires
        settled(s),
    ensures
        stopped(s).status is None,
        stopped(s).config is None,
        !(stopped(s).phase is Running),
        s.phase is Running ==> stop_plan(s).contains(
            ActionView::Emit(EventView::TrackStatus(None)),
        ) && stop_plan(s).contains(ActionView::Emit(EventView::ConfigUpdated(None))),
{
    if s.phase is Running {
        assert(stop_plan(s)[2] == ActionView::Emit(EventView::TrackStatus(None)));
        assert(stop_plan(s)[3] == ActionView::Emit(EventView::ConfigUpdated(None)));
    }
}

/// While no helper runs, no command is handed out for writing, whatever its
/// name and payload.
pub proof fn lemma_nothing_is_sent_unless_running(
    s: SupervisorView,
    command: Seq<char>,
    payload: Option<crate::json::JsonValue>,
)
    requires
        !(s.phase is Running),
    ensures
        send_plan(s, command, payload) == Err::<Seq<u8>, SendError>(SendError::NotRunning),
{
}

/// Wherever a start plans a spawn, the orphan sweep stands right before it.
pub proof fn lemma_sweep_precedes_spawn(s: SupervisorView, i: int)
    requires
        0 <= i < start_plan(s).len(),
        start_plan(s)[i] is Spawn,
    ensures
        i > 0,
        start_plan(s)[i - 1] is SweepOrphans,
{
}

/// A message of a type other than status and configuration changes nothing
/// and raises exactly one log event, which holds the line.
pub proof fn lemma_unknown_type_only_logs(
    s: SupervisorView,
    child: u64,
    text: Seq<char>,
    message: crate::model::ProtocolMessageView,
)
    requires
        message.kind != "status"@,
        message.kind != "config"@,
    ensures
        routed(s, child, InboundView::Line { text, message: Some(message) }) == s,
        routed_events(s, child, InboundView::Line { text, message: Some(message) }) == seq![
            EventView::Log("Unknown message: "@ + text),
        ],
{
}

/// A line that holds no message changes nothing and, unless it is empty,
/// raises exactly one log event with the line's own text.
pub proof fn lemma_plain_text_only_logs(s: SupervisorView, child: u64, text: Seq<char>)
    ensures
        routed(s, child, InboundView::Line { text, message: None }) == s,
        text.len() > 0 ==> routed_events(s, child, InboundView::Line { text, message: None })
            == seq![EventView::Log(text)],
        text.len() == 0 ==> routed_events(s, child, InboundView::Line { text, message: None })
            == Seq::<EventView>::empty(),
{
}

/// The log text for a helper that exited.
pub fn exit_message(code: Option<i32>) -> (r: String)
    ensures
        r@ == exit_text(code),
{
    let mut text = "Sidecar terminated: code=".to_owned();
    match code {
        Some(c) => {
            text.append("Some(");
            append_signed_decimal(&mut text, c);
            text.append(")");
            assert(text@ =~= exit_text(code));
        },
        None => {
            text.append("None");
        },
    }
    text
}

/// `prefix` followed by `rest`.
pub fn prefixed(prefix: &str, rest: &str) -> (r: String)
    ensures
        r@ == prefix@ + rest@,
{
    let mut text = prefix.to_owned();
    text.append(rest);
    text
}

/// The supervisor's state: the lifecycle phase and the last status and
/// configuration that the running helper reported.
pub struct Supervisor {
    phase: Phase,
    child: u64,
    last_status: Option<TrackStatus>,
    last_config: Option<AppConfig>,
}

impl View for Supervisor {
    type V = SupervisorView;

    closed spec fn view(&self) -> SupervisorView {
        SupervisorView {
            phase: self.phase,
            child: self.child,
            status: optional_status(self.last_status),
            config: optional_config(self.last_config),
        }
    }
}

impl Default for Supervisor {
    fn default() -> (r: Self)
        ensures
            r@ == (SupervisorView { phase: Phase::Stopped, child: 0, status: None, config: None }),
    {
        Supervisor::new()
    }
}

impl Supervisor {
    #[verifier::type_invariant]
    spec fn cache_is_settled(&self) -> bool {
        settled(self@)
    }

    /// A supervisor of a helper that does not run yet.
    pub fn new() -> (r: Self)
        ensures
            r@ == (SupervisorView { phase: Phase::Stopped, child: 0, status: None, config: None }),
    {
        Supervisor { phase: Phase::Stopped, child: 0, last_status: None, last_config: None }
    }

    /// Where the helper is in its lifecycle.
    pub fn phase(&self) -> (r: Phase)
        ensures
            r == self@.phase,
    {
        self.phase
    }

    /// Whether the helper runs.
    pub fn get_service_status(&self) -> (r: bool)
        ensures
            r == (self@.phase is Running),
    {
        match self.phase {
            Phase::Running => true,
            _ => false,
        }
    }

    /// A copy of the last track status, absent while no helper runs.
    pub fn get_track_status(&self) -> (r: Option<TrackStatus>)
        ensures
            optional_status(r) == self@.status,
            settled(self@),
    {
        proof {
            use_type_invariant(self);
        }
        match &self.last_status {
            Some(status) => Some(status.copy()),
            None => None,
        }
    }

    /// A copy of the last configuration, absent while no helper runs.
    pub fn get_config(&self) -> (r: Option<AppConfig>)
        ensures
            optional_config(r) == self@.config,
            settled(self@),
    {
        proof {
            use_type_invariant(self);
        }
        match &self.last_config {
            Some(config) => Some(config.copy()),
            None => None,
        }
    }

    /// Asks for the helper to be started. While it is stopped this plans a
    /// new child: the host sweeps orphans, spawns, and reports the outcome
    /// with [`Supervisor::finish_start`]. Otherwise nothing happens.
    pub fn start(&mut self) -> (plan: Vec<Action>)
        ensures
            final(self)@ == started(old(self)@),
            action_views(plan@) == start_plan(old(self)@),
    {
        let mut plan: Vec<Action> = Vec::new();
        match self.phase {
            Phase::Stopped => {
                proof {
                    use_type_invariant(&*self);
                }
                let child = if self.child == u64::MAX {
                    0
                } else {
                    self.child + 1
                };
                self.child = child;
                self.phase = Phase::Starting;
                plan.push(Action::SweepOrphans);
                plan.push(Action::Spawn(child));
                assert(action_views(plan@) =~= start_plan(old(self)@));
            },
            _ => {
                assert(action_views(plan@) =~= start_plan(old(self)@));
            },
        }
        plan
    }

    /// Takes the outcome of launching `child`. Where that launch is awaited
    /// the helper is now running, and is asked for its configuration, or is
    /// stopped again, with the failure in the log. An outcome that nobody
    /// waits for changes nothing; a child that started all the same is
    /// killed.
    pub fn finish_start(&mut self, child: u64, outcome: SpawnOutcome) -> (plan: Vec<Action>)
        ensures
            final(self)@ == launched(old(self)@, child, outcome@),
            action_views(plan@) == launch_plan(old(self)@, child, outcome@),
    {
        proof {
            use_type_invariant(&*self);
        }
        let mut plan: Vec<Action> = Vec::new();
        let awaited = match self.phase {
            Phase::Starting => self.child == child,
            _ => false,
        };
        if awaited {
            match outcome {
                SpawnOutcome::Started => {
                    self.phase = Phase::Running;
                    plan.push(Action::Emit(Event::Log("Sidecar started".to_owned())));
                    plan.push(Action::Emit(Event::ServiceStatus(true)));
                    plan.push(
                        Action::Write {
                            bytes: encode_command("get-config", None),
                            on_failure: Some("Failed to request config".to_owned()),
                        },
                    );
                },
                SpawnOutcome::CommandFailed(why) => {
                    self.phase = Phase::Stopped;
                    plan.push(
                        Action::Emit(
                            Event::Log(prefixed("Failed to create sidecar command: ", why.as_str())),
                        ),
                    );
                },
                SpawnOutcome::SpawnFailed(why) => {
                    self.phase = Phase::Stopped;
                    plan.push(
                        Action::Emit(Event::Log(prefixed("Failed to spawn sidecar: ", why.as_str()))),
                    );
                },
            }
        } else {
            match outcome {
                SpawnOutcome::Started => {
                    plan.push(Action::Kill(child));
                },
                _ => {},
            }
        }
        assert(action_views(plan@) =~= launch_plan(old(self)@, child, outcome@));
        plan
    }

    /// Asks for the helper to be stopped. While it runs, the host kills it,
    /// the cache is cleared and observers are told; otherwise nothing
    /// happens.
    pub fn stop(&mut self) -> (plan: Vec<Action>)
        ensures
            final(self)@ == stopped(old(self)@),
            action_views(plan@) == stop_plan(old(self)@),
    {
        let mut plan: Vec<Action> = Vec::new();
        match self.phase {
            Phase::Running => {
                self.last_status = None;
                self.last_config = None;
                self.phase = Phase::Stopped;
                plan.push(Action::Kill(self.child));
                plan.push(Action::Emit(Event::ServiceStatus(false)));
                plan.push(Action::Emit(Event::TrackStatus(None)));
                plan.push(Action::Emit(Event::ConfigUpdated(None)));
            },
            _ => {},
        }
        assert(action_views(plan@) =~= stop_plan(old(self)@));
        plan
    }

    /// Stops the helper if it runs and starts it if it is stopped. Returns
    /// whether the helper is meant to run from now on.
    pub fn toggle_service(&mut self) -> (r: (bool, Vec<Action>))
        ensures
            r.0 == !(old(self)@.phase is Running),
            old(self)@.phase is Running ==> final(self)@ == stopped(old(self)@) && action_views(
                r.1@,
            ) == stop_plan(old(self)@),
            !(old(self)@.phase is Running) ==> final(self)@ == started(old(self)@) && action_views(
                r.1@,
            ) == start_plan(old(self)@),
    {
        if self.get_service_status() {
            let plan = self.stop();
            (false, plan)
        } else {
            let plan = self.start();
            (true, plan)
        }
    }

    /// Stops the helper and asks the host to terminate the application.
    pub fn quit_app(&mut self) -> (plan: Vec<Action>)
        ensures
            final(self)@ == stopped(old(self)@),
            action_views(plan@) == stop_plan(old(self)@) + seq![ActionView::ExitHost],
    {
        let mut plan = self.stop();
        plan.push(Action::ExitHost);
        assert(action_views(plan@) =~= stop_plan(old(self)@) + seq![ActionView::ExitHost]);
        plan
    }

    /// Winds the supervisor down when the application exits: the helper is
    /// killed if it runs, the cache is cleared, and no event is raised.
    pub fn shutdown(&mut self) -> (plan: Vec<Action>)
        ensures
            final(self)@ == shut_down(old(self)@),
            action_views(plan@) == shutdown_plan(old(self)@),
    {
        proof {
            use_type_invariant(&*self);
        }
        let mut plan: Vec<Action> = Vec::new();
        match self.phase {
            Phase::Running => {
                plan.push(Action::Kill(self.child));
            },
            _ => {},
        }
        self.last_status = None;
        self.last_config = None;
        self.phase = Phase::Stopped;
        assert(action_views(plan@) =~= shutdown_plan(old(self)@));
        plan
    }

    /// Encodes a command for the running helper. Returns the line that the
    /// host has to write, or a refusal, with nothing to write, while no
    /// helper runs.
    pub fn send(&self, command: &str, payload: Option<Json>) -> (r: Result<Vec<u8>, SendError>)
        ensures
            line_result(r) == send_plan(self@, command@, optional_json(payload)),
    {
        match self.phase {
            Phase::Running => Ok(encode_command(command, payload)),
            _ => Err(SendError::NotRunning),
        }
    }

    /// Asks the helper for its configuration.
    pub fn request_config(&self) -> (r: Result<Vec<u8>, SendError>)
        ensures
            line_result(r) == send_plan(self@, "get-config"@, None),
    {
        self.send("get-config", None)
    }

    /// Sends a new configuration to the helper.
    pub fn update_config(&self, config: &AppConfig) -> (r: Result<Vec<u8>, SendError>)
        ensures
            line_result(r) == send_plan(self@, "update-config"@, Some(config_json(config@))),
    {
        match self.phase {
            Phase::Running => self.send("update-config", Some(config.to_json())),
            _ => Err(SendError::NotRunning),
        }
    }

    /// Asks the helper to add a music folder.
    pub fn add_folder(&self) -> (r: Result<Vec<u8>, SendError>)
        ensures
            line_result(r) == send_plan(self@, "add-folder"@, None),
    {
        self.send("add-folder", None)
    }

    /// Asks the helper to open its configuration.
    pub fn open_config(&self) -> (r: Result<Vec<u8>, SendError>)
        ensures
            line_result(r) == send_plan(self@, "open-config"@, None),
    {
        self.send("open-config", None)
    }

    /// Routes one decoded unit of the output of `child`: updates the cache
    /// and returns the events to raise, in order.
    ///
    /// Diagnostics are always passed on. A status or configuration reaches
    /// the cache, and observers, only if `child` is the helper that runs now.
    /// When that helper exits, the supervisor stops and clears the cache as
    /// an explicit stop does, without a kill.
    pub fn route(&mut self, child: u64, unit: Inbound) -> (events: Vec<Event>)
        ensures
            final(self)@ == routed(old(self)@, child, unit@),
            event_views(events@) == routed_events(old(self)@, child, unit@),
    {
        proof {
            use_type_invariant(&*self);
        }
        let live = match self.phase {
            Phase::Running => self.child == child,
            _ => false,
        };
        let mut events: Vec<Event> = Vec::new();
        match unit {
            Inbound::Line { text, message } => match message {
                Some(m) => {
                    if same_text(m.kind.as_str(), "status") {
                        match TrackStatus::from_json(&m.payload) {
                            Some(status) => {
                                if live {
                                    self.last_status = Some(status.copy());
                                    events.push(Event::TrackStatus(Some(status)));
                                }
                            },
                            None => {
                                let printed = m.payload.print();
                                events.push(
                                    Event::Log(
                                        prefixed(
                                            "Failed to decode status payload: ",
                                            printed.as_str(),
                                        ),
                                    ),
                                );
                            },
                        }
                    } else if same_text(m.kind.as_str(), "config") {
                        match AppConfig::from_json(&m.payload) {
                            Some(config) => {
                                if live {
                                    self.last_config = Some(config.copy());
                                    events.push(Event::ConfigUpdated(Some(config)));
                                }
                            },
                            None => {
                                events.push(
                                    Event::Log("Failed to decode config payload".to_owned()),
                                );
                            },
                        }
                    } else {
                        events.push(Event::Log(prefixed("Unknown message: ", text.as_str())));
                    }
                },
                None => {
                    if !text.as_str().is_empty() {
                        events.push(Event::Log(text));
                    }
                },
            },
            Inbound::Diagnostic(text) => {
                events.push(Event::Log(text));
            },
            Inbound::Exited(code) => {
                events.push(Event::Log(exit_message(code)));
                if live {
                    self.last_status = None;
                    self.last_config = None;
                    self.phase = Phase::Stopped;
                    events.push(Event::ServiceStatus(false));
                    events.push(Event::TrackStatus(None));
                    events.push(Event::ConfigUpdated(None));
                }
            },
        }
        assert(event_views(events@) =~= routed_events(old(self)@, child, unit@));
        events
    }
}

} // verus!
