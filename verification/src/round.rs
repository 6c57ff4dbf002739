//! One round: a `ct-agent channel` initiator is dialled with the visitor's message, and what it
//! prints becomes the events of the round.
//!
//! `Round` decides; whoever runs it spawns the process, feeds in what happens and broadcasts the
//! events that come back.

use vstd::prelude::*;

use crate::environment::{ct_agent_bin, value_or, Environment};
use crate::event::{event_views, Event, EventView};
use crate::log_line::{
    connection_line, is_connection_line, relay_transport, relay_transport_from_log_line,
};
use crate::text::{is_blank, join, optional_text, trim};

verus! {

/// The service that every round calls.
pub const SERVICE: &'static str = "text_generation";

/// How many seconds a dial may take, from the spawning of the initiator to its exit. Generous,
/// since a peer behind a NAT takes its time, but bounded, so that a stuck admission fails loudly.
pub const INITIATOR_TIMEOUT_SECS: u64 = 60;

/// Everything one `ct-agent channel` initiator dial needs.
pub struct DialParams {
    pub scenario: &'static str,
    pub broker_addr: String,
    pub relay_addr: String,
    pub holder_key_hex: String,
    pub noise_key_hex: String,
    pub grant_hex: String,
    pub front_door_addr: String,
    pub front_door_cert_hex: String,
}

/// The texts behind `DialParams`.
pub struct DialView {
    pub scenario: Seq<char>,
    pub broker_addr: Seq<char>,
    pub relay_addr: Seq<char>,
    pub holder_key_hex: Seq<char>,
    pub noise_key_hex: Seq<char>,
    pub grant_hex: Seq<char>,
    pub front_door_addr: Seq<char>,
    pub front_door_cert_hex: Seq<char>,
}

impl View for DialParams {
    type V = DialView;

    open spec fn view(&self) -> DialView {
        DialView {
            scenario: self.scenario@,
            broker_addr: self.broker_addr@,
            relay_addr: self.relay_addr@,
            holder_key_hex: self.holder_key_hex@,
            noise_key_hex: self.noise_key_hex@,
            grant_hex: self.grant_hex@,
            front_door_addr: self.front_door_addr@,
            front_door_cert_hex: self.front_door_cert_hex@,
        }
    }
}

impl DialView {
    /// The variables of the initiator's environment, each with its value. The initiator stays
    /// behind the relay and may still be upgraded in band; the front door is its second rung.
    pub open spec fn environment(self) -> Seq<(Seq<char>, Seq<char>)> {
        seq![
            ("CT_CHANNEL_ROLE"@, "initiate"@),
            ("CT_CHANNEL_BROKER"@, self.broker_addr),
            ("CT_CHANNEL_RELAY"@, self.relay_addr),
            ("CT_CHANNEL_RELAY_ONLY"@, "1"@),
            ("CT_CHANNEL_HOLDER_KEY"@, self.holder_key_hex),
            ("CT_CHANNEL_NOISE_KEY"@, self.noise_key_hex),
            ("CT_CHANNEL_GRANT"@, self.grant_hex),
            ("CT_CHANNEL_CALL_SERVICE"@, SERVICE@),
            ("CT_CHANNEL_FRONT_DOOR"@, self.front_door_addr),
            ("CT_CHANNEL_FRONT_DOOR_CERT"@, self.front_door_cert_hex),
            ("CT_CHANNEL_DIRECT_UPGRADE"@, "1"@),
        ]
    }
}

/// The process that a dial takes: the program, its arguments, the variables to set in its
/// environment, and all that it reads on its standard input.
pub struct DialCommand {
    pub program: String,
    pub arguments: Vec<&'static str>,
    pub environment: Vec<(&'static str, String)>,
    pub input: String,
}

/// The texts behind a `DialCommand`.
pub struct DialCommandView {
    pub program: Seq<char>,
    pub arguments: Seq<Seq<char>>,
    pub environment: Seq<(Seq<char>, Seq<char>)>,
    pub input: Seq<char>,
}

impl View for DialCommand {
    type V = DialCommandView;

    open spec fn view(&self) -> DialCommandView {
        DialCommandView {
            program: self.program@,
            arguments: self.arguments@.map_values(|a: &'static str| a@),
            environment: variable_views(self.environment@),
            input: self.input@,
        }
    }
}

/// The texts behind a list of environment variables.
pub open spec fn variable_views(vars: Seq<(&'static str, String)>) -> Seq<(Seq<char>, Seq<char>)> {
    vars.map_values(|v: (&'static str, String)| (v.0@, v.1@))
}

impl DialParams {
    /// The variables to set in the environment of `ct-agent channel`.
    pub fn environment(&self) -> (r: Vec<(&'static str, String)>)
        ensures
            variable_views(r@) == self@.environment(),
    {
        let r = vec![
            ("CT_CHANNEL_ROLE", "initiate".to_owned()),
            ("CT_CHANNEL_BROKER", self.broker_addr.clone()),
            ("CT_CHANNEL_RELAY", self.relay_addr.clone()),
            ("CT_CHANNEL_RELAY_ONLY", "1".to_owned()),
            ("CT_CHANNEL_HOLDER_KEY", self.holder_key_hex.clone()),
            ("CT_CHANNEL_NOISE_KEY", self.noise_key_hex.clone()),
            ("CT_CHANNEL_GRANT", self.grant_hex.clone()),
            ("CT_CHANNEL_CALL_SERVICE", SERVICE.to_owned()),
            ("CT_CHANNEL_FRONT_DOOR", self.front_door_addr.clone()),
            ("CT_CHANNEL_FRONT_DOOR_CERT", self.front_door_cert_hex.clone()),
            ("CT_CHANNEL_DIRECT_UPGRADE", "1".to_owned()),
        ];
        assert(variable_views(r@) =~= self@.environment());
        r
    }

    /// The arguments of `ct-agent`.
    pub fn arguments(&self) -> (r: Vec<&'static str>)
        ensures
            r@.len() == 1,
            r@[0]@ == "channel"@,
    {
        vec!["channel"]
    }

    /// The process that dials with the message.
    pub fn command(&self, env: &Environment, message: &str) -> (r: DialCommand)
        ensures
            r@ == (DialCommandView {
                program: value_or(env@, "CT_AGENT_BIN"@, "ct-agent"@),
                arguments: seq!["channel"@],
                environment: self@.environment(),
                input: message@.push('\n'),
            }),
    {
        let r = DialCommand {
            program: ct_agent_bin(env),
            arguments: self.arguments(),
            environment: self.environment(),
            input: request_line(message),
        };
        assert(r@.arguments =~= seq!["channel"@]);
        r
    }
}

/// What the initiator reads on its standard input: the message and a line feed.
pub fn request_line(message: &str) -> (r: String)
    ensures
        r@ == message@.push('\n'),
{
    let r = join(message, "\n");
    proof {
        reveal_strlit("\n");
        assert(message@ + "\n"@ =~= message@.push('\n'));
    }
    r
}

/// How far a round has come.
#[derive(Clone, Copy, Debug, PartialEq, Eq, Structural)]
pub enum Stage {
    /// Announced; the initiator is being spawned.
    Dialing,
    /// The initiator runs.
    Running,
    /// Nothing more happens.
    Over,
}

/// How the wait for the initiator ended. Statuses and errors come as their text.
pub enum Exit {
    /// It exited with status 0.
    Success,
    /// It exited otherwise.
    Failure(String),
    /// Its status could not be had.
    WaitFailed(String),
    /// It did not finish in time.
    TimedOut,
}

/// Something that happens to the initiator.
pub enum Input {
    Spawned,
    SpawnFailed(String),
    /// A line on its standard error.
    Stderr(String),
    /// A line on its standard output.
    Stdout(String),
    Exited(Exit),
}

/// The texts behind an `Exit`.
pub enum ExitView {
    Success,
    Failure(Seq<char>),
    WaitFailed(Seq<char>),
    TimedOut,
}

/// The texts behind an `Input`.
pub enum InputView {
    Spawned,
    SpawnFailed(Seq<char>),
    Stderr(Seq<char>),
    Stdout(Seq<char>),
    Exited(ExitView),
}

impl View for Exit {
    type V = ExitView;

    open spec fn view(&self) -> ExitView {
        match self {
            Exit::Success => ExitView::Success,
            Exit::Failure(status) => ExitView::Failure(status@),
            Exit::WaitFailed(error) => ExitView::WaitFailed(error@),
            Exit::TimedOut => ExitView::TimedOut,
        }
    }
}

impl View for Input {
    type V = InputView;

    open spec fn view(&self) -> InputView {
        match self {
            Input::Spawned => InputView::Spawned,
            Input::SpawnFailed(error) => InputView::SpawnFailed(error@),
            Input::Stderr(line) => InputView::Stderr(line@),
            Input::Stdout(line) => InputView::Stdout(line@),
            Input::Exited(exit) => InputView::Exited(exit@),
        }
    }
}

/// A round under way.
pub struct Round {
    scenario: &'static str,
    round: u32,
    stage: Stage,
    reply: Option<String>,
}

/// What a round knows: which it is, how far it has come, and the last reply line so far.
pub struct RoundView {
    pub scenario: Seq<char>,
    pub round: u32,
    pub stage: Stage,
    pub reply: Option<Seq<char>>,
}

/// What a round asks for after an input: whether to kill the initiator, and then which events to
/// broadcast, in order.
pub struct Reaction {
    pub kill: bool,
    pub events: Vec<Event>,
}

impl View for Round {
    type V = RoundView;

    closed spec fn view(&self) -> RoundView {
        RoundView {
            scenario: self.scenario@,
            round: self.round,
            stage: self.stage,
            reply: optional_text(self.reply),
        }
    }
}

/// A round that was just announced.
pub open spec fn announced(scenario: Seq<char>, round: u32) -> RoundView {
    RoundView { scenario, round, stage: Stage::Dialing, reply: None }
}

/// The events that announce a round.
pub open spec fn announcement(params: DialView, round: u32, message: Seq<char>) -> Seq<EventView> {
    seq![
        EventView::RoundStart { scenario: params.scenario, round, message },
        EventView::InitiatorDialing { scenario: params.scenario, broker: params.broker_addr },
    ]
}

/// What a line on the initiator's standard error tells the dashboard.
pub open spec fn stderr_event(scenario: Seq<char>, line: Seq<char>) -> EventView {
    match relay_transport(line) {
        Some(transport) => EventView::Transport { scenario, transport, line },
        None => if connection_line(line) {
            EventView::ChannelConnected { scenario, line }
        } else {
            EventView::InitiatorLog { scenario, line }
        },
    }
}

/// What a round comes to, given the last reply line and how the initiator ended. A reply counts
/// only where the initiator succeeded.
pub open spec fn outcome(scenario: Seq<char>, reply: Option<Seq<char>>, exit: ExitView) -> EventView {
    match exit {
        ExitView::Success => match reply {
            Some(reply) => EventView::ReplyReceived { scenario, reply },
            None => EventView::RoundError {
                scenario,
                message: "the peer exited 0 but printed no reply line"@,
            },
        },
        ExitView::Failure(status) => EventView::RoundError {
            scenario,
            message: "the peer exited with "@ + status,
        },
        ExitView::WaitFailed(error) => EventView::RoundError {
            scenario,
            message: "waiting on the peer: "@ + error,
        },
        ExitView::TimedOut => EventView::RoundError {
            scenario,
            message: "timed out waiting for a reply through the real edge"@,
        },
    }
}

impl RoundView {
    /// The round after an input. Inputs that do not belong to the stage change nothing.
    pub open spec fn next(self, input: InputView) -> RoundView {
        match (self.stage, input) {
            (Stage::Dialing, InputView::Spawned) => RoundView { stage: Stage::Running, ..self },
            (Stage::Dialing, InputView::SpawnFailed(_)) => RoundView { stage: Stage::Over, ..self },
            (Stage::Running, InputView::Stdout(line)) => if is_blank(line) {
                self
            } else {
                RoundView { reply: Some(line), ..self }
            },
            (Stage::Running, InputView::Exited(_)) => RoundView { stage: Stage::Over, ..self },
            _ => self,
        }
    }

    /// The events that an input brings about. A round that could not be dialled has no
    /// `RoundDone`; every other one ends with it.
    pub open spec fn says(self, input: InputView) -> Seq<EventView> {
        match (self.stage, input) {
            (Stage::Dialing, InputView::SpawnFailed(error)) => seq![
                EventView::RoundError {
                    scenario: self.scenario,
                    message: "spawning the dial: "@ + error,
                },
            ],
            (Stage::Running, InputView::Stderr(line)) => seq![stderr_event(self.scenario, line)],
            (Stage::Running, InputView::Exited(exit)) => seq![
                outcome(self.scenario, self.reply, exit),
                EventView::RoundDone { scenario: self.scenario, round: self.round },
            ],
            _ => seq![],
        }
    }

    /// An input that leaves the initiator running although the round is over: it has to be killed.
    pub open spec fn kills(self, input: InputView) -> bool {
        self.stage == Stage::Running && input == InputView::Exited(ExitView::TimedOut)
    }
}

/// The event for a line on the initiator's standard error.
fn tell_stderr(scenario: &'static str, line: String) -> (r: Event)
    ensures
        r@ == stderr_event(scenario@, line@),
{
    match relay_transport_from_log_line(&line) {
        Some(transport) => Event::Transport { scenario, transport, line },
        None => if is_connection_line(&line) {
            Event::ChannelConnected { scenario, line }
        } else {
            Event::InitiatorLog { scenario, line }
        },
    }
}

/// The event that a round comes to.
fn tell_outcome(scenario: &'static str, reply: Option<String>, exit: Exit) -> (r: Event)
    ensures
        r@ == outcome(scenario@, optional_text(reply), exit@),
{
    match exit {
        Exit::Success => match reply {
            Some(reply) => Event::ReplyReceived { scenario, reply },
            None => Event::RoundError {
                scenario,
                message: "the peer exited 0 but printed no reply line".to_owned(),
            },
        },
        Exit::Failure(status) => Event::RoundError {
            scenario,
            message: join("the peer exited with ", &status),
        },
        Exit::WaitFailed(error) => Event::RoundError {
            scenario,
            message: join("waiting on the peer: ", &error),
        },
        Exit::TimedOut => Event::RoundError {
            scenario,
            message: "timed out waiting for a reply through the real edge".to_owned(),
        },
    }
}

impl Round {
    /// Announces a round and gives the events that do so.
    pub fn start(params: &DialParams, round: u32, message: &str) -> (r: (Round, Vec<Event>))
        ensures
            r.0@ == announced(params.scenario@, round),
            event_views(r.1@) == announcement(params@, round, message@),
    {
        let scenario = params.scenario;
        let events = vec![
            Event::RoundStart { scenario, round, message: message.to_owned() },
            Event::InitiatorDialing { scenario, broker: params.broker_addr.clone() },
        ];
        assert(event_views(events@) =~= announcement(params@, round, message@));
        (Round { scenario, round, stage: Stage::Dialing, reply: None }, events)
    }

    /// Takes what happened to the initiator and says what to do about it.
    pub fn step(&mut self, input: Input) -> (r: Reaction)
        ensures
            final(self)@ == old(self)@.next(input@),
            event_views(r.events@) == old(self)@.says(input@),
            r.kill == old(self)@.kills(input@),
    {
        let ghost before = self@;
        let ghost happened = input@;
        let mut kill = false;
        let mut events: Vec<Event> = Vec::new();
        match (self.stage, input) {
            (Stage::Dialing, Input::Spawned) => {
                self.stage = Stage::Running;
            },
            (Stage::Dialing, Input::SpawnFailed(error)) => {
                self.stage = Stage::Over;
                events.push(
                    Event::RoundError {
                        scenario: self.scenario,
                        message: join("spawning the dial: ", &error),
                    },
                );
            },
            (Stage::Running, Input::Stderr(line)) => {
                events.push(tell_stderr(self.scenario, line));
            },
            (Stage::Running, Input::Stdout(line)) => {
                proof {
                    crate::text::blank_texts_trim_to_nothing(line@);
                }
                if !trim(&line).is_empty() {
                    self.reply = Some(line);
                }
            },
            (Stage::Running, Input::Exited(exit)) => {
                self.stage = Stage::Over;
                kill = matches!(exit, Exit::TimedOut);
                events.push(tell_outcome(self.scenario, self.reply.clone(), exit));
                events.push(Event::RoundDone { scenario: self.scenario, round: self.round });
            },
            _ => {},
        }
        assert(event_views(events@) =~= before.says(happened));
        Reaction { kill, events }
    }
}

} // verus!
