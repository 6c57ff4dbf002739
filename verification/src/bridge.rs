//! The bridge: what it was started with, and which round, if any, is in flight.

use vstd::prelude::*;

use crate::environment::{required, required_env, Environment};
use crate::heartbeat::{heartbeats_from_env, HeartbeatState, HeartbeatView};
use crate::identity::{
    bob_from_env, ca_location, ca_url, optional_peer, peer_from_env, plane_from_env, BobIdentity,
    BobView, CaFetch, CaFetchView, PeerScenario, PeerView, PlaneConfig, PlaneView,
};
use crate::message::{message_of, validate_message, Refusal};
use crate::round::{DialParams, DialView};
use crate::text::{same_text, text_or_error};

verus! {

/// How many events a slow listener may fall behind before it misses some.
pub const EVENT_BACKLOG: usize = 128;

/// The state of the bridge.
pub struct BridgeState {
    pub bob: BobIdentity,
    pub plane: PlaneConfig,
    pub bob1: Option<PeerScenario>,
    pub bob2: Option<PeerScenario>,
    pub heartbeats: HeartbeatState,
    /// The number of the last round.
    pub round: u32,
    /// A round is in flight.
    pub busy: bool,
}

/// What the state of the bridge holds.
pub struct BridgeView {
    pub bob: BobView,
    pub plane: PlaneView,
    pub bob1: Option<PeerView>,
    pub bob2: Option<PeerView>,
    pub heartbeats: HeartbeatView,
    pub round: u32,
    pub busy: bool,
}

impl View for BridgeState {
    type V = BridgeView;

    open spec fn view(&self) -> BridgeView {
        BridgeView {
            bob: self.bob@,
            plane: self.plane@,
            bob1: optional_peer(self.bob1),
            bob2: optional_peer(self.bob2),
            heartbeats: self.heartbeats@,
            round: self.round,
            busy: self.busy,
        }
    }
}

/// A round to be run: its number, the message, and how to dial.
pub struct Launch {
    pub round: u32,
    pub message: String,
    pub params: DialParams,
}

/// The texts behind a `Launch`.
pub struct LaunchView {
    pub round: u32,
    pub message: Seq<char>,
    pub params: DialView,
}

impl View for Launch {
    type V = LaunchView;

    open spec fn view(&self) -> LaunchView {
        LaunchView { round: self.round, message: self.message@, params: self.params@ }
    }
}

/// The view of a launch or a refusal.
pub open spec fn launch_or_refusal(r: Result<Launch, Refusal>) -> Result<LaunchView, Refusal> {
    match r {
        Ok(launch) => Ok(launch@),
        Err(refusal) => Err(refusal),
    }
}

/// The number after `round`. The numbers start over after the last one.
pub open spec fn next_round(round: u32) -> u32 {
    if round == u32::MAX {
        0
    } else {
        (round + 1) as u32
    }
}

impl BridgeView {
    /// How agent-bob dials.
    pub open spec fn bob_dial(self) -> DialView {
        DialView {
            scenario: "bob"@,
            broker_addr: self.bob.broker_addr,
            relay_addr: self.bob.relay_addr,
            holder_key_hex: self.bob.holder_key_hex,
            noise_key_hex: self.bob.noise_key_hex,
            grant_hex: self.bob.grant_hex,
            front_door_addr: self.bob.front_door_addr,
            front_door_cert_hex: self.bob.front_door_cert_hex,
        }
    }

    /// How alice dials a peer.
    pub open spec fn peer_dial(self, scenario: Seq<char>, peer: PeerView) -> DialView {
        DialView {
            scenario,
            broker_addr: self.plane.broker_addr,
            relay_addr: self.plane.relay_addr,
            holder_key_hex: peer.alice_holder_key_hex,
            noise_key_hex: peer.alice_noise_key_hex,
            grant_hex: peer.grant_hex,
            front_door_addr: self.plane.front_door_addr,
            front_door_cert_hex: self.plane.front_door_cert_hex,
        }
    }

    /// How a scenario is dialled, or why it is not.
    pub open spec fn scenario_dial(self, scenario: Seq<char>) -> Result<DialView, Refusal> {
        if scenario == "bob1"@ {
            match self.bob1 {
                Some(peer) => Ok(self.peer_dial(scenario, peer)),
                None => Err(Refusal::NotProvisioned),
            }
        } else if scenario == "bob2"@ {
            match self.bob2 {
                Some(peer) => Ok(self.peer_dial(scenario, peer)),
                None => Err(Refusal::NotProvisioned),
            }
        } else {
            Err(Refusal::UnknownScenario)
        }
    }

    /// The round that comes of a message and a dial: none while another is in flight.
    pub open spec fn launch(self, message: Seq<char>, params: DialView) -> Result<
        LaunchView,
        Refusal,
    > {
        if self.busy {
            Err(Refusal::Busy)
        } else {
            Ok(LaunchView { round: next_round(self.round), message, params })
        }
    }

    /// What a request to run a round with agent-bob comes to: the message is looked at first. One
    /// that passes is launched as it was typed.
    pub open spec fn run(self, raw: Seq<char>) -> Result<LaunchView, Refusal> {
        match message_of(raw) {
            Err(refusal) => Err(refusal),
            Ok(_) => self.launch(raw, self.bob_dial()),
        }
    }

    /// What a request to run a scenario comes to: the message is looked at first, then the
    /// scenario. A message that passes is launched as it was typed.
    pub open spec fn run_scenario(self, scenario: Seq<char>, raw: Seq<char>) -> Result<
        LaunchView,
        Refusal,
    > {
        match message_of(raw) {
            Err(refusal) => Err(refusal),
            Ok(_) => match self.scenario_dial(scenario) {
                Err(refusal) => Err(refusal),
                Ok(params) => self.launch(raw, params),
            },
        }
    }

    /// The state after a request: a round that was launched is in flight, and a refusal leaves
    /// everything as it was.
    pub open spec fn requested(self, outcome: Result<LaunchView, Refusal>) -> BridgeView {
        match outcome {
            Ok(launch) => BridgeView { round: launch.round, busy: true, ..self },
            Err(_) => self,
        }
    }
}

impl BridgeState {
    /// How agent-bob dials.
    fn bob_params(&self) -> (r: DialParams)
        ensures
            r@ == self@.bob_dial(),
    {
        DialParams {
            scenario: "bob",
            broker_addr: self.bob.broker_addr.clone(),
            relay_addr: self.bob.relay_addr.clone(),
            holder_key_hex: self.bob.holder_key_hex.clone(),
            noise_key_hex: self.bob.noise_key_hex.clone(),
            grant_hex: self.bob.grant_hex.clone(),
            front_door_addr: self.bob.front_door_addr.clone(),
            front_door_cert_hex: self.bob.front_door_cert_hex.clone(),
        }
    }

    /// How alice dials a peer.
    fn peer_params(&self, scenario: &'static str, peer: &PeerScenario) -> (r: DialParams)
        ensures
            r@ == self@.peer_dial(scenario@, peer@),
    {
        DialParams {
            scenario,
            broker_addr: self.plane.broker_addr.clone(),
            relay_addr: self.plane.relay_addr.clone(),
            holder_key_hex: peer.alice_holder_key_hex.clone(),
            noise_key_hex: peer.alice_noise_key_hex.clone(),
            grant_hex: peer.grant_hex.clone(),
            front_door_addr: self.plane.front_door_addr.clone(),
            front_door_cert_hex: self.plane.front_door_cert_hex.clone(),
        }
    }

    /// How a scenario is dialled, or why it is not.
    fn scenario_params(&self, scenario: &str) -> (r: Result<DialParams, Refusal>)
        ensures
            match r {
                Ok(params) => self@.scenario_dial(scenario@) == Ok::<DialView, Refusal>(params@),
                Err(refusal) => self@.scenario_dial(scenario@) == Err::<DialView, Refusal>(refusal),
            },
    {
        if same_text(scenario, "bob1") {
            match &self.bob1 {
                Some(peer) => Ok(self.peer_params("bob1", peer)),
                None => Err(Refusal::NotProvisioned),
            }
        } else if same_text(scenario, "bob2") {
            match &self.bob2 {
                Some(peer) => Ok(self.peer_params("bob2", peer)),
                None => Err(Refusal::NotProvisioned),
            }
        } else {
            Err(Refusal::UnknownScenario)
        }
    }

    /// Begins a round unless one is in flight.
    fn launch(&mut self, message: String, params: DialParams) -> (r: Result<Launch, Refusal>)
        ensures
            launch_or_refusal(r) == old(self)@.launch(message@, params@),
            final(self)@ == old(self)@.requested(launch_or_refusal(r)),
    {
        if self.busy {
            return Err(Refusal::Busy);
        }
        self.busy = true;
        self.round = if self.round == u32::MAX {
            0
        } else {
            self.round + 1
        };
        Ok(Launch { round: self.round, message, params })
    }

    /// Ends the round in flight, so that the next one can begin.
    pub fn end_round(&mut self)
        ensures
            final(self)@ == (BridgeView { busy: false, ..old(self)@ }),
    {
        self.busy = false;
    }
}

/// Takes a visitor's message for agent-bob, to be sent exactly as it was typed. Only one round runs at a time, so that the event
/// stream stays one legible sequence; `BridgeState::end_round` has to follow every launch.
pub fn run_handler(st: &mut BridgeState, raw: &str) -> (r: Result<Launch, Refusal>)
    ensures
        launch_or_refusal(r) == old(st)@.run(raw@),
        final(st)@ == old(st)@.requested(launch_or_refusal(r)),
{
    if let Err(refusal) = validate_message(raw) {
        return Err(refusal);
    }
    let params = st.bob_params();
    st.launch(raw.to_owned(), params)
}

/// Takes a visitor's message for one of alice's peers: the same dial as agent-bob's, with another
/// identity and grant.
pub fn run_scenario_handler(st: &mut BridgeState, scenario: &str, raw: &str) -> (r: Result<
    Launch,
    Refusal,
>)
    ensures
        launch_or_refusal(r) == old(st)@.run_scenario(scenario@, raw@),
        final(st)@ == old(st)@.requested(launch_or_refusal(r)),
{
    if let Err(refusal) = validate_message(raw) {
        return Err(refusal);
    }
    let params = match st.scenario_params(scenario) {
        Ok(params) => params,
        Err(refusal) => return Err(refusal),
    };
    st.launch(raw.to_owned(), params)
}

/// The scenario in which alice dials the intern's bob-1.
pub open spec fn bob1_from_env(env: Map<Seq<char>, Seq<char>>) -> Option<PeerView> {
    peer_from_env(
        env,
        "bob-1 (intern, NAT'd)"@,
        "A2A_S_ALICE_BOB1_CHANNEL_ID"@,
        "A2A_S_ALICE_BOB1_ALICE_GRANT"@,
        "A2A_S_BOB1_HOLDER_PUBKEY"@,
    )
}

/// The scenario in which alice dials the remote bob-2.
pub open spec fn bob2_from_env(env: Map<Seq<char>, Seq<char>>) -> Option<PeerView> {
    peer_from_env(
        env,
        "bob-2 (remote, public-IP)"@,
        "A2A_S_ALICE_BOB2_CHANNEL_ID"@,
        "A2A_S_ALICE_BOB2_ALICE_GRANT"@,
        "A2A_S_BOB2_HOLDER_PUBKEY"@,
    )
}

/// The state that the bridge starts with, or why it does not start. Agent-bob and the edge are
/// indispensable, in this order, and share the one trust anchor; scenarios and heartbeats may be
/// absent.
pub open spec fn initial_state(env: Map<Seq<char>, Seq<char>>, fetched: CaFetchView) -> Result<
    BridgeView,
    Seq<char>,
> {
    match bob_from_env(env, fetched) {
        Err(error) => Err(error),
        Ok(bob) => match required(env, "A2A_AGENT_CP_URL"@) {
            Err(error) => Err(error),
            Ok(cp_url) => match plane_from_env(env, cp_url, fetched) {
                Err(error) => Err(error),
                Ok(plane) => Ok(
                    BridgeView {
                        bob,
                        plane,
                        bob1: bob1_from_env(env),
                        bob2: bob2_from_env(env),
                        heartbeats: heartbeats_from_env(env),
                        round: 0,
                        busy: false,
                    },
                ),
            },
        },
    }
}

/// Where to fetch the CA root that the bridge has to have before it starts, or why it does not
/// start.
pub open spec fn ca_to_fetch(env: Map<Seq<char>, Seq<char>>) -> Result<Seq<char>, Seq<char>> {
    match required(env, "A2A_AGENT_CP_URL"@) {
        Ok(cp_url) => Ok(ca_location(cp_url)),
        Err(error) => Err(error),
    }
}

/// Where to fetch the CA root from, before the state is built.
pub fn startup_fetch(env: &Environment) -> (r: Result<String, String>)
    ensures
        text_or_error(r) == ca_to_fetch(env@),
{
    let cp_url = required_env(env, "A2A_AGENT_CP_URL")?;
    Ok(ca_url(&cp_url))
}

/// The view of a state or an error message.
pub open spec fn state_or_error(r: Result<BridgeState, String>) -> Result<BridgeView, Seq<char>> {
    match r {
        Ok(st) => Ok(st@),
        Err(error) => Err(error@),
    }
}

/// Builds the state that the bridge starts with, given what came of fetching the control plane's
/// CA root. It is fetched once and serves agent-bob and every scenario.
pub fn build_state(env: &Environment, fetched: &CaFetch) -> (r: Result<BridgeState, String>)
    ensures
        state_or_error(r) == initial_state(env@, fetched@),
{
    let bob = BobIdentity::from_env(env, fetched)?;
    let cp_url = required_env(env, "A2A_AGENT_CP_URL")?;
    let plane = PlaneConfig::from_env(env, &cp_url, fetched)?;
    let bob1 = PeerScenario::from_env(
        env,
        "bob-1 (intern, NAT'd)",
        "A2A_S_ALICE_BOB1_CHANNEL_ID",
        "A2A_S_ALICE_BOB1_ALICE_GRANT",
        "A2A_S_BOB1_HOLDER_PUBKEY",
    );
    let bob2 = PeerScenario::from_env(
        env,
        "bob-2 (remote, public-IP)",
        "A2A_S_ALICE_BOB2_CHANNEL_ID",
        "A2A_S_ALICE_BOB2_ALICE_GRANT",
        "A2A_S_BOB2_HOLDER_PUBKEY",
    );
    let heartbeats = HeartbeatState::from_env(env);
    Ok(BridgeState { bob, plane, bob1, bob2, heartbeats, round: 0, busy: false })
}

} // verus!
