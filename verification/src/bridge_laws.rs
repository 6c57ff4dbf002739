//! What holds of the bridge as a whole, whatever it is asked for and in whatever order.

use vstd::prelude::*;
use vstd::utf8::*;

use crate::bridge::{ca_to_fetch, initial_state, BridgeView, LaunchView};
use crate::environment::value_of;
use crate::hex::hex_text;
use crate::identity::{
    bob_from_env, bob_variables, ca_location, first_missing, CaFetchView, PeerView,
};
use crate::message::{message_of, Refusal, MAX_MESSAGE_LEN};
use crate::report::{identities_json, key_prefix, prefix_len, status_json};
use crate::round::DialView;
use crate::text::{is_blank, trimmed};

verus! {

/// Something that can change the state of the bridge: a request for a round, a heartbeat, or the
/// end of a round.
pub enum Request {
    Run { raw: Seq<char> },
    RunScenario { scenario: Seq<char>, raw: Seq<char> },
    Heartbeat { peer: Seq<char>, body: Seq<char>, at: u128 },
    EndRound,
}

/// The round that was launched, if one was.
pub open spec fn launched(outcome: Result<LaunchView, Refusal>) -> Option<LaunchView> {
    match outcome {
        Ok(launch) => Some(launch),
        Err(_) => None,
    }
}

impl BridgeView {
    /// The round that a request launches, if it launches one.
    pub open spec fn launched_by(self, request: Request) -> Option<LaunchView> {
        match request {
            Request::Run { raw } => launched(self.run(raw)),
            Request::RunScenario { scenario, raw } => launched(self.run_scenario(scenario, raw)),
            Request::Heartbeat { .. } => None,
            Request::EndRound => None,
        }
    }

    /// The state after a request.
    pub open spec fn after_request(self, request: Request) -> BridgeView {
        match request {
            Request::Run { raw } => self.requested(self.run(raw)),
            Request::RunScenario { scenario, raw } => self.requested(
                self.run_scenario(scenario, raw),
            ),
            Request::Heartbeat { peer, body, at } => if self.heartbeats.refusal(peer, body) is Some {
                self
            } else {
                BridgeView { heartbeats: self.heartbeats.seen(peer, at), ..self }
            },
            Request::EndRound => BridgeView { busy: false, ..self },
        }
    }
}

/// The state after the requests.
pub open spec fn after_requests(start: BridgeView, requests: Seq<Request>) -> BridgeView
    decreases requests.len(),
{
    if requests.len() == 0 {
        start
    } else {
        after_requests(start, requests.drop_last()).after_request(requests.last())
    }
}

/// The request at position `i` launched a round.
pub open spec fn launches_at(start: BridgeView, requests: Seq<Request>, i: int) -> bool {
    after_requests(start, requests.take(i)).launched_by(requests[i]) is Some
}

/// The rounds that were launched, in order.
pub open spec fn launches(start: BridgeView, requests: Seq<Request>) -> Seq<LaunchView>
    decreases requests.len(),
{
    if requests.len() == 0 {
        seq![]
    } else {
        let earlier = launches(start, requests.drop_last());
        match after_requests(start, requests.drop_last()).launched_by(requests.last()) {
            Some(launch) => earlier.push(launch),
            None => earlier,
        }
    }
}

/// A round stays in flight until it is ended.
proof fn lemma_stays_busy(start: BridgeView, requests: Seq<Request>, i: int, j: int)
    requires
        0 <= i < j <= requests.len(),
        launches_at(start, requests, i),
        forall|k: int| i < k < j ==> !(#[trigger] requests[k] is EndRound),
    ensures
        after_requests(start, requests.take(j)).busy,
    decreases j - i,
{
    assert(requests.take(j).drop_last() =~= requests.take(j - 1));
    assert(requests.take(j).last() == requests[j - 1]);
    if j > i + 1 {
        lemma_stays_busy(start, requests, i, j - 1);
        assert(!(requests[j - 1] is EndRound));
    }
}

/// One round at a time: between two requests that launched a round, the first of the two rounds
/// was ended, whatever else came in between.
pub proof fn one_round_at_a_time(start: BridgeView, requests: Seq<Request>, i: int, j: int)
    requires
        0 <= i < j < requests.len(),
        launches_at(start, requests, i),
        launches_at(start, requests, j),
    ensures
        exists|k: int| i < k < j && #[trigger] requests[k] is EndRound,
{
    if !(exists|k: int| i < k < j && #[trigger] requests[k] is EndRound) {
        lemma_stays_busy(start, requests, i, j);
        assert(false);
    }
}

/// While a round is in flight nothing is launched, and a valid request for something that can be
/// dialled is told to wait.
pub proof fn busy_bridges_launch_nothing(st: BridgeView, scenario: Seq<char>, raw: Seq<char>)
    requires
        st.busy,
    ensures
        st.run(raw) is Err,
        st.run_scenario(scenario, raw) is Err,
        message_of(raw) is Ok ==> st.run(raw) == Err::<LaunchView, Refusal>(Refusal::Busy),
        message_of(raw) is Ok && st.scenario_dial(scenario) is Ok ==> st.run_scenario(scenario, raw)
            == Err::<LaunchView, Refusal>(Refusal::Busy),
{
}

/// An idle bridge turns no valid request down.
pub proof fn idle_bridges_launch(st: BridgeView, scenario: Seq<char>, raw: Seq<char>)
    requires
        !st.busy,
        message_of(raw) is Ok,
    ensures
        st.run(raw) is Ok,
        st.scenario_dial(scenario) is Ok ==> st.run_scenario(scenario, raw) is Ok,
{
}

/// Rounds are numbered one after the other, whichever scenario they belong to; refusals and
/// heartbeats use up no number. The numbers start over where they exceed what a `u32` holds.
pub proof fn rounds_are_numbered_in_order(start: BridgeView, requests: Seq<Request>)
    ensures
        after_requests(start, requests).round == (start.round + launches(start, requests).len())
            % 0x1_0000_0000,
        forall|n: int|
            0 <= n < launches(start, requests).len() ==> (#[trigger] launches(
                start,
                requests,
            )[n]).round == (start.round + n + 1) % 0x1_0000_0000,
    decreases requests.len(),
{
    if requests.len() > 0 {
        rounds_are_numbered_in_order(start, requests.drop_last());
    }
}

/// A round that was launched carries the visitor's exact message, and that message is neither
/// blank nor, leaving out the white space around it, too long.
pub proof fn launches_carry_the_message(st: BridgeView, scenario: Seq<char>, raw: Seq<char>)
    ensures
        st.run(raw) matches Ok(launch) ==> {
            &&& launch.message == raw
            &&& !is_blank(raw)
            &&& encode_utf8(trimmed(raw)).len() <= MAX_MESSAGE_LEN
        },
        st.run_scenario(scenario, raw) matches Ok(launch) ==> {
            &&& launch.message == raw
            &&& !is_blank(raw)
            &&& encode_utf8(trimmed(raw)).len() <= MAX_MESSAGE_LEN
            &&& launch.params.scenario == scenario
        },
{
    crate::text::blank_texts_trim_to_nothing(raw);
}

/// The public part of a scenario is the same.
pub open spec fn same_public_peer(a: Option<PeerView>, b: Option<PeerView>) -> bool {
    match (a, b) {
        (Some(a), Some(b)) => {
            &&& a.label == b.label
            &&& a.channel_id_hex == b.channel_id_hex
            &&& a.peer_holder_pubkey_hex == b.peer_holder_pubkey_hex
        },
        (None, None) => true,
        _ => false,
    }
}

/// Secrets stay where they are: what `GET /identities` and `GET /status` answer is settled by
/// channel ids, public keys, labels and presence alone. Two bridges that agree on those give the
/// same answers, whatever their holder keys, noise keys, grants and tokens.
pub proof fn reports_hide_secrets(a: BridgeView, b: BridgeView, now: u128)
    requires
        a.bob.channel_id_hex == b.bob.channel_id_hex,
        a.bob.holder_pubkey_hex == b.bob.holder_pubkey_hex,
        same_public_peer(a.bob1, b.bob1),
        same_public_peer(a.bob2, b.bob2),
        a.heartbeats.online("bob1"@, now) == b.heartbeats.online("bob1"@, now),
        a.heartbeats.online("bob2"@, now) == b.heartbeats.online("bob2"@, now),
    ensures
        identities_json(a) == identities_json(b),
        status_json(a, now) == status_json(b, now),
{
}

/// Alice is the same person in every scenario: she dials bob-1 and bob-2 with the same keys.
pub proof fn alice_is_one_person(
    env: Map<Seq<char>, Seq<char>>,
    fetched: CaFetchView,
)
    requires
        initial_state(env, fetched) is Ok,
    ensures
        ({
            let st = initial_state(env, fetched)->Ok_0;
            match (st.bob1, st.bob2) {
                (Some(one), Some(two)) => {
                    &&& one.alice_holder_key_hex == two.alice_holder_key_hex
                    &&& one.alice_noise_key_hex == two.alice_noise_key_hex
                },
                _ => true,
            }
        }),
{
}

/// Two dials go through the same edge.
pub open spec fn same_edge(a: DialView, b: DialView) -> bool {
    &&& a.broker_addr == b.broker_addr
    &&& a.relay_addr == b.relay_addr
    &&& a.front_door_addr == b.front_door_addr
    &&& a.front_door_cert_hex == b.front_door_cert_hex
}

/// Every scenario dials through the same edge, trust anchor included; only the identity and the
/// grant change.
pub proof fn every_scenario_dials_through_the_same_edge(
    env: Map<Seq<char>, Seq<char>>,
    fetched: CaFetchView,
    scenario: Seq<char>,
)
    requires
        initial_state(env, fetched) is Ok,
    ensures
        ({
            let st = initial_state(env, fetched)->Ok_0;
            st.scenario_dial(scenario) matches Ok(dial) ==> same_edge(dial, st.bob_dial())
        }),
{
}

/// Whether the bridge starts is settled by agent-bob: where his identity is complete the edge is
/// too, and where it is not, what he lacks is the error.
pub proof fn bob_settles_the_start(env: Map<Seq<char>, Seq<char>>, fetched: CaFetchView)
    ensures
        match bob_from_env(env, fetched) {
            Ok(bob) => initial_state(env, fetched) matches Ok(st) && st.bob == bob,
            Err(error) => initial_state(env, fetched) == Err::<BridgeView, Seq<char>>(error),
        },
{
    reveal_with_fuel(first_missing, 9);
}

/// A bridge that starts has a trust anchor, runs nothing, has run nothing, and has heard of nobody.
pub proof fn bridges_start_fresh(
    env: Map<Seq<char>, Seq<char>>,
    fetched: CaFetchView,
    now: u128,
)
    requires
        initial_state(env, fetched) is Ok,
    ensures
        ({
            let st = initial_state(env, fetched)->Ok_0;
            &&& !st.busy && st.round == 0
            &&& st.heartbeats.wf()
            &&& !st.heartbeats.online("bob1"@, now) && !st.heartbeats.online("bob2"@, now)
            &&& st.bob.front_door_cert_hex.len() > 0
            &&& st.plane.front_door_cert_hex.len() > 0
            &&& ca_to_fetch(env) is Ok
        }),
{
}

/// The two environments agree on a variable.
pub open spec fn agree_on(
    a: Map<Seq<char>, Seq<char>>,
    b: Map<Seq<char>, Seq<char>>,
    name: Seq<char>,
) -> bool {
    value_of(a, name) == value_of(b, name)
}

/// Scenarios and heartbeats that are not set up yet keep nothing from starting: whether the bridge
/// starts, with which error it does not, and how agent-bob then dials is settled by the variables
/// of agent-bob and the edge alone.
pub proof fn optional_settings_do_not_stop_the_start(
    a: Map<Seq<char>, Seq<char>>,
    b: Map<Seq<char>, Seq<char>>,
    fetched: CaFetchView,
)
    requires
        agree_on(a, b, "A2A_AGENT_CP_URL"@),
        forall|i: int|
            0 <= i < bob_variables().len() ==> agree_on(a, b, #[trigger] bob_variables()[i]),
    ensures
        match (initial_state(a, fetched), initial_state(b, fetched)) {
            (Ok(x), Ok(y)) => x.bob == y.bob && x.plane == y.plane && x.bob_dial() == y.bob_dial(),
            (Err(x), Err(y)) => x == y,
            _ => false,
        },
{
    reveal_with_fuel(first_missing, 9);
    let names = bob_variables();
    assert(agree_on(a, b, names[0]) && agree_on(a, b, names[1]) && agree_on(a, b, names[2]));
    assert(agree_on(a, b, names[3]) && agree_on(a, b, names[4]) && agree_on(a, b, names[5]));
    assert(agree_on(a, b, names[6]) && agree_on(a, b, names[7]));
}

/// The start of a key that is plain ASCII, as every hexadecimal one is, is its first sixteen
/// characters, and it can always be taken.
pub proof fn hexadecimal_keys_have_a_start(key: Seq<char>)
    requires
        is_ascii_chars(key),
    ensures
        is_char_boundary(encode_utf8(key), prefix_len(key)),
        key_prefix(key) == if key.len() < 16 {
            key
        } else {
            key.take(16)
        },
{
    let n = prefix_len(key);
    let bytes = encode_utf8(key);
    is_ascii_chars_encode_utf8(key);
    encode_utf8_valid_utf8(key);
    assert(bytes.len() == key.len());
    let start = key.take(n);
    assert(is_ascii_chars(start));
    is_ascii_chars_encode_utf8(start);
    assert(encode_utf8(start) =~= bytes.subrange(0, n));
    encode_utf8_decode_utf8(start);
    assert(key.take(key.len() as int) =~= key);
    if n < bytes.len() {
        is_char_boundary_iff_is_leading_byte(bytes, n);
    } else {
        is_char_boundary_start_end_of_seq(bytes);
    }
}

/// A round with agent-bob dials as bob and with nothing but what is bob's.
pub proof fn bob_dials_as_himself(st: BridgeView, raw: Seq<char>)
    ensures
        st.run(raw) matches Ok(launch) ==> {
            &&& launch.params.scenario == "bob"@
            &&& launch.params.broker_addr == st.bob.broker_addr
            &&& launch.params.relay_addr == st.bob.relay_addr
            &&& launch.params.holder_key_hex == st.bob.holder_key_hex
            &&& launch.params.noise_key_hex == st.bob.noise_key_hex
            &&& launch.params.grant_hex == st.bob.grant_hex
            &&& launch.params.front_door_addr == st.bob.front_door_addr
            &&& launch.params.front_door_cert_hex == st.bob.front_door_cert_hex
        },
{
}

/// The dial is that of the peer: alice's keys and the grant that go with it, through the edge.
pub open spec fn dials_peer(dial: DialView, st: BridgeView, peer: PeerView) -> bool {
    &&& dial.broker_addr == st.plane.broker_addr
    &&& dial.relay_addr == st.plane.relay_addr
    &&& dial.holder_key_hex == peer.alice_holder_key_hex
    &&& dial.noise_key_hex == peer.alice_noise_key_hex
    &&& dial.grant_hex == peer.grant_hex
    &&& dial.front_door_addr == st.plane.front_door_addr
    &&& dial.front_door_cert_hex == st.plane.front_door_cert_hex
}

/// A scenario that is launched is one of the two, it is provisioned, and it dials under its own
/// name with its own keys and grant, never with the other's.
pub proof fn scenarios_dial_with_their_own_grant(
    st: BridgeView,
    scenario: Seq<char>,
    raw: Seq<char>,
)
    ensures
        st.run_scenario(scenario, raw) matches Ok(launch) ==> {
            &&& launch.params.scenario == scenario
            &&& scenario == "bob1"@ || scenario == "bob2"@
            &&& scenario == "bob1"@ ==> (st.bob1 matches Some(peer) && dials_peer(
                launch.params,
                st,
                peer,
            ))
            &&& scenario == "bob2"@ ==> (st.bob2 matches Some(peer) && dials_peer(
                launch.params,
                st,
                peer,
            ))
        },
{
    reveal_strlit("bob1");
    reveal_strlit("bob2");
    assert("bob1"@[3] != "bob2"@[3]);
}

/// What is provisioned for one peer has no bearing on the other: two bridges that agree on bob-2
/// and on the edge run bob-2 alike, and likewise bob-1.
pub proof fn peers_have_no_bearing_on_each_other(a: BridgeView, b: BridgeView, raw: Seq<char>)
    requires
        a.plane == b.plane,
        a.busy == b.busy,
        a.round == b.round,
    ensures
        a.bob1 == b.bob1 ==> a.run_scenario("bob1"@, raw) == b.run_scenario("bob1"@, raw),
        a.bob2 == b.bob2 ==> a.run_scenario("bob2"@, raw) == b.run_scenario("bob2"@, raw),
{
    reveal_strlit("bob1");
    reveal_strlit("bob2");
    assert("bob1"@[3] != "bob2"@[3]);
}

/// A request for agent-bob is launched exactly if the message passes and nothing is in flight, and
/// otherwise told which of the two is wrong, the message first.
pub proof fn requests_for_bob_are_judged_in_order(st: BridgeView, raw: Seq<char>)
    ensures
        match st.run(raw) {
            Ok(launch) => message_of(raw) is Ok && !st.busy && launch.message == raw
                && launch.round as int == (st.round + 1) % 0x1_0000_0000,
            Err(refusal) => {
                ||| message_of(raw) == Err::<Seq<char>, Refusal>(refusal)
                ||| message_of(raw) is Ok && st.busy && refusal is Busy
            },
        },
{
}

/// A request for a scenario is launched exactly if the message passes, the scenario is one of the
/// two and provisioned, and nothing is in flight; otherwise it is told what is wrong, in that
/// order.
pub proof fn requests_for_scenarios_are_judged_in_order(
    st: BridgeView,
    scenario: Seq<char>,
    raw: Seq<char>,
)
    ensures
        ({
            let known = scenario == "bob1"@ || scenario == "bob2"@;
            let there = (scenario == "bob1"@ && st.bob1 is Some) || (scenario == "bob2"@
                && st.bob2 is Some);
            match st.run_scenario(scenario, raw) {
                Ok(launch) => message_of(raw) is Ok && there && !st.busy && launch.message == raw
                    && launch.round as int == (st.round + 1) % 0x1_0000_0000,
                Err(refusal) => {
                    ||| message_of(raw) == Err::<Seq<char>, Refusal>(refusal)
                    ||| message_of(raw) is Ok && !known && refusal is UnknownScenario
                    ||| message_of(raw) is Ok && known && !there && refusal is NotProvisioned
                    ||| message_of(raw) is Ok && there && st.busy && refusal is Busy
                },
            }
        }),
{
    reveal_strlit("bob1");
    reveal_strlit("bob2");
    assert("bob1"@[3] != "bob2"@[3]);
}

/// A launch puts its round in flight and changes nothing else; a refusal changes nothing at all.
pub proof fn requests_change_only_what_is_in_flight(
    st: BridgeView,
    outcome: Result<LaunchView, Refusal>,
)
    ensures
        ({
            let next = st.requested(outcome);
            &&& next.bob == st.bob && next.plane == st.plane
            &&& next.bob1 == st.bob1 && next.bob2 == st.bob2
            &&& next.heartbeats == st.heartbeats
            &&& outcome matches Ok(launch) ==> next.busy && next.round == launch.round
            &&& outcome is Err ==> next.busy == st.busy && next.round == st.round
        }),
{
}

/// The variable is set to something.
pub open spec fn is_given(env: Map<Seq<char>, Seq<char>>, name: Seq<char>) -> bool {
    env.contains_key(name) && env[name].len() > 0
}

/// Where the bridge starts, each scenario is there exactly if alice's keys and its own three
/// variables are given, and it holds just these.
pub proof fn scenarios_come_from_their_own_variables(
    env: Map<Seq<char>, Seq<char>>,
    fetched: CaFetchView,
)
    requires
        initial_state(env, fetched) is Ok,
    ensures
        ({
            let st = initial_state(env, fetched)->Ok_0;
            let alice = is_given(env, "A2A_SCENARIOS_ALICE_HOLDER_KEY"@) && is_given(
                env,
                "A2A_SCENARIOS_ALICE_NOISE_KEY"@,
            );
            &&& st.bob1 is Some <==> {
                &&& alice
                &&& is_given(env, "A2A_S_ALICE_BOB1_CHANNEL_ID"@)
                &&& is_given(env, "A2A_S_ALICE_BOB1_ALICE_GRANT"@)
                &&& is_given(env, "A2A_S_BOB1_HOLDER_PUBKEY"@)
            }
            &&& st.bob2 is Some <==> {
                &&& alice
                &&& is_given(env, "A2A_S_ALICE_BOB2_CHANNEL_ID"@)
                &&& is_given(env, "A2A_S_ALICE_BOB2_ALICE_GRANT"@)
                &&& is_given(env, "A2A_S_BOB2_HOLDER_PUBKEY"@)
            }
            &&& st.bob1 matches Some(peer) ==> {
                &&& peer.label == "bob-1 (intern, NAT'd)"@
                &&& peer.alice_holder_key_hex == env["A2A_SCENARIOS_ALICE_HOLDER_KEY"@]
                &&& peer.alice_noise_key_hex == env["A2A_SCENARIOS_ALICE_NOISE_KEY"@]
                &&& peer.grant_hex == env["A2A_S_ALICE_BOB1_ALICE_GRANT"@]
                &&& peer.channel_id_hex == env["A2A_S_ALICE_BOB1_CHANNEL_ID"@]
                &&& peer.peer_holder_pubkey_hex == env["A2A_S_BOB1_HOLDER_PUBKEY"@]
            }
            &&& st.bob2 matches Some(peer) ==> {
                &&& peer.label == "bob-2 (remote, public-IP)"@
                &&& peer.alice_holder_key_hex == env["A2A_SCENARIOS_ALICE_HOLDER_KEY"@]
                &&& peer.alice_noise_key_hex == env["A2A_SCENARIOS_ALICE_NOISE_KEY"@]
                &&& peer.grant_hex == env["A2A_S_ALICE_BOB2_ALICE_GRANT"@]
                &&& peer.channel_id_hex == env["A2A_S_ALICE_BOB2_CHANNEL_ID"@]
                &&& peer.peer_holder_pubkey_hex == env["A2A_S_BOB2_HOLDER_PUBKEY"@]
            }
        }),
{
}

/// Two environments that agree on alice's keys and on the variables of one scenario start with the
/// same scenario, whatever else they hold.
pub proof fn other_variables_have_no_bearing_on_a_scenario(
    a: Map<Seq<char>, Seq<char>>,
    b: Map<Seq<char>, Seq<char>>,
    fetched: CaFetchView,
)
    requires
        initial_state(a, fetched) is Ok,
        initial_state(b, fetched) is Ok,
        agree_on(a, b, "A2A_SCENARIOS_ALICE_HOLDER_KEY"@),
        agree_on(a, b, "A2A_SCENARIOS_ALICE_NOISE_KEY"@),
    ensures
        agree_on(a, b, "A2A_S_ALICE_BOB1_CHANNEL_ID"@) && agree_on(
            a,
            b,
            "A2A_S_ALICE_BOB1_ALICE_GRANT"@,
        ) && agree_on(a, b, "A2A_S_BOB1_HOLDER_PUBKEY"@) ==> initial_state(a, fetched)->Ok_0.bob1
            == initial_state(b, fetched)->Ok_0.bob1,
        agree_on(a, b, "A2A_S_ALICE_BOB2_CHANNEL_ID"@) && agree_on(
            a,
            b,
            "A2A_S_ALICE_BOB2_ALICE_GRANT"@,
        ) && agree_on(a, b, "A2A_S_BOB2_HOLDER_PUBKEY"@) ==> initial_state(a, fetched)->Ok_0.bob2
            == initial_state(b, fetched)->Ok_0.bob2,
{
}

/// Where the bridge starts, agent-bob, the edge and the heartbeat tokens are what their variables
/// say, and the trust anchor is what was fetched.
pub proof fn the_start_is_what_the_environment_says(
    env: Map<Seq<char>, Seq<char>>,
    fetched: CaFetchView,
)
    requires
        initial_state(env, fetched) is Ok,
    ensures
        ({
            let st = initial_state(env, fetched)->Ok_0;
            &&& st.bob.holder_key_hex == env["A2A_BOB_HOLDER_KEY"@]
            &&& st.bob.noise_key_hex == env["A2A_BOB_NOISE_KEY"@]
            &&& st.bob.grant_hex == env["A2A_BOB_GRANT"@]
            &&& st.bob.holder_pubkey_hex == env["A2A_BOB_HOLDER_PUBKEY"@]
            &&& st.bob.channel_id_hex == env["A2A_CHANNEL_ID"@]
            &&& st.bob.broker_addr == env["A2A_CHANNEL_BROKER"@]
            &&& st.bob.relay_addr == env["A2A_CHANNEL_RELAY"@]
            &&& st.bob.front_door_addr == env["A2A_CHANNEL_FRONT_DOOR"@]
            &&& st.bob.front_door_cert_hex == hex_text(fetched->Body_0)
            &&& st.plane.broker_addr == env["A2A_CHANNEL_BROKER"@]
            &&& st.plane.relay_addr == env["A2A_CHANNEL_RELAY"@]
            &&& st.plane.front_door_addr == env["A2A_CHANNEL_FRONT_DOOR"@]
            &&& st.plane.front_door_cert_hex == hex_text(fetched->Body_0)
            &&& st.heartbeats.bob1 is Some <==> is_given(env, "A2A_HEARTBEAT_TOKEN_BOB1"@)
            &&& st.heartbeats.bob2 is Some <==> is_given(env, "A2A_HEARTBEAT_TOKEN_BOB2"@)
            &&& st.heartbeats.bob1 matches Some(peer) ==> peer.last_seen is None && peer.token
                == env["A2A_HEARTBEAT_TOKEN_BOB1"@]
            &&& st.heartbeats.bob2 matches Some(peer) ==> peer.last_seen is None && peer.token
                == env["A2A_HEARTBEAT_TOKEN_BOB2"@]
            &&& st.round == 0 && !st.busy
        }),
{
    crate::identity::bob_is_what_the_environment_says(env, fetched);
}

/// The first thing to do is to fetch the CA root at the control plane that the environment names,
/// or to fail for want of a name; and where the start fails for that, it fails with the same error.
pub proof fn the_first_thing_is_to_fetch_the_ca(
    env: Map<Seq<char>, Seq<char>>,
    fetched: CaFetchView,
)
    ensures
        ({
            let url = "A2A_AGENT_CP_URL"@;
            let error = url + " must be set (see README/provision.md)"@;
            &&& env.contains_key(url) ==> ca_to_fetch(env) == Ok::<Seq<char>, Seq<char>>(
                ca_location(env[url]),
            )
            &&& !env.contains_key(url) ==> ca_to_fetch(env) == Err::<Seq<char>, Seq<char>>(error)
                && initial_state(env, fetched) == Err::<BridgeView, Seq<char>>(error)
        }),
{
}

} // verus!
