//! Views keep what they view: every field is shown, whole and in its place.

use vstd::prelude::*;

use crate::bridge::{launch_or_refusal, state_or_error, BridgeState, Launch, LaunchView};
use crate::environment::variables;
use crate::event::{event_views, Event, EventView};
use crate::heartbeat::{
    optional_event, optional_heartbeat, HeartbeatPeer, HeartbeatState,
};
use crate::identity::{
    bob_or_error, optional_peer, plane_or_error, BobIdentity, BobView, CaFetch, CaFetchView,
    PeerScenario, PlaneConfig, PlaneView,
};
use crate::json::{entries_model, json_model, text_entry, JsonModel};
use crate::message::{message_or_refusal, Refusal};
use crate::round::{
    variable_views, DialCommand, DialParams, Exit, ExitView, Input, InputView,
};
use crate::text::{optional_text, text_or_error};

verus! {

/// An event is seen with all that it carries.
pub proof fn events_are_seen_whole(event: Event)
    ensures
        match event {
            Event::RoundStart { scenario, round, message } => event@
                matches EventView::RoundStart { scenario: s, round: r, message: m } && s
                == scenario@ && r == round && m == message@,
            Event::InitiatorDialing { scenario, broker } => event@
                matches EventView::InitiatorDialing { scenario: s, broker: b } && s == scenario@
                && b == broker@,
            Event::Transport { scenario, transport, line } => event@
                matches EventView::Transport { scenario: s, transport: t, line: l } && s
                == scenario@ && t == transport@ && l == line@,
            Event::ChannelConnected { scenario, line } => event@
                matches EventView::ChannelConnected { scenario: s, line: l } && s == scenario@ && l
                == line@,
            Event::InitiatorLog { scenario, line } => event@
                matches EventView::InitiatorLog { scenario: s, line: l } && s == scenario@ && l
                == line@,
            Event::ReplyReceived { scenario, reply } => event@
                matches EventView::ReplyReceived { scenario: s, reply: r } && s == scenario@ && r
                == reply@,
            Event::RoundError { scenario, message } => event@
                matches EventView::RoundError { scenario: s, message: m } && s == scenario@ && m
                == message@,
            Event::RoundDone { scenario, round } => event@
                matches EventView::RoundDone { scenario: s, round: r } && s == scenario@ && r
                == round,
            Event::Presence { peer, online } => event@
                matches EventView::Presence { peer: p, online: o } && p == peer@ && o == online,
        },
{
}

/// Lists are seen item by item, in order.
pub proof fn lists_are_seen_in_order(
    events: Seq<Event>,
    vars: Seq<(String, String)>,
    dial_vars: Seq<(&'static str, String)>,
    entries: Seq<(String, serde_json::Value)>,
    i: int,
)
    ensures
        event_views(events).len() == events.len(),
        0 <= i < events.len() ==> event_views(events)[i] == events[i]@,
        variables(vars).len() == vars.len(),
        0 <= i < vars.len() ==> variables(vars)[i] == (vars[i].0@, vars[i].1@),
        variable_views(dial_vars).len() == dial_vars.len(),
        0 <= i < dial_vars.len() ==> variable_views(dial_vars)[i] == (
            dial_vars[i].0@,
            dial_vars[i].1@,
        ),
        entries_model(entries).len() == entries.len(),
        0 <= i < entries.len() ==> entries_model(entries)[i] == (
            entries[i].0@,
            json_model(entries[i].1),
        ),
{
}

/// A text entry has the key and the text.
pub proof fn text_entries_hold_the_text(key: Seq<char>, text: Seq<char>)
    ensures
        text_entry(key, text).0 == key,
        text_entry(key, text).1 == JsonModel::Text(text),
{
}

/// A dial is seen with all its parts.
pub proof fn dials_are_seen_whole(params: DialParams, command: DialCommand, i: int)
    ensures
        params@.scenario == params.scenario@,
        params@.broker_addr == params.broker_addr@,
        params@.relay_addr == params.relay_addr@,
        params@.holder_key_hex == params.holder_key_hex@,
        params@.noise_key_hex == params.noise_key_hex@,
        params@.grant_hex == params.grant_hex@,
        params@.front_door_addr == params.front_door_addr@,
        params@.front_door_cert_hex == params.front_door_cert_hex@,
        command@.program == command.program@,
        command@.arguments.len() == command.arguments@.len(),
        0 <= i < command.arguments@.len() ==> command@.arguments[i] == command.arguments@[i]@,
        command@.environment.len() == command.environment@.len(),
        0 <= i < command.environment@.len() ==> command@.environment[i] == (
            command.environment@[i].0@,
            command.environment@[i].1@,
        ),
        command@.input == command.input@,
{
}

/// What happens to an initiator is seen as what it is, with its text.
pub proof fn inputs_are_seen_whole(input: Input, exit: Exit)
    ensures
        match input {
            Input::Spawned => input@ is Spawned,
            Input::SpawnFailed(error) => input@ == InputView::SpawnFailed(error@),
            Input::Stderr(line) => input@ == InputView::Stderr(line@),
            Input::Stdout(line) => input@ == InputView::Stdout(line@),
            Input::Exited(exit) => input@ == InputView::Exited(exit@),
        },
        match exit {
            Exit::Success => exit@ is Success,
            Exit::Failure(status) => exit@ == ExitView::Failure(status@),
            Exit::WaitFailed(error) => exit@ == ExitView::WaitFailed(error@),
            Exit::TimedOut => exit@ is TimedOut,
        },
{
}

/// What came of a fetch is seen as what it is, with its text or bytes.
pub proof fn fetches_are_seen_whole(fetched: CaFetch)
    ensures
        match fetched {
            CaFetch::Unreachable(error) => fetched@ == CaFetchView::Unreachable(error@),
            CaFetch::Unreadable(error) => fetched@ == CaFetchView::Unreadable(error@),
            CaFetch::Body(der) => fetched@ == CaFetchView::Body(der@),
        },
{
}

/// Identities, scenarios and the edge are seen with all their parts.
pub proof fn identities_are_seen_whole(bob: BobIdentity, peer: PeerScenario, plane: PlaneConfig)
    ensures
        bob@.holder_key_hex == bob.holder_key_hex@,
        bob@.noise_key_hex == bob.noise_key_hex@,
        bob@.grant_hex == bob.grant_hex@,
        bob@.holder_pubkey_hex == bob.holder_pubkey_hex@,
        bob@.channel_id_hex == bob.channel_id_hex@,
        bob@.broker_addr == bob.broker_addr@,
        bob@.relay_addr == bob.relay_addr@,
        bob@.front_door_addr == bob.front_door_addr@,
        bob@.front_door_cert_hex == bob.front_door_cert_hex@,
        peer@.label == peer.label@,
        peer@.alice_holder_key_hex == peer.alice_holder_key_hex@,
        peer@.alice_noise_key_hex == peer.alice_noise_key_hex@,
        peer@.grant_hex == peer.grant_hex@,
        peer@.channel_id_hex == peer.channel_id_hex@,
        peer@.peer_holder_pubkey_hex == peer.peer_holder_pubkey_hex@,
        plane@.broker_addr == plane.broker_addr@,
        plane@.relay_addr == plane.relay_addr@,
        plane@.front_door_addr == plane.front_door_addr@,
        plane@.front_door_cert_hex == plane.front_door_cert_hex@,
{
}

/// The bridge is seen with all its parts, each scenario and each peer in its own place.
pub proof fn bridges_are_seen_whole(st: BridgeState, launch: Launch)
    ensures
        st@.bob == st.bob@,
        st@.plane == st.plane@,
        st@.bob1 is Some <==> st.bob1 is Some,
        st.bob1 matches Some(peer) ==> st@.bob1 == Some(peer@),
        st@.bob2 is Some <==> st.bob2 is Some,
        st.bob2 matches Some(peer) ==> st@.bob2 == Some(peer@),
        st@.heartbeats == st.heartbeats@,
        st@.round == st.round,
        st@.busy == st.busy,
        launch@.round == launch.round,
        launch@.message == launch.message@,
        launch@.params == launch.params@,
{
}

/// The peers that report by heartbeat are seen with their tokens and times, each in its own place.
pub proof fn heartbeats_are_seen_whole(heartbeats: HeartbeatState, peer: HeartbeatPeer)
    ensures
        peer@.token == peer.token@,
        peer@.last_seen == peer.last_seen,
        heartbeats@.bob1 is Some <==> heartbeats.bob1 is Some,
        heartbeats.bob1 matches Some(p) ==> heartbeats@.bob1 == Some(p@),
        heartbeats@.bob2 is Some <==> heartbeats.bob2 is Some,
        heartbeats.bob2 matches Some(p) ==> heartbeats@.bob2 == Some(p@),
{
}

/// What may be absent is seen as absent or as what it is.
pub proof fn options_are_seen_as_they_are(
    text: Option<String>,
    peer: Option<PeerScenario>,
    heartbeat: Option<HeartbeatPeer>,
    event: Option<Event>,
)
    ensures
        optional_text(text) is Some <==> text is Some,
        text matches Some(t) ==> optional_text(text) == Some(t@),
        optional_peer(peer) is Some <==> peer is Some,
        peer matches Some(p) ==> optional_peer(peer) == Some(p@),
        optional_heartbeat(heartbeat) is Some <==> heartbeat is Some,
        heartbeat matches Some(h) ==> optional_heartbeat(heartbeat) == Some(h@),
        optional_event(event) is Some <==> event is Some,
        event matches Some(e) ==> optional_event(event) == Some(e@),
{
}

/// A result is seen as what it is: the value, or the error.
pub proof fn results_are_seen_as_they_are(
    text: Result<String, String>,
    message: Result<String, Refusal>,
    launch: Result<Launch, Refusal>,
    bob: Result<BobIdentity, String>,
    plane: Result<PlaneConfig, String>,
    state: Result<BridgeState, String>,
)
    ensures
        text matches Ok(v) ==> text_or_error(text) == Ok::<Seq<char>, Seq<char>>(v@),
        text matches Err(e) ==> text_or_error(text) == Err::<Seq<char>, Seq<char>>(e@),
        message matches Ok(v) ==> message_or_refusal(message) == Ok::<Seq<char>, Refusal>(v@),
        message matches Err(e) ==> message_or_refusal(message) == Err::<Seq<char>, Refusal>(e),
        launch matches Ok(v) ==> launch_or_refusal(launch) == Ok::<LaunchView, Refusal>(v@),
        launch matches Err(e) ==> launch_or_refusal(launch) == Err::<LaunchView, Refusal>(e),
        bob matches Ok(v) ==> bob_or_error(bob) == Ok::<BobView, Seq<char>>(v@),
        bob matches Err(e) ==> bob_or_error(bob) == Err::<BobView, Seq<char>>(e@),
        plane matches Ok(v) ==> plane_or_error(plane) == Ok::<PlaneView, Seq<char>>(v@),
        plane matches Err(e) ==> plane_or_error(plane) == Err::<PlaneView, Seq<char>>(e@),
        state matches Ok(v) ==> state_or_error(state) == Ok::<
            crate::bridge::BridgeView,
            Seq<char>,
        >(v@),
        state matches Err(e) ==> state_or_error(state) == Err::<
            crate::bridge::BridgeView,
            Seq<char>,
        >(e@),
{
}

} // verus!
