//! What the bridge says of itself: on its standard error when it starts, and to the dashboard when
//! it asks.

use vstd::prelude::*;
use vstd::utf8::*;

use crate::bridge::{BridgeState, BridgeView};
use crate::identity::{optional_peer, PeerScenario, PeerView};
use crate::json::{
    distinct_keys, entries_model, json_bool, json_model, json_null, json_object, string_entry,
    text_entry, JsonModel,
};
use crate::text::join;

verus! {

/// The current state of every peer, as `GET /status` answers it.
pub open spec fn status_json(st: BridgeView, now: u128) -> JsonModel {
    JsonModel::Object(
        seq![
            ("bob1_online"@, JsonModel::Bool(st.heartbeats.online("bob1"@, now))),
            ("bob2_online"@, JsonModel::Bool(st.heartbeats.online("bob2"@, now))),
            ("bob1_provisioned"@, JsonModel::Bool(st.bob1 is Some)),
            ("bob2_provisioned"@, JsonModel::Bool(st.bob2 is Some)),
        ],
    )
}

/// The current state of every peer, for a dashboard that was just opened: the stream only tells
/// what happens from now on.
pub fn status_handler(st: &BridgeState, now: u128) -> (r: serde_json::Value)
    ensures
        json_model(r) == status_json(st@, now),
{
    let entries = vec![
        ("bob1_online".to_owned(), json_bool(st.heartbeats.online("bob1", now))),
        ("bob2_online".to_owned(), json_bool(st.heartbeats.online("bob2", now))),
        ("bob1_provisioned".to_owned(), json_bool(st.bob1.is_some())),
        ("bob2_provisioned".to_owned(), json_bool(st.bob2.is_some())),
    ];
    proof {
        reveal_strlit("bob1_online");
        reveal_strlit("bob2_online");
        reveal_strlit("bob1_provisioned");
        reveal_strlit("bob2_provisioned");
        assert("bob1_online"@.len() == 11 && "bob2_online"@.len() == 11);
        assert("bob1_provisioned"@.len() == 16 && "bob2_provisioned"@.len() == 16);
        assert("bob1_online"@[3] == '1' && "bob2_online"@[3] == '2');
        assert("bob1_provisioned"@[3] == '1' && "bob2_provisioned"@[3] == '2');
        assert(entries_model(entries@) =~= status_json(st@, now)->Object_0);
    }
    json_object(entries)
}

/// What is told of a scenario: the public part, or nothing while it is not provisioned.
pub open spec fn peer_json(peer: Option<PeerView>) -> JsonModel {
    match peer {
        Some(p) => JsonModel::Object(
            seq![
                text_entry("label"@, p.label),
                text_entry("channel_id"@, p.channel_id_hex),
                text_entry("peer_holder_pubkey"@, p.peer_holder_pubkey_hex),
            ],
        ),
        None => JsonModel::Null,
    }
}

/// What is told of agent-bob.
pub open spec fn bob_json(st: BridgeView) -> JsonModel {
    JsonModel::Object(
        seq![
            text_entry("role"@, "initiator (calls it, spawned by this bridge per request)"@),
            text_entry("holder_pubkey"@, st.bob.holder_pubkey_hex),
        ],
    )
}

/// What is told of agent-alice.
pub open spec fn alice_json() -> JsonModel {
    JsonModel::Object(
        seq![
            text_entry("role"@, "responder (serves text_generation)"@),
            text_entry(
                "note"@,
                "a separate, persistent container (a2a-demo-alice) -- this bridge has no handle on it, only the real channel id both were registered against"@,
            ),
        ],
    )
}

/// Who takes part, as `GET /identities` answers it.
pub open spec fn identities_json(st: BridgeView) -> JsonModel {
    JsonModel::Object(
        seq![
            text_entry("channel_id"@, st.bob.channel_id_hex),
            ("bob"@, bob_json(st)),
            ("alice"@, alice_json()),
            ("bob1"@, peer_json(st.bob1)),
            ("bob2"@, peer_json(st.bob2)),
        ],
    )
}

/// What is told of a scenario.
fn tell_peer(peer: &Option<PeerScenario>) -> (r: serde_json::Value)
    ensures
        json_model(r) == peer_json(optional_peer(*peer)),
{
    match peer {
        Some(p) => {
            let entries = vec![
                string_entry("label", p.label),
                string_entry("channel_id", &p.channel_id_hex),
                string_entry("peer_holder_pubkey", &p.peer_holder_pubkey_hex),
            ];
            proof {
                reveal_strlit("label");
                reveal_strlit("channel_id");
                reveal_strlit("peer_holder_pubkey");
                assert("label"@.len() == 5 && "channel_id"@.len() == 10);
                assert("peer_holder_pubkey"@.len() == 18);
                assert(entries_model(entries@) =~= peer_json(Some(p@))->Object_0);
            }
            json_object(entries)
        },
        None => json_null(),
    }
}

/// Who takes part: the channel, and the public part of every identity.
pub fn identities_handler(st: &BridgeState) -> (r: serde_json::Value)
    ensures
        json_model(r) == identities_json(st@),
{
    let bob = vec![
        string_entry("role", "initiator (calls it, spawned by this bridge per request)"),
        string_entry("holder_pubkey", &st.bob.holder_pubkey_hex),
    ];
    let alice = vec![
        string_entry("role", "responder (serves text_generation)"),
        string_entry(
            "note",
            "a separate, persistent container (a2a-demo-alice) -- this bridge has no handle on it, only the real channel id both were registered against",
        ),
    ];
    proof {
        reveal_strlit("role");
        reveal_strlit("holder_pubkey");
        reveal_strlit("note");
        assert("role"@.len() == 4 && "note"@.len() == 4 && "holder_pubkey"@.len() == 13);
        assert("role"@[0] == 'r' && "note"@[0] == 'n');
        assert(entries_model(bob@) =~= bob_json(st@)->Object_0);
        assert(entries_model(alice@) =~= alice_json()->Object_0);
    }
    let entries = vec![
        string_entry("channel_id", &st.bob.channel_id_hex),
        ("bob".to_owned(), json_object(bob)),
        ("alice".to_owned(), json_object(alice)),
        ("bob1".to_owned(), tell_peer(&st.bob1)),
        ("bob2".to_owned(), tell_peer(&st.bob2)),
    ];
    proof {
        reveal_strlit("channel_id");
        reveal_strlit("bob");
        reveal_strlit("alice");
        reveal_strlit("bob1");
        reveal_strlit("bob2");
        assert("channel_id"@.len() == 10 && "bob"@.len() == 3 && "alice"@.len() == 5);
        assert("bob1"@.len() == 4 && "bob2"@.len() == 4);
        assert("bob1"@[3] == '1' && "bob2"@[3] == '2');
        assert(entries_model(entries@) =~= identities_json(st@)->Object_0);
    }
    json_object(entries)
}

/// How many bytes of a public key are enough to know it by: sixteen, or all there are.
pub open spec fn prefix_len(key: Seq<char>) -> int {
    if encode_utf8(key).len() < 16 {
        encode_utf8(key).len() as int
    } else {
        16
    }
}

/// The start of a public key.
pub open spec fn key_prefix(key: Seq<char>) -> Seq<char> {
    decode_utf8(encode_utf8(key).subrange(0, prefix_len(key)))
}

/// The bridge says at startup which channel and key agent-bob has ...
pub open spec fn bob_line(st: BridgeView) -> Seq<char> {
    "a2a-demo-bridge: agent-bob configured -- channel="@ + st.bob.channel_id_hex
        + " holder_pubkey="@ + key_prefix(st.bob.holder_pubkey_hex)
}

/// ... and which scenarios are there.
pub open spec fn scenarios_line(st: BridgeView) -> Seq<char> {
    "a2a-demo-bridge: bob-1 (intern) "@ + provisioning(st.bob1 is Some) + " -- bob-2 (remote) "@
        + provisioning(st.bob2 is Some)
}

/// Whether a scenario is there, in words.
pub open spec fn provisioning(provisioned: bool) -> Seq<char> {
    if provisioned {
        "provisioned"@
    } else {
        "NOT yet provisioned (see GitHub #248)"@
    }
}

/// Whether a scenario is there, in words.
fn tell_provisioning(provisioned: bool) -> (r: &'static str)
    ensures
        r@ == provisioning(provisioned),
{
    if provisioned {
        "provisioned"
    } else {
        "NOT yet provisioned (see GitHub #248)"
    }
}

/// The start of a public key. It must not end in the middle of a character, which no hexadecimal
/// key does.
pub fn start_of_key(key: &str) -> (r: &str)
    requires
        is_char_boundary(encode_utf8(key@), prefix_len(key@)),
    ensures
        r@ == key_prefix(key@),
{
    let len = key.as_bytes().len();
    let n: usize = if len < 16 {
        len
    } else {
        16
    };
    let (start, _) = key.split_at(n);
    proof {
        encode_utf8_decode_utf8(start@);
    }
    start
}

/// The two lines that the bridge prints when it starts.
pub fn startup_lines(st: &BridgeState) -> (r: (String, String))
    requires
        is_char_boundary(
            encode_utf8(st@.bob.holder_pubkey_hex),
            prefix_len(st@.bob.holder_pubkey_hex),
        ),
    ensures
        r.0@ == bob_line(st@),
        r.1@ == scenarios_line(st@),
{
    let mut first = join(
        "a2a-demo-bridge: agent-bob configured -- channel=",
        &st.bob.channel_id_hex,
    );
    first.append(" holder_pubkey=");
    first.append(start_of_key(&st.bob.holder_pubkey_hex));
    let mut second = join(
        "a2a-demo-bridge: bob-1 (intern) ",
        tell_provisioning(st.bob1.is_some()),
    );
    second.append(" -- bob-2 (remote) ");
    second.append(tell_provisioning(st.bob2.is_some()));
    (first, second)
}

} // verus!
