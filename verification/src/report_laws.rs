//! What the bridge's reports say, entry by entry.

use vstd::prelude::*;
use vstd::utf8::*;

use crate::bridge::BridgeView;
use crate::heartbeat::HeartbeatPeerView;
use crate::identity::PeerView;
use crate::json::{distinct_keys, JsonModel};
use crate::report::{
    bob_line, identities_json, key_prefix, peer_json, prefix_len, scenarios_line, status_json,
};

verus! {

/// The document is an object that has an entry with the key and the value, and no other with that
/// key.
pub open spec fn says(document: JsonModel, key: Seq<char>, value: JsonModel) -> bool {
    document matches JsonModel::Object(entries) && {
        &&& entries.contains((key, value))
        &&& forall|i: int|
            0 <= i < entries.len() && (#[trigger] entries[i]).0 == key ==> entries[i].1 == value
    }
}

/// The document is an object with `n` entries.
pub open spec fn has_entries(document: JsonModel, n: int) -> bool {
    document matches JsonModel::Object(entries) && entries.len() == n
}

/// The peer has a last heartbeat, less than thirty-five seconds before `now`.
pub open spec fn is_there(peer: Option<HeartbeatPeerView>, now: u128) -> bool {
    peer matches Some(p) && p.last_seen matches Some(t) && now - t < 35_000_000_000
}

proof fn lemma_says(entries: Seq<(Seq<char>, JsonModel)>, k: int)
    requires
        distinct_keys(entries),
        0 <= k < entries.len(),
    ensures
        says(JsonModel::Object(entries), entries[k].0, entries[k].1),
{
    assert(entries.contains(entries[k]));
    assert forall|i: int|
        0 <= i < entries.len() && (#[trigger] entries[i]).0 == entries[k].0 implies entries[i].1
        == entries[k].1 by {
        if i < k {
            assert(entries[i].0 != entries[k].0);
        }
        if i > k {
            assert(entries[k].0 != entries[i].0);
        }
    }
}

/// The status says of each peer whether it was heard of lately and whether its scenario is there,
/// each under the peer's own key, and nothing else.
pub proof fn the_status_tells_who_is_there(st: BridgeView, now: u128)
    ensures
        has_entries(status_json(st, now), 4),
        says(
            status_json(st, now),
            "bob1_online"@,
            JsonModel::Bool(is_there(st.heartbeats.bob1, now)),
        ),
        says(
            status_json(st, now),
            "bob2_online"@,
            JsonModel::Bool(is_there(st.heartbeats.bob2, now)),
        ),
        says(status_json(st, now), "bob1_provisioned"@, JsonModel::Bool(st.bob1 is Some)),
        says(status_json(st, now), "bob2_provisioned"@, JsonModel::Bool(st.bob2 is Some)),
{
    crate::presence_laws::peers_are_online_if_heard_of_lately(st.heartbeats, "bob1"@, now);
    reveal_strlit("bob1_online");
    reveal_strlit("bob2_online");
    reveal_strlit("bob1_provisioned");
    reveal_strlit("bob2_provisioned");
    assert("bob1_online"@.len() == 11 && "bob2_online"@.len() == 11);
    assert("bob1_provisioned"@.len() == 16 && "bob2_provisioned"@.len() == 16);
    assert("bob1_online"@[3] == '1' && "bob2_online"@[3] == '2');
    assert("bob1_provisioned"@[3] == '1' && "bob2_provisioned"@[3] == '2');
    let entries = status_json(st, now)->Object_0;
    lemma_says(entries, 0);
    lemma_says(entries, 1);
    lemma_says(entries, 2);
    lemma_says(entries, 3);
}

/// A heartbeat shows in the status at once and until it is stale: whoever asks within thirty-five
/// seconds is told that the peer is online, and whoever asks later that it is not.
pub proof fn heartbeats_show_in_the_status(st: BridgeView, at: u128, now: u128)
    requires
        at <= now,
    ensures
        st.heartbeats.bob1 is Some ==> says(
            status_json(
                BridgeView { heartbeats: st.heartbeats.seen("bob1"@, at), ..st },
                now,
            ),
            "bob1_online"@,
            JsonModel::Bool(now - at < 35_000_000_000),
        ),
        st.heartbeats.bob2 is Some ==> says(
            status_json(
                BridgeView { heartbeats: st.heartbeats.seen("bob2"@, at), ..st },
                now,
            ),
            "bob2_online"@,
            JsonModel::Bool(now - at < 35_000_000_000),
        ),
{
    crate::presence_laws::hearing_of_a_peer_notes_the_time(st.heartbeats, "bob1"@, at);
    crate::presence_laws::hearing_of_a_peer_notes_the_time(st.heartbeats, "bob2"@, at);
    the_status_tells_who_is_there(
        BridgeView { heartbeats: st.heartbeats.seen("bob1"@, at), ..st },
        now,
    );
    the_status_tells_who_is_there(
        BridgeView { heartbeats: st.heartbeats.seen("bob2"@, at), ..st },
        now,
    );
}

/// What is told of a scenario is its label, its channel and the peer's public key, or nothing where
/// it is not there.
pub proof fn scenarios_tell_their_public_part(peer: Option<PeerView>)
    ensures
        peer is None ==> peer_json(peer) is Null,
        peer matches Some(p) ==> {
            &&& has_entries(peer_json(peer), 3)
            &&& says(peer_json(peer), "label"@, JsonModel::Text(p.label))
            &&& says(peer_json(peer), "channel_id"@, JsonModel::Text(p.channel_id_hex))
            &&& says(peer_json(peer), "peer_holder_pubkey"@, JsonModel::Text(p.peer_holder_pubkey_hex))
        },
{
    if let Some(p) = peer {
        reveal_strlit("label");
        reveal_strlit("channel_id");
        reveal_strlit("peer_holder_pubkey");
        assert("label"@.len() == 5 && "channel_id"@.len() == 10);
        assert("peer_holder_pubkey"@.len() == 18);
        let entries = peer_json(peer)->Object_0;
        lemma_says(entries, 0);
        lemma_says(entries, 1);
        lemma_says(entries, 2);
    }
}

/// The identities tell the channel, agent-bob's role and public key, agent-alice's role, and each
/// scenario under its own name.
pub proof fn identities_tell_who_takes_part(st: BridgeView)
    ensures
        has_entries(identities_json(st), 5),
        says(identities_json(st), "channel_id"@, JsonModel::Text(st.bob.channel_id_hex)),
        says(
            identities_json(st),
            "bob"@,
            JsonModel::Object(
                seq![
                    (
                        "role"@,
                        JsonModel::Text(
                            "initiator (calls it, spawned by this bridge per request)"@,
                        ),
                    ),
                    ("holder_pubkey"@, JsonModel::Text(st.bob.holder_pubkey_hex)),
                ],
            ),
        ),
        says(
            identities_json(st),
            "alice"@,
            JsonModel::Object(
                seq![
                    ("role"@, JsonModel::Text("responder (serves text_generation)"@)),
                    (
                        "note"@,
                        JsonModel::Text(
                            "a separate, persistent container (a2a-demo-alice) -- this bridge has no handle on it, only the real channel id both were registered against"@,
                        ),
                    ),
                ],
            ),
        ),
        says(identities_json(st), "bob1"@, peer_json(st.bob1)),
        says(identities_json(st), "bob2"@, peer_json(st.bob2)),
{
    reveal_strlit("channel_id");
    reveal_strlit("bob");
    reveal_strlit("alice");
    reveal_strlit("bob1");
    reveal_strlit("bob2");
    assert("channel_id"@.len() == 10 && "bob"@.len() == 3 && "alice"@.len() == 5);
    assert("bob1"@.len() == 4 && "bob2"@.len() == 4);
    assert("bob1"@[3] == '1' && "bob2"@[3] == '2');
    let entries = identities_json(st)->Object_0;
    lemma_says(entries, 0);
    lemma_says(entries, 1);
    lemma_says(entries, 2);
    lemma_says(entries, 3);
    lemma_says(entries, 4);
}

/// The start of a key is its first sixteen bytes, or the whole key where it has no more.
pub proof fn keys_are_known_by_sixteen_bytes(key: Seq<char>)
    requires
        is_char_boundary(encode_utf8(key), prefix_len(key)),
    ensures
        ({
            let bytes = encode_utf8(key);
            &&& bytes.len() <= 16 ==> key_prefix(key) == key
            &&& bytes.len() > 16 ==> encode_utf8(key_prefix(key)) == bytes.take(16)
        }),
{
    let bytes = encode_utf8(key);
    encode_utf8_valid_utf8(key);
    encode_utf8_decode_utf8(key);
    if bytes.len() <= 16 {
        assert(bytes.subrange(0, prefix_len(key)) =~= bytes);
    } else {
        valid_utf8_split(bytes, 16);
        assert(bytes.subrange(0, 16) =~= bytes.take(16));
        decode_utf8_encode_utf8(bytes.subrange(0, 16));
    }
}

/// The first line printed at startup names the channel in full and agent-bob's key by its start;
/// the second says of each scenario whether it is there.
pub proof fn startup_lines_say_what_was_found(st: BridgeView)
    ensures
        ({
            let there = "provisioned"@;
            let absent = "NOT yet provisioned (see GitHub #248)"@;
            &&& bob_line(st) == "a2a-demo-bridge: agent-bob configured -- channel="@
                + st.bob.channel_id_hex + " holder_pubkey="@ + key_prefix(st.bob.holder_pubkey_hex)
            &&& scenarios_line(st) == "a2a-demo-bridge: bob-1 (intern) "@ + (if st.bob1 is Some {
                there
            } else {
                absent
            }) + " -- bob-2 (remote) "@ + (if st.bob2 is Some {
                there
            } else {
                absent
            })
        }),
{
}

} // verus!
