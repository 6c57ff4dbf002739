//! Who dials, over which channel, through which edge: all of it is fixed before the bridge starts
//! and only ever read here.

use vstd::prelude::*;

use crate::environment::{missing, optional_env, provided, required, required_env, Environment};
use crate::hex::{hex_encode, hex_text};
use crate::text::{join, text_or_error, trim_end_matches, without_trailing};

verus! {

/// What came of asking the control plane for its CA root. Errors come as their text.
pub enum CaFetch {
    /// The request failed.
    Unreachable(String),
    /// The response could not be read.
    Unreadable(String),
    /// The body of the response.
    Body(Vec<u8>),
}

/// The texts and bytes behind a `CaFetch`.
pub enum CaFetchView {
    Unreachable(Seq<char>),
    Unreadable(Seq<char>),
    Body(Seq<u8>),
}

impl View for CaFetch {
    type V = CaFetchView;

    open spec fn view(&self) -> CaFetchView {
        match self {
            CaFetch::Unreachable(error) => CaFetchView::Unreachable(error@),
            CaFetch::Unreadable(error) => CaFetchView::Unreadable(error@),
            CaFetch::Body(der) => CaFetchView::Body(der@),
        }
    }
}

/// Where the control plane at `cp_url` publishes its CA root.
pub open spec fn ca_location(cp_url: Seq<char>) -> Seq<char> {
    without_trailing(cp_url, '/') + "/pki/ca"@
}

/// The front door's trust anchor in hexadecimal, or why there is none.
pub open spec fn front_door_cert(cp_url: Seq<char>, fetched: CaFetchView) -> Result<
    Seq<char>,
    Seq<char>,
> {
    match fetched {
        CaFetchView::Unreachable(error) => Err(
            "fetching "@ + ca_location(cp_url) + ": "@ + error,
        ),
        CaFetchView::Unreadable(error) => Err(
            "reading "@ + ca_location(cp_url) + " response: "@ + error,
        ),
        CaFetchView::Body(der) => if der.len() == 0 {
            Err(
                "empty /pki/ca response from "@ + cp_url
                    + ", refusing to start without a front-door trust anchor"@,
            )
        } else {
            Ok(hex_text(der))
        },
    }
}

/// Where the control plane at `cp_url` publishes its CA root.
pub fn ca_url(cp_url: &str) -> (r: String)
    ensures
        r@ == ca_location(cp_url@),
{
    join(trim_end_matches(cp_url, '/'), "/pki/ca")
}

/// The front door's trust anchor in hexadecimal, from what came of fetching `ca_url(cp_url)`.
pub fn fetch_front_door_cert_hex(cp_url: &str, fetched: &CaFetch) -> (r: Result<String, String>)
    ensures
        text_or_error(r) == front_door_cert(cp_url@, fetched@),
{
    match fetched {
        CaFetch::Unreachable(error) => {
            let mut message = join("fetching ", &ca_url(cp_url));
            message.append(": ");
            message.append(error);
            Err(message)
        },
        CaFetch::Unreadable(error) => {
            let mut message = join("reading ", &ca_url(cp_url));
            message.append(" response: ");
            message.append(error);
            Err(message)
        },
        CaFetch::Body(der) => {
            if der.is_empty() {
                let mut message = join("empty /pki/ca response from ", cp_url);
                message.append(", refusing to start without a front-door trust anchor");
                Err(message)
            } else {
                Ok(hex_encode(der))
            }
        },
    }
}

/// The first of the variables, in order, that is not set.
pub open spec fn first_missing(
    env: Map<Seq<char>, Seq<char>>,
    names: Seq<Seq<char>>,
) -> Option<Seq<char>>
    decreases names.len(),
{
    if names.len() == 0 {
        None
    } else if !env.contains_key(names[0]) {
        Some(names[0])
    } else {
        first_missing(env, names.drop_first())
    }
}

/// Agent-bob's channel identity: an operator-signed grant for a holder key that the control plane
/// knows. It has to match what was registered, so it is read and never made up.
pub struct BobIdentity {
    pub holder_key_hex: String,
    pub noise_key_hex: String,
    pub grant_hex: String,
    pub holder_pubkey_hex: String,
    pub channel_id_hex: String,
    pub broker_addr: String,
    pub relay_addr: String,
    /// The `:443` rung of the relay ladder; it takes both the address and the trust anchor.
    pub front_door_addr: String,
    pub front_door_cert_hex: String,
}

/// The texts behind a `BobIdentity`.
pub struct BobView {
    pub holder_key_hex: Seq<char>,
    pub noise_key_hex: Seq<char>,
    pub grant_hex: Seq<char>,
    pub holder_pubkey_hex: Seq<char>,
    pub channel_id_hex: Seq<char>,
    pub broker_addr: Seq<char>,
    pub relay_addr: Seq<char>,
    pub front_door_addr: Seq<char>,
    pub front_door_cert_hex: Seq<char>,
}

impl View for BobIdentity {
    type V = BobView;

    open spec fn view(&self) -> BobView {
        BobView {
            holder_key_hex: self.holder_key_hex@,
            noise_key_hex: self.noise_key_hex@,
            grant_hex: self.grant_hex@,
            holder_pubkey_hex: self.holder_pubkey_hex@,
            channel_id_hex: self.channel_id_hex@,
            broker_addr: self.broker_addr@,
            relay_addr: self.relay_addr@,
            front_door_addr: self.front_door_addr@,
            front_door_cert_hex: self.front_door_cert_hex@,
        }
    }
}

/// The variables that make up agent-bob's identity, in the order in which they are asked for.
pub open spec fn bob_variables() -> Seq<Seq<char>> {
    seq![
        "A2A_BOB_HOLDER_KEY"@,
        "A2A_BOB_NOISE_KEY"@,
        "A2A_BOB_GRANT"@,
        "A2A_BOB_HOLDER_PUBKEY"@,
        "A2A_CHANNEL_ID"@,
        "A2A_CHANNEL_BROKER"@,
        "A2A_CHANNEL_RELAY"@,
        "A2A_CHANNEL_FRONT_DOOR"@,
    ]
}

/// Agent-bob's identity as the environment gives it. The control plane's address is asked for
/// first, then the trust anchor, then the rest; the first thing to be missing is the error.
pub open spec fn bob_from_env(env: Map<Seq<char>, Seq<char>>, fetched: CaFetchView) -> Result<
    BobView,
    Seq<char>,
> {
    match required(env, "A2A_AGENT_CP_URL"@) {
        Err(error) => Err(error),
        Ok(cp_url) => match front_door_cert(cp_url, fetched) {
            Err(error) => Err(error),
            Ok(cert) => match first_missing(env, bob_variables()) {
                Some(name) => Err(missing(name)),
                None => Ok(
                    BobView {
                        holder_key_hex: env["A2A_BOB_HOLDER_KEY"@],
                        noise_key_hex: env["A2A_BOB_NOISE_KEY"@],
                        grant_hex: env["A2A_BOB_GRANT"@],
                        holder_pubkey_hex: env["A2A_BOB_HOLDER_PUBKEY"@],
                        channel_id_hex: env["A2A_CHANNEL_ID"@],
                        broker_addr: env["A2A_CHANNEL_BROKER"@],
                        relay_addr: env["A2A_CHANNEL_RELAY"@],
                        front_door_addr: env["A2A_CHANNEL_FRONT_DOOR"@],
                        front_door_cert_hex: cert,
                    },
                ),
            },
        },
    }
}

/// The view of an identity or an error message.
pub open spec fn bob_or_error(r: Result<BobIdentity, String>) -> Result<BobView, Seq<char>> {
    match r {
        Ok(bob) => Ok(bob@),
        Err(error) => Err(error@),
    }
}

impl BobIdentity {
    /// Reads agent-bob's identity from the environment, given what came of fetching the control
    /// plane's CA root.
    pub fn from_env(env: &Environment, fetched: &CaFetch) -> (r: Result<Self, String>)
        ensures
            bob_or_error(r) == bob_from_env(env@, fetched@),
    {
        proof {
            reveal_with_fuel(first_missing, 9);
        }
        let cp_url = required_env(env, "A2A_AGENT_CP_URL")?;
        let front_door_cert_hex = fetch_front_door_cert_hex(&cp_url, fetched)?;
        Ok(
            BobIdentity {
                holder_key_hex: required_env(env, "A2A_BOB_HOLDER_KEY")?,
                noise_key_hex: required_env(env, "A2A_BOB_NOISE_KEY")?,
                grant_hex: required_env(env, "A2A_BOB_GRANT")?,
                holder_pubkey_hex: required_env(env, "A2A_BOB_HOLDER_PUBKEY")?,
                channel_id_hex: required_env(env, "A2A_CHANNEL_ID")?,
                broker_addr: required_env(env, "A2A_CHANNEL_BROKER")?,
                relay_addr: required_env(env, "A2A_CHANNEL_RELAY")?,
                front_door_addr: required_env(env, "A2A_CHANNEL_FRONT_DOOR")?,
                front_door_cert_hex,
            },
        )
    }
}

/// A registered scenario in which alice dials a peer that serves the channel elsewhere. Alice's
/// holder and noise keys are the same in every scenario; the channel and the grant are not.
pub struct PeerScenario {
    pub label: &'static str,
    pub alice_holder_key_hex: String,
    pub alice_noise_key_hex: String,
    pub grant_hex: String,
    pub channel_id_hex: String,
    pub peer_holder_pubkey_hex: String,
}

/// The texts behind a `PeerScenario`.
pub struct PeerView {
    pub label: Seq<char>,
    pub alice_holder_key_hex: Seq<char>,
    pub alice_noise_key_hex: Seq<char>,
    pub grant_hex: Seq<char>,
    pub channel_id_hex: Seq<char>,
    pub peer_holder_pubkey_hex: Seq<char>,
}

impl View for PeerScenario {
    type V = PeerView;

    open spec fn view(&self) -> PeerView {
        PeerView {
            label: self.label@,
            alice_holder_key_hex: self.alice_holder_key_hex@,
            alice_noise_key_hex: self.alice_noise_key_hex@,
            grant_hex: self.grant_hex@,
            channel_id_hex: self.channel_id_hex@,
            peer_holder_pubkey_hex: self.peer_holder_pubkey_hex@,
        }
    }
}

/// The view of a scenario that may be absent.
pub open spec fn optional_peer(peer: Option<PeerScenario>) -> Option<PeerView> {
    match peer {
        Some(peer) => Some(peer@),
        None => None,
    }
}

/// A scenario as the environment gives it: absent unless every variable has a value.
pub open spec fn peer_from_env(
    env: Map<Seq<char>, Seq<char>>,
    label: Seq<char>,
    channel_var: Seq<char>,
    grant_var: Seq<char>,
    peer_pubkey_var: Seq<char>,
) -> Option<PeerView> {
    match (
        provided(env, "A2A_SCENARIOS_ALICE_HOLDER_KEY"@),
        provided(env, "A2A_SCENARIOS_ALICE_NOISE_KEY"@),
        provided(env, grant_var),
        provided(env, channel_var),
        provided(env, peer_pubkey_var),
    ) {
        (Some(holder), Some(noise), Some(grant), Some(channel), Some(pubkey)) => Some(
            PeerView {
                label,
                alice_holder_key_hex: holder,
                alice_noise_key_hex: noise,
                grant_hex: grant,
                channel_id_hex: channel,
                peer_holder_pubkey_hex: pubkey,
            },
        ),
        _ => None,
    }
}

impl PeerScenario {
    /// Reads a scenario from the environment. `None` while it is not provisioned: that is a
    /// normal state and no error. The scenario's own variables are named one by one, since their
    /// names follow no pattern.
    pub fn from_env(
        env: &Environment,
        label: &'static str,
        channel_var: &str,
        grant_var: &str,
        peer_pubkey_var: &str,
    ) -> (r: Option<Self>)
        ensures
            optional_peer(r) == peer_from_env(
                env@,
                label@,
                channel_var@,
                grant_var@,
                peer_pubkey_var@,
            ),
    {
        Some(
            PeerScenario {
                label,
                alice_holder_key_hex: optional_env(env, "A2A_SCENARIOS_ALICE_HOLDER_KEY")?,
                alice_noise_key_hex: optional_env(env, "A2A_SCENARIOS_ALICE_NOISE_KEY")?,
                grant_hex: optional_env(env, grant_var)?,
                channel_id_hex: optional_env(env, channel_var)?,
                peer_holder_pubkey_hex: optional_env(env, peer_pubkey_var)?,
            },
        )
    }
}

/// The edge that every scenario dials through: only the identity and the grant differ.
pub struct PlaneConfig {
    pub broker_addr: String,
    pub relay_addr: String,
    pub front_door_addr: String,
    pub front_door_cert_hex: String,
}

/// The texts behind a `PlaneConfig`.
pub struct PlaneView {
    pub broker_addr: Seq<char>,
    pub relay_addr: Seq<char>,
    pub front_door_addr: Seq<char>,
    pub front_door_cert_hex: Seq<char>,
}

impl View for PlaneConfig {
    type V = PlaneView;

    open spec fn view(&self) -> PlaneView {
        PlaneView {
            broker_addr: self.broker_addr@,
            relay_addr: self.relay_addr@,
            front_door_addr: self.front_door_addr@,
            front_door_cert_hex: self.front_door_cert_hex@,
        }
    }
}

/// The variables that make up the edge, in the order in which they are asked for.
pub open spec fn plane_variables() -> Seq<Seq<char>> {
    seq!["A2A_CHANNEL_BROKER"@, "A2A_CHANNEL_RELAY"@, "A2A_CHANNEL_FRONT_DOOR"@]
}

/// The edge as the environment gives it. The trust anchor comes last.
pub open spec fn plane_from_env(
    env: Map<Seq<char>, Seq<char>>,
    cp_url: Seq<char>,
    fetched: CaFetchView,
) -> Result<PlaneView, Seq<char>> {
    match first_missing(env, plane_variables()) {
        Some(name) => Err(missing(name)),
        None => match front_door_cert(cp_url, fetched) {
            Err(error) => Err(error),
            Ok(cert) => Ok(
                PlaneView {
                    broker_addr: env["A2A_CHANNEL_BROKER"@],
                    relay_addr: env["A2A_CHANNEL_RELAY"@],
                    front_door_addr: env["A2A_CHANNEL_FRONT_DOOR"@],
                    front_door_cert_hex: cert,
                },
            ),
        },
    }
}

/// The view of an edge or an error message.
pub open spec fn plane_or_error(r: Result<PlaneConfig, String>) -> Result<PlaneView, Seq<char>> {
    match r {
        Ok(plane) => Ok(plane@),
        Err(error) => Err(error@),
    }
}

impl PlaneConfig {
    /// Reads the edge from the environment, given what came of fetching `ca_url(cp_url)`.
    pub fn from_env(env: &Environment, cp_url: &str, fetched: &CaFetch) -> (r: Result<Self, String>)
        ensures
            plane_or_error(r) == plane_from_env(env@, cp_url@, fetched@),
    {
        proof {
            reveal_with_fuel(first_missing, 4);
        }
        Ok(
            PlaneConfig {
                broker_addr: required_env(env, "A2A_CHANNEL_BROKER")?,
                relay_addr: required_env(env, "A2A_CHANNEL_RELAY")?,
                front_door_addr: required_env(env, "A2A_CHANNEL_FRONT_DOOR")?,
                front_door_cert_hex: fetch_front_door_cert_hex(cp_url, fetched)?,
            },
        )
    }
}

/// `first_missing` finds nothing exactly when every variable is set, and what it finds is one of
/// them, not set, with every earlier one set.
pub proof fn first_missing_is_first(env: Map<Seq<char>, Seq<char>>, names: Seq<Seq<char>>)
    ensures
        match first_missing(env, names) {
            None => forall|i: int| 0 <= i < names.len() ==> env.contains_key(#[trigger] names[i]),
            Some(name) => !env.contains_key(name) && exists|k: int|
                {
                    &&& 0 <= k < names.len()
                    &&& #[trigger] names[k] == name
                    &&& forall|i: int| 0 <= i < k ==> env.contains_key(#[trigger] names[i])
                },
        },
    decreases names.len(),
{
    if names.len() > 0 && env.contains_key(names[0]) {
        let rest = names.drop_first();
        first_missing_is_first(env, rest);
        match first_missing(env, names) {
            None => {
                assert forall|i: int| 0 <= i < names.len() implies env.contains_key(
                    #[trigger] names[i],
                ) by {
                    if i > 0 {
                        assert(names[i] == rest[i - 1]);
                    }
                }
            },
            Some(name) => {
                let k = choose|k: int|
                    {
                        &&& 0 <= k < rest.len()
                        &&& #[trigger] rest[k] == name
                        &&& forall|i: int| 0 <= i < k ==> env.contains_key(#[trigger] rest[i])
                    };
                assert(names[k + 1] == name);
                assert forall|i: int| 0 <= i < k + 1 implies env.contains_key(
                    #[trigger] names[i],
                ) by {
                    if i > 0 {
                        assert(names[i] == rest[i - 1]);
                    }
                }
            },
        }
    }
}

/// There is never an identity or an edge without a trust anchor for the front door.
pub proof fn front_doors_have_a_trust_anchor(
    env: Map<Seq<char>, Seq<char>>,
    cp_url: Seq<char>,
    fetched: CaFetchView,
)
    ensures
        front_door_cert(cp_url, fetched) matches Ok(cert) ==> cert.len() > 0,
        bob_from_env(env, fetched) matches Ok(bob) ==> bob.front_door_cert_hex.len() > 0,
        plane_from_env(env, cp_url, fetched) matches Ok(plane) ==> plane.front_door_cert_hex.len()
            > 0,
{
}

/// Where agent-bob's identity is complete, so is the edge, and both dial through the same broker,
/// relay and front door, with the same trust anchor.
pub proof fn bob_and_the_plane_agree(
    env: Map<Seq<char>, Seq<char>>,
    cp_url: Seq<char>,
    fetched: CaFetchView,
)
    requires
        bob_from_env(env, fetched) is Ok,
    ensures
        ({
            let bob = bob_from_env(env, fetched)->Ok_0;
            plane_from_env(env, cp_url, fetched) == Ok::<PlaneView, Seq<char>>(
                PlaneView {
                    broker_addr: bob.broker_addr,
                    relay_addr: bob.relay_addr,
                    front_door_addr: bob.front_door_addr,
                    front_door_cert_hex: bob.front_door_cert_hex,
                },
            )
        }),
{
    reveal_with_fuel(first_missing, 9);
}

/// A scenario that is provisioned lacks nothing.
pub proof fn provisioned_scenarios_are_complete(
    env: Map<Seq<char>, Seq<char>>,
    label: Seq<char>,
    channel_var: Seq<char>,
    grant_var: Seq<char>,
    peer_pubkey_var: Seq<char>,
)
    ensures
        peer_from_env(env, label, channel_var, grant_var, peer_pubkey_var) matches Some(peer) ==> {
            &&& peer.alice_holder_key_hex.len() > 0
            &&& peer.alice_noise_key_hex.len() > 0
            &&& peer.grant_hex.len() > 0
            &&& peer.channel_id_hex.len() > 0
            &&& peer.peer_holder_pubkey_hex.len() > 0
        },
{
}

/// The CA root is asked for at the control plane's address, less the slashes it ends with.
pub proof fn the_ca_is_asked_for_at_the_control_plane(cp_url: Seq<char>, n: int)
    requires
        0 <= n <= cp_url.len(),
        n > 0 ==> cp_url[n - 1] != '/',
        forall|i: int| n <= i < cp_url.len() ==> #[trigger] cp_url[i] == '/',
    ensures
        ca_location(cp_url) == cp_url.take(n) + "/pki/ca"@,
{
    crate::text::trailing_runs_are_cut_off_whole(cp_url, '/');
    let kept = without_trailing(cp_url, '/');
    let k = kept.len() as int;
    if k < n {
        assert(cp_url[n - 1] == '/');
    }
    if k > n {
        assert(kept[k - 1] == cp_url[k - 1]);
    }
}

/// There is a trust anchor exactly if the control plane sent something, and it is what was sent,
/// byte for byte.
pub proof fn trust_anchors_are_what_was_sent(cp_url: Seq<char>, der: Seq<u8>, k: int)
    requires
        0 <= k < der.len(),
    ensures
        front_door_cert(cp_url, CaFetchView::Body(der)) matches Ok(cert) && {
            &&& cert.len() == 2 * der.len()
            &&& 16 * crate::hex::digit_value(cert[2 * k]) + crate::hex::digit_value(cert[2 * k + 1])
                == der[k]
        },
{
    crate::hex::hex_text_spells_the_bytes(der, k);
}

/// Without a trust anchor the error says what went wrong, where, and why.
pub proof fn failed_fetches_say_why(cp_url: Seq<char>, error: Seq<char>)
    ensures
        front_door_cert(cp_url, CaFetchView::Unreachable(error)) == Err::<Seq<char>, Seq<char>>(
            "fetching "@ + ca_location(cp_url) + ": "@ + error,
        ),
        front_door_cert(cp_url, CaFetchView::Unreadable(error)) == Err::<Seq<char>, Seq<char>>(
            "reading "@ + ca_location(cp_url) + " response: "@ + error,
        ),
        front_door_cert(cp_url, CaFetchView::Body(seq![])) == Err::<Seq<char>, Seq<char>>(
            "empty /pki/ca response from "@ + cp_url
                + ", refusing to start without a front-door trust anchor"@,
        ),
{
}

/// Agent-bob is there exactly if all nine variables are set and the control plane sent a CA root,
/// and he is then just what the variables and the CA root say.
pub proof fn bob_is_what_the_environment_says(
    env: Map<Seq<char>, Seq<char>>,
    fetched: CaFetchView,
)
    ensures
        bob_from_env(env, fetched) is Ok <==> {
            &&& env.contains_key("A2A_AGENT_CP_URL"@)
            &&& env.contains_key("A2A_BOB_HOLDER_KEY"@)
            &&& env.contains_key("A2A_BOB_NOISE_KEY"@)
            &&& env.contains_key("A2A_BOB_GRANT"@)
            &&& env.contains_key("A2A_BOB_HOLDER_PUBKEY"@)
            &&& env.contains_key("A2A_CHANNEL_ID"@)
            &&& env.contains_key("A2A_CHANNEL_BROKER"@)
            &&& env.contains_key("A2A_CHANNEL_RELAY"@)
            &&& env.contains_key("A2A_CHANNEL_FRONT_DOOR"@)
            &&& fetched matches CaFetchView::Body(der) && der.len() > 0
        },
        bob_from_env(env, fetched) matches Ok(bob) ==> {
            &&& bob.holder_key_hex == env["A2A_BOB_HOLDER_KEY"@]
            &&& bob.noise_key_hex == env["A2A_BOB_NOISE_KEY"@]
            &&& bob.grant_hex == env["A2A_BOB_GRANT"@]
            &&& bob.holder_pubkey_hex == env["A2A_BOB_HOLDER_PUBKEY"@]
            &&& bob.channel_id_hex == env["A2A_CHANNEL_ID"@]
            &&& bob.broker_addr == env["A2A_CHANNEL_BROKER"@]
            &&& bob.relay_addr == env["A2A_CHANNEL_RELAY"@]
            &&& bob.front_door_addr == env["A2A_CHANNEL_FRONT_DOOR"@]
            &&& bob.front_door_cert_hex == hex_text(fetched->Body_0)
        },
{
    reveal_with_fuel(first_missing, 9);
}

/// The edge is there exactly if its three variables are set and the control plane sent a CA root,
/// and it is then just what these say.
pub proof fn the_edge_is_what_the_environment_says(
    env: Map<Seq<char>, Seq<char>>,
    cp_url: Seq<char>,
    fetched: CaFetchView,
)
    ensures
        plane_from_env(env, cp_url, fetched) is Ok <==> {
            &&& env.contains_key("A2A_CHANNEL_BROKER"@)
            &&& env.contains_key("A2A_CHANNEL_RELAY"@)
            &&& env.contains_key("A2A_CHANNEL_FRONT_DOOR"@)
            &&& fetched matches CaFetchView::Body(der) && der.len() > 0
        },
        plane_from_env(env, cp_url, fetched) matches Ok(plane) ==> {
            &&& plane.broker_addr == env["A2A_CHANNEL_BROKER"@]
            &&& plane.relay_addr == env["A2A_CHANNEL_RELAY"@]
            &&& plane.front_door_addr == env["A2A_CHANNEL_FRONT_DOOR"@]
            &&& plane.front_door_cert_hex == hex_text(fetched->Body_0)
        },
{
    reveal_with_fuel(first_missing, 4);
}

/// What agent-bob lacks is told in one order: the address of the control plane, the trust anchor,
/// and then the variables, of which the first that is not set is named.
pub proof fn what_bob_lacks_first_is_the_error(
    env: Map<Seq<char>, Seq<char>>,
    fetched: CaFetchView,
    k: int,
)
    requires
        0 <= k < 8,
    ensures
        ({
            let names = seq![
                "A2A_BOB_HOLDER_KEY"@,
                "A2A_BOB_NOISE_KEY"@,
                "A2A_BOB_GRANT"@,
                "A2A_BOB_HOLDER_PUBKEY"@,
                "A2A_CHANNEL_ID"@,
                "A2A_CHANNEL_BROKER"@,
                "A2A_CHANNEL_RELAY"@,
                "A2A_CHANNEL_FRONT_DOOR"@,
            ];
            let url = "A2A_AGENT_CP_URL"@;
            let hint = " must be set (see README/provision.md)"@;
            &&& !env.contains_key(url) ==> bob_from_env(env, fetched) == Err::<BobView, Seq<char>>(
                url + hint,
            )
            &&& env.contains_key(url) && front_door_cert(env[url], fetched) is Err ==> bob_from_env(env, fetched) == Err::<BobView, Seq<char>>(
                front_door_cert(env[url], fetched)->Err_0,
            )
            &&& env.contains_key(url) && front_door_cert(env[url], fetched) is Ok
                && !env.contains_key(names[k]) && (forall|i: int|
                0 <= i < k ==> env.contains_key(#[trigger] names[i])) ==> bob_from_env(env, fetched)
                == Err::<BobView, Seq<char>>(names[k] + hint)
        }),
{
    let names = bob_variables();
    if !env.contains_key(names[k]) && (forall|i: int|
        0 <= i < k ==> env.contains_key(#[trigger] names[i])) {
        lemma_first_missing_at(env, names, k);
    }
}

proof fn lemma_first_missing_at(
    env: Map<Seq<char>, Seq<char>>,
    names: Seq<Seq<char>>,
    k: int,
)
    requires
        0 <= k < names.len(),
        !env.contains_key(names[k]),
        forall|i: int| 0 <= i < k ==> env.contains_key(#[trigger] names[i]),
    ensures
        first_missing(env, names) == Some(names[k]),
    decreases names.len(),
{
    if k > 0 {
        let rest = names.drop_first();
        assert(env.contains_key(names[0]));
        assert(rest[k - 1] == names[k]);
        assert forall|i: int| 0 <= i < k - 1 implies env.contains_key(#[trigger] rest[i]) by {
            assert(rest[i] == names[i + 1]);
        }
        lemma_first_missing_at(env, rest, k - 1);
    }
}

/// What the edge lacks is told in one order: the first of its variables that is not set, and the
/// trust anchor last.
pub proof fn what_the_edge_lacks_first_is_the_error(
    env: Map<Seq<char>, Seq<char>>,
    cp_url: Seq<char>,
    fetched: CaFetchView,
)
    ensures
        ({
            let broker = "A2A_CHANNEL_BROKER"@;
            let relay = "A2A_CHANNEL_RELAY"@;
            let door = "A2A_CHANNEL_FRONT_DOOR"@;
            let hint = " must be set (see README/provision.md)"@;
            plane_from_env(env, cp_url, fetched) matches Err(error) ==> error == if !env.contains_key(
                broker,
            ) {
                broker + hint
            } else if !env.contains_key(relay) {
                relay + hint
            } else if !env.contains_key(door) {
                door + hint
            } else {
                front_door_cert(cp_url, fetched)->Err_0
            }
        }),
{
    reveal_with_fuel(first_missing, 4);
}

/// A scenario is there exactly if alice's keys and its own three variables are all set to
/// something, and it is then just what they say, under its label.
pub proof fn scenarios_are_what_the_environment_says(
    env: Map<Seq<char>, Seq<char>>,
    label: Seq<char>,
    channel_var: Seq<char>,
    grant_var: Seq<char>,
    peer_pubkey_var: Seq<char>,
)
    ensures
        ({
            let holder = "A2A_SCENARIOS_ALICE_HOLDER_KEY"@;
            let noise = "A2A_SCENARIOS_ALICE_NOISE_KEY"@;
            let peer = peer_from_env(env, label, channel_var, grant_var, peer_pubkey_var);
            &&& peer is Some <==> {
                &&& env.contains_key(holder) && env[holder].len() > 0
                &&& env.contains_key(noise) && env[noise].len() > 0
                &&& env.contains_key(grant_var) && env[grant_var].len() > 0
                &&& env.contains_key(channel_var) && env[channel_var].len() > 0
                &&& env.contains_key(peer_pubkey_var) && env[peer_pubkey_var].len() > 0
            }
            &&& peer matches Some(p) ==> {
                &&& p.label == label
                &&& p.alice_holder_key_hex == env[holder]
                &&& p.alice_noise_key_hex == env[noise]
                &&& p.grant_hex == env[grant_var]
                &&& p.channel_id_hex == env[channel_var]
                &&& p.peer_holder_pubkey_hex == env[peer_pubkey_var]
            }
        }),
{
}

} // verus!
