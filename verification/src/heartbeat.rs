//! Which peers are there: they say so themselves, by heartbeats that carry a shared secret.
//!
//! Times are nanoseconds on one clock that never runs backwards; the caller reads it.

use vstd::prelude::*;

use crate::environment::{optional_env, provided, Environment};
use crate::event::{event_views, Event, EventView};
use crate::message::Refusal;
use crate::text::{same_text, trim, trimmed};

verus! {

/// How long after its last heartbeat a peer still counts as online: 35 seconds, for heartbeats
/// that come about every 15.
pub const HEARTBEAT_STALE_AFTER: u128 = 35_000_000_000;

/// How many seconds lie between two looks of the watchdog.
pub const WATCHDOG_PERIOD_SECS: u64 = 5;

/// A peer that reports by heartbeat.
pub struct HeartbeatPeer {
    pub token: String,
    pub last_seen: Option<u128>,
}

/// The peers that report by heartbeat. One without a token is not there.
pub struct HeartbeatState {
    pub bob1: Option<HeartbeatPeer>,
    pub bob2: Option<HeartbeatPeer>,
}

/// The text and the time behind a `HeartbeatPeer`.
pub struct HeartbeatPeerView {
    pub token: Seq<char>,
    pub last_seen: Option<u128>,
}

/// What the peers' state holds.
pub struct HeartbeatView {
    pub bob1: Option<HeartbeatPeerView>,
    pub bob2: Option<HeartbeatPeerView>,
}

impl View for HeartbeatPeer {
    type V = HeartbeatPeerView;

    open spec fn view(&self) -> HeartbeatPeerView {
        HeartbeatPeerView { token: self.token@, last_seen: self.last_seen }
    }
}

/// The view of a peer that may be absent.
pub open spec fn optional_heartbeat(peer: Option<HeartbeatPeer>) -> Option<HeartbeatPeerView> {
    match peer {
        Some(peer) => Some(peer@),
        None => None,
    }
}

impl View for HeartbeatState {
    type V = HeartbeatView;

    open spec fn view(&self) -> HeartbeatView {
        HeartbeatView {
            bob1: optional_heartbeat(self.bob1),
            bob2: optional_heartbeat(self.bob2),
        }
    }
}

/// A heartbeat at `last_seen` still counts at `now`. One from later than `now` does.
pub open spec fn is_fresh(last_seen: Option<u128>, now: u128) -> bool {
    match last_seen {
        Some(t) => now - t < HEARTBEAT_STALE_AFTER,
        None => false,
    }
}

/// A peer with the token that a variable gives it, not heard of yet.
pub open spec fn unheard(token: Option<Seq<char>>) -> Option<HeartbeatPeerView> {
    match token {
        Some(token) => Some(HeartbeatPeerView { token, last_seen: None }),
        None => None,
    }
}

/// The peers as the environment gives them.
pub open spec fn heartbeats_from_env(env: Map<Seq<char>, Seq<char>>) -> HeartbeatView {
    HeartbeatView {
        bob1: unheard(provided(env, "A2A_HEARTBEAT_TOKEN_BOB1"@)),
        bob2: unheard(provided(env, "A2A_HEARTBEAT_TOKEN_BOB2"@)),
    }
}

impl HeartbeatView {
    /// Every peer has a token to tell it by.
    pub open spec fn wf(self) -> bool {
        &&& self.bob1 matches Some(p) ==> p.token.len() > 0
        &&& self.bob2 matches Some(p) ==> p.token.len() > 0
    }

    /// The peer of a given name.
    pub open spec fn peer(self, name: Seq<char>) -> Option<HeartbeatPeerView> {
        if name == "bob1"@ {
            self.bob1
        } else if name == "bob2"@ {
            self.bob2
        } else {
            None
        }
    }

    /// The peer is there and its last heartbeat still counts.
    pub open spec fn online(self, name: Seq<char>, now: u128) -> bool {
        match self.peer(name) {
            Some(p) => is_fresh(p.last_seen, now),
            None => false,
        }
    }

    /// Why a heartbeat is turned down, if it is.
    pub open spec fn refusal(self, name: Seq<char>, body: Seq<char>) -> Option<Refusal> {
        match self.peer(name) {
            None => Some(Refusal::UnknownPeer),
            Some(p) => if trimmed(body) != p.token {
                Some(Refusal::Unauthorized)
            } else {
                None
            },
        }
    }

    /// The state once the peer was heard of at `now`.
    pub open spec fn seen(self, name: Seq<char>, now: u128) -> HeartbeatView {
        if name == "bob1"@ {
            HeartbeatView { bob1: heard(self.bob1, now), ..self }
        } else if name == "bob2"@ {
            HeartbeatView { bob2: heard(self.bob2, now), ..self }
        } else {
            self
        }
    }
}

/// The peer once it was heard of at `now`.
pub open spec fn heard(peer: Option<HeartbeatPeerView>, now: u128) -> Option<HeartbeatPeerView> {
    match peer {
        Some(p) => Some(HeartbeatPeerView { token: p.token, last_seen: Some(now) }),
        None => None,
    }
}

/// What a heartbeat that was accepted tells the dashboard: that the peer came online, where it was
/// not before.
pub open spec fn arrival(peer: Seq<char>, was_online: bool) -> Option<EventView> {
    if was_online {
        None
    } else {
        Some(EventView::Presence { peer, online: true })
    }
}

/// The view of an event that may be absent.
pub open spec fn optional_event(event: Option<Event>) -> Option<EventView> {
    match event {
        Some(event) => Some(event@),
        None => None,
    }
}

/// A peer with the given token, not heard of yet.
fn unheard_peer(token: Option<String>) -> (r: Option<HeartbeatPeer>)
    ensures
        optional_heartbeat(r) == unheard(crate::text::optional_text(token)),
{
    match token {
        Some(token) => Some(HeartbeatPeer { token, last_seen: None }),
        None => None,
    }
}

impl HeartbeatPeer {
    /// Whether the last heartbeat still counts at `now`.
    pub fn is_online(&self, now: u128) -> (r: bool)
        ensures
            r == is_fresh(self.last_seen, now),
    {
        match self.last_seen {
            Some(t) => now.saturating_sub(t) < HEARTBEAT_STALE_AFTER,
            None => false,
        }
    }
}

impl HeartbeatState {
    /// Reads the peers' tokens from the environment.
    pub fn from_env(env: &Environment) -> (r: Self)
        ensures
            r@ == heartbeats_from_env(env@),
            r@.wf(),
    {
        HeartbeatState {
            bob1: unheard_peer(optional_env(env, "A2A_HEARTBEAT_TOKEN_BOB1")),
            bob2: unheard_peer(optional_env(env, "A2A_HEARTBEAT_TOKEN_BOB2")),
        }
    }

    /// The peer of a given name.
    pub fn peer(&self, name: &str) -> (r: Option<&HeartbeatPeer>)
        ensures
            match r {
                Some(p) => self@.peer(name@) == Some(p@),
                None => self@.peer(name@) is None,
            },
    {
        if same_text(name, "bob1") {
            self.bob1.as_ref()
        } else if same_text(name, "bob2") {
            self.bob2.as_ref()
        } else {
            None
        }
    }

    /// Whether the peer is online at `now`.
    pub fn online(&self, name: &str, now: u128) -> (r: bool)
        ensures
            r == self@.online(name@, now),
    {
        match self.peer(name) {
            Some(p) => p.is_online(now),
            None => false,
        }
    }

    /// Notes that the peer was heard of at `now`.
    fn note(&mut self, name: &str, now: u128)
        ensures
            final(self)@ == old(self)@.seen(name@, now),
    {
        if same_text(name, "bob1") {
            match &mut self.bob1 {
                Some(p) => p.last_seen = Some(now),
                None => {},
            }
        } else if same_text(name, "bob2") {
            match &mut self.bob2 {
                Some(p) => p.last_seen = Some(now),
                None => {},
            }
        }
    }
}

/// Takes a heartbeat that came in at `now`. It counts if the peer is known and the body is its
/// token, give or take white space around it. The event, if there is one, is to be broadcast.
pub fn heartbeat_handler(
    heartbeats: &mut HeartbeatState,
    peer_name: &str,
    body: &str,
    now: u128,
) -> (r: Result<Option<Event>, Refusal>)
    ensures
        match old(heartbeats)@.refusal(peer_name@, body@) {
            Some(refusal) => r == Err::<Option<Event>, Refusal>(refusal) && final(heartbeats)@
                == old(heartbeats)@,
            None => {
                &&& r matches Ok(event) && optional_event(event) == arrival(
                    peer_name@,
                    old(heartbeats)@.online(peer_name@, now),
                )
                &&& final(heartbeats)@ == old(heartbeats)@.seen(peer_name@, now)
            },
        },
        old(heartbeats)@.wf() ==> final(heartbeats)@.wf(),
{
    let was_online = match heartbeats.peer(peer_name) {
        None => return Err(Refusal::UnknownPeer),
        Some(peer) => {
            if !same_text(trim(body), &peer.token) {
                return Err(Refusal::Unauthorized);
            }
            peer.is_online(now)
        },
    };
    heartbeats.note(peer_name, now);
    if was_online {
        Ok(None)
    } else {
        Ok(Some(Event::Presence { peer: peer_name.to_owned(), online: true }))
    }
}

/// What the watchdog saw when it last looked: whether each peer was online.
pub struct Watchdog {
    pub bob1: bool,
    pub bob2: bool,
}

/// What a look of the watchdog tells the dashboard of a peer: that it went offline. That a peer
/// came online is told by the heartbeat itself.
pub open spec fn departure(peer: Seq<char>, was_online: bool, online: bool) -> Seq<EventView> {
    if was_online && !online {
        seq![EventView::Presence { peer, online: false }]
    } else {
        seq![]
    }
}

impl Watchdog {
    /// A watchdog that has not looked yet.
    pub fn new() -> (r: Self)
        ensures
            !r.bob1 && !r.bob2,
    {
        Watchdog { bob1: false, bob2: false }
    }

    /// Looks at the peers at `now` and gives the events to broadcast: one for each peer that was
    /// online at the last look and is not any more. Heartbeats announce arrivals but cannot
    /// announce that they stopped, and a dashboard that was left open has to learn of it.
    pub fn tick(&mut self, heartbeats: &HeartbeatState, now: u128) -> (r: Vec<Event>)
        ensures
            final(self).bob1 == heartbeats@.online("bob1"@, now),
            final(self).bob2 == heartbeats@.online("bob2"@, now),
            event_views(r@) == departure("bob1"@, old(self).bob1, final(self).bob1) + departure(
                "bob2"@,
                old(self).bob2,
                final(self).bob2,
            ),
    {
        let bob1 = heartbeats.online("bob1", now);
        let bob2 = heartbeats.online("bob2", now);
        let mut events: Vec<Event> = Vec::new();
        if self.bob1 && !bob1 {
            events.push(Event::Presence { peer: "bob1".to_owned(), online: false });
        }
        if self.bob2 && !bob2 {
            events.push(Event::Presence { peer: "bob2".to_owned(), online: false });
        }
        assert(event_views(events@) =~= departure("bob1"@, self.bob1, bob1) + departure(
            "bob2"@,
            self.bob2,
            bob2,
        ));
        self.bob1 = bob1;
        self.bob2 = bob2;
        events
    }
}

} // verus!
