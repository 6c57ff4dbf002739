//! What the dashboard can rely on when it follows the presence events of the stream.

use vstd::prelude::*;

use crate::event::EventView;
use crate::heartbeat::{
    arrival, departure, heartbeats_from_env, is_fresh, HeartbeatPeerView, HeartbeatView,
    HEARTBEAT_STALE_AFTER,
};
use crate::text::{blank_texts_trim_to_nothing, is_blank, is_white_space, trimmed};

verus! {

/// Something that bears on presence: a heartbeat comes in, or the watchdog looks.
pub enum Happening {
    Heartbeat { peer: Seq<char>, body: Seq<char>, at: u128 },
    Look { at: u128 },
}

/// All there is to say of presence at some point: what is known of the peers, what the watchdog
/// saw when it last looked and when that was (or when it started), the time of the last
/// happening, and what was broadcast so far.
pub struct Presence {
    pub heartbeats: HeartbeatView,
    pub bob1_seen: bool,
    pub bob2_seen: bool,
    pub looked_at: u128,
    pub now: u128,
    pub events: Seq<EventView>,
}

impl Happening {
    /// When it happens.
    pub open spec fn time(self) -> u128 {
        match self {
            Happening::Heartbeat { at, .. } => at,
            Happening::Look { at } => at,
        }
    }
}

/// Where everything starts: no peer was heard of, and nothing was broadcast.
pub open spec fn at_startup(env: Map<Seq<char>, Seq<char>>, now: u128) -> Presence {
    Presence {
        heartbeats: heartbeats_from_env(env),
        bob1_seen: false,
        bob2_seen: false,
        looked_at: now,
        now,
        events: seq![],
    }
}

impl Presence {
    /// What comes of a happening: what `heartbeat_handler` does with a heartbeat, and what
    /// `Watchdog::tick` does when it looks.
    pub open spec fn follow(self, happening: Happening) -> Presence {
        match happening {
            Happening::Heartbeat { peer, body, at } => if self.heartbeats.refusal(peer, body) is Some {
                Presence { now: at, ..self }
            } else {
                Presence {
                    heartbeats: self.heartbeats.seen(peer, at),
                    now: at,
                    events: match arrival(peer, self.heartbeats.online(peer, at)) {
                        Some(event) => self.events.push(event),
                        None => self.events,
                    },
                    ..self
                }
            },
            Happening::Look { at } => {
                let bob1 = self.heartbeats.online("bob1"@, at);
                let bob2 = self.heartbeats.online("bob2"@, at);
                Presence {
                    bob1_seen: bob1,
                    bob2_seen: bob2,
                    looked_at: at,
                    now: at,
                    events: self.events + (departure("bob1"@, self.bob1_seen, bob1) + departure(
                        "bob2"@,
                        self.bob2_seen,
                        bob2,
                    )),
                    ..self
                }
            },
        }
    }

    /// The clock does not run backwards, and the watchdog looks again before a heartbeat can have
    /// gone stale since its last look.
    pub open spec fn timely(self, happening: Happening) -> bool {
        &&& self.now <= happening.time()
        &&& happening is Look ==> happening.time() - self.looked_at < HEARTBEAT_STALE_AFTER
    }
}

/// Presence after the happenings.
pub open spec fn presence_after(start: Presence, happenings: Seq<Happening>) -> Presence
    decreases happenings.len(),
{
    if happenings.len() == 0 {
        start
    } else {
        presence_after(start, happenings.drop_last()).follow(happenings.last())
    }
}

/// Each of the happenings is timely.
pub open spec fn all_timely(start: Presence, happenings: Seq<Happening>) -> bool
    decreases happenings.len(),
{
    happenings.len() == 0 || {
        &&& all_timely(start, happenings.drop_last())
        &&& presence_after(start, happenings.drop_last()).timely(happenings.last())
    }
}

/// What a dashboard shows of a peer that knew how things stood and has followed the stream since:
/// what the last presence event of that peer said, and what it knew where there was none.
pub open spec fn shown_since(known: bool, events: Seq<EventView>, peer: Seq<char>) -> bool
    decreases events.len(),
{
    if events.len() == 0 {
        known
    } else {
        match events.last() {
            EventView::Presence { peer: p, online } if p == peer => online,
            _ => shown_since(known, events.drop_last(), peer),
        }
    }
}

/// What a dashboard shows of a peer that has followed the stream from the start, when every peer
/// was offline.
pub open spec fn shown(events: Seq<EventView>, peer: Seq<char>) -> bool {
    shown_since(false, events, peer)
}

/// What is kept up between happenings. Since the watchdog's last look a peer is shown online if it
/// was online then or was heard of since; and if it was not heard of since, the watchdog saw what
/// there was to see.
spec fn kept_up(s: Presence, peer: Seq<char>, watched: bool) -> bool {
    &&& s.looked_at <= s.now
    &&& match s.heartbeats.peer(peer) {
        None => !watched && !shown(s.events, peer),
        Some(p) => {
            let heard = p.last_seen matches Some(t) && t >= s.looked_at;
            &&& p.last_seen matches Some(t) ==> t <= s.now
            &&& shown(s.events, peer) == (watched || heard)
            &&& !heard ==> watched == is_fresh(p.last_seen, s.looked_at)
        },
    }
}

proof fn lemma_shown_push(known: bool, events: Seq<EventView>, event: EventView, peer: Seq<char>)
    ensures
        shown_since(known, events.push(event), peer) == match event {
            EventView::Presence { peer: p, online } if p == peer => online,
            _ => shown_since(known, events, peer),
        },
{
    assert(events.push(event).drop_last() =~= events);
}

/// What a look adds to the stream changes what is shown of a peer to offline if the look found it
/// gone, and not at all otherwise.
proof fn lemma_shown_look(
    known: bool,
    events: Seq<EventView>,
    peer: Seq<char>,
    was1: bool,
    is1: bool,
    was2: bool,
    is2: bool,
)
    requires
        peer == "bob1"@ || peer == "bob2"@,
    ensures
        shown_since(known, events + (departure("bob1"@, was1, is1) + departure("bob2"@, was2, is2)), peer) == (
        shown_since(known, events, peer) && !(peer == "bob1"@ && was1 && !is1) && !(peer == "bob2"@ && was2
            && !is2)),
{
    reveal_strlit("bob1");
    reveal_strlit("bob2");
    assert("bob1"@[3] != "bob2"@[3]);
    let gone1 = EventView::Presence { peer: "bob1"@, online: false };
    let gone2 = EventView::Presence { peer: "bob2"@, online: false };
    let first = departure("bob1"@, was1, is1);
    let second = departure("bob2"@, was2, is2);
    lemma_shown_push(known, events, gone1, peer);
    lemma_shown_push(known, events, gone2, peer);
    lemma_shown_push(known, events.push(gone1), gone2, peer);
    if was1 && !is1 {
        if was2 && !is2 {
            assert(events + (first + second) =~= events.push(gone1).push(gone2));
        } else {
            assert(events + (first + second) =~= events.push(gone1));
        }
    } else {
        if was2 && !is2 {
            assert(events + (first + second) =~= events.push(gone2));
        } else {
            assert(events + (first + second) =~= events);
        }
    }
}

proof fn lemma_kept_up(env: Map<Seq<char>, Seq<char>>, now: u128, happenings: Seq<Happening>)
    requires
        all_timely(at_startup(env, now), happenings),
    ensures
        kept_up(
            presence_after(at_startup(env, now), happenings),
            "bob1"@,
            presence_after(at_startup(env, now), happenings).bob1_seen,
        ),
        kept_up(
            presence_after(at_startup(env, now), happenings),
            "bob2"@,
            presence_after(at_startup(env, now), happenings).bob2_seen,
        ),
    decreases happenings.len(),
{
    reveal_strlit("bob1");
    reveal_strlit("bob2");
    assert("bob1"@[3] != "bob2"@[3]);
    let start = at_startup(env, now);
    if happenings.len() > 0 {
        lemma_kept_up(env, now, happenings.drop_last());
        let s = presence_after(start, happenings.drop_last());
        match happenings.last() {
            Happening::Heartbeat { peer, body, at } => {
                if let Some(event) = arrival(peer, s.heartbeats.online(peer, at)) {
                    lemma_shown_push(false, s.events, event, "bob1"@);
                    lemma_shown_push(false, s.events, event, "bob2"@);
                }
            },
            Happening::Look { at } => {
                let bob1 = s.heartbeats.online("bob1"@, at);
                let bob2 = s.heartbeats.online("bob2"@, at);
                lemma_shown_look(false, s.events, "bob1"@, s.bob1_seen, bob1, s.bob2_seen, bob2);
                lemma_shown_look(false, s.events, "bob2"@, s.bob1_seen, bob1, s.bob2_seen, bob2);
            },
        }
    }
}

/// The stream corrects itself: right after the watchdog has looked, a dashboard that followed the
/// stream from the start shows every peer as it is, whatever heartbeats came in.
pub proof fn the_stream_corrects_itself(
    env: Map<Seq<char>, Seq<char>>,
    start: u128,
    happenings: Seq<Happening>,
    now: u128,
)
    requires
        all_timely(at_startup(env, start), happenings.push(Happening::Look { at: now })),
    ensures
        ({
            let s = presence_after(
                at_startup(env, start),
                happenings.push(Happening::Look { at: now }),
            );
            &&& shown(s.events, "bob1"@) == s.heartbeats.online("bob1"@, now)
            &&& shown(s.events, "bob2"@) == s.heartbeats.online("bob2"@, now)
        }),
{
    let all = happenings.push(Happening::Look { at: now });
    lemma_kept_up(env, start, all);
    assert(all.last() == Happening::Look { at: now });
}

/// A peer that is online is never shown offline, at no time between the looks either: its
/// heartbeat is announced at once.
pub proof fn arrivals_are_shown_at_once(
    env: Map<Seq<char>, Seq<char>>,
    start: u128,
    happenings: Seq<Happening>,
    now: u128,
)
    requires
        all_timely(at_startup(env, start), happenings),
        presence_after(at_startup(env, start), happenings).now <= now,
    ensures
        ({
            let s = presence_after(at_startup(env, start), happenings);
            &&& s.heartbeats.online("bob1"@, now) ==> shown(s.events, "bob1"@)
            &&& s.heartbeats.online("bob2"@, now) ==> shown(s.events, "bob2"@)
        }),
{
    lemma_kept_up(env, start, happenings);
}

/// Following a longer stretch of the stream is following its first part and then the rest.
proof fn lemma_shown_concat(
    known: bool,
    first: Seq<EventView>,
    second: Seq<EventView>,
    peer: Seq<char>,
)
    ensures
        shown_since(known, first + second, peer) == shown_since(
            shown_since(known, first, peer),
            second,
            peer,
        ),
    decreases second.len(),
{
    if second.len() == 0 {
        assert(first + second =~= first);
    } else {
        assert((first + second).drop_last() =~= first + second.drop_last());
        assert((first + second).last() == second.last());
        lemma_shown_concat(known, first, second.drop_last(), peer);
    }
}

/// Who knew of a peer being online shows it online wherever one who did not know does.
proof fn lemma_shown_monotone(events: Seq<EventView>, peer: Seq<char>)
    ensures
        shown_since(false, events, peer) ==> shown_since(true, events, peer),
    decreases events.len(),
{
    if events.len() > 0 {
        lemma_shown_monotone(events.drop_last(), peer);
    }
}

/// A dashboard that takes a snapshot at `t` and follows the stream from there never shows a peer
/// offline that is online; and the stream only ever grows.
proof fn lemma_snapshot(
    start: Presence,
    before: Seq<Happening>,
    t: u128,
    rest: Seq<Happening>,
    peer: Seq<char>,
)
    requires
        peer == "bob1"@ || peer == "bob2"@,
        all_timely(start, before + rest),
        presence_after(start, before).now <= t,
        rest.len() > 0 ==> t <= rest[0].time(),
    ensures
        ({
            let mid = presence_after(start, before);
            let end = presence_after(start, before + rest);
            let n = mid.events.len() as int;
            &&& n <= end.events.len()
            &&& end.events.take(n) == mid.events
            &&& if rest.len() == 0 {
                end == mid
            } else {
                end.now >= t && (end.heartbeats.online(peer, end.now) ==> shown_since(
                    mid.heartbeats.online(peer, t),
                    end.events.skip(n),
                    peer,
                ))
            }
        }),
    decreases rest.len(),
{
    let mid = presence_after(start, before);
    let n = mid.events.len() as int;
    let known = mid.heartbeats.online(peer, t);
    if rest.len() == 0 {
        assert(before + rest =~= before);
        assert(mid.events.take(n) =~= mid.events);
    } else {
        let happening = rest.last();
        assert((before + rest).drop_last() =~= before + rest.drop_last());
        assert((before + rest).last() == happening);
        lemma_snapshot(start, before, t, rest.drop_last(), peer);
        let s = presence_after(start, before + rest.drop_last());
        let end = s.follow(happening);
        let since = s.events.skip(n);
        assert(mid.events.skip(n) =~= Seq::<EventView>::empty());
        match happening {
            Happening::Heartbeat { peer: p, body, at } => {
                if let Some(event) = arrival(p, s.heartbeats.online(p, at)) {
                    assert(s.events.push(event).take(n) =~= s.events.take(n));
                    assert(s.events.push(event).skip(n) =~= since.push(event));
                    lemma_shown_push(known, since, event, peer);
                }
            },
            Happening::Look { at } => {
                let bob1 = s.heartbeats.online("bob1"@, at);
                let bob2 = s.heartbeats.online("bob2"@, at);
                let gone = departure("bob1"@, s.bob1_seen, bob1) + departure(
                    "bob2"@,
                    s.bob2_seen,
                    bob2,
                );
                assert((s.events + gone).take(n) =~= s.events.take(n));
                assert((s.events + gone).skip(n) =~= since + gone);
                lemma_shown_look(known, since, peer, s.bob1_seen, bob1, s.bob2_seen, bob2);
            },
        }
    }
}

proof fn lemma_late_dashboard(
    env: Map<Seq<char>, Seq<char>>,
    start: u128,
    before: Seq<Happening>,
    t: u128,
    rest: Seq<Happening>,
    now: u128,
    peer: Seq<char>,
)
    requires
        peer == "bob1"@ || peer == "bob2"@,
        all_timely(at_startup(env, start), before + rest.push(Happening::Look { at: now })),
        presence_after(at_startup(env, start), before).now <= t,
        t <= rest.push(Happening::Look { at: now })[0].time(),
    ensures
        ({
            let mid = presence_after(at_startup(env, start), before);
            let end = presence_after(
                at_startup(env, start),
                before + rest.push(Happening::Look { at: now }),
            );
            shown_since(
                mid.heartbeats.online(peer, t),
                end.events.skip(mid.events.len() as int),
                peer,
            ) == end.heartbeats.online(peer, now)
        }),
{
    let origin = at_startup(env, start);
    let look = Happening::Look { at: now };
    let mid = presence_after(origin, before);
    let all = before + rest.push(look);
    let end = presence_after(origin, all);
    let n = mid.events.len() as int;
    let since = end.events.skip(n);
    assert(all =~= (before + rest).push(look));
    lemma_snapshot(origin, before, t, rest.push(look), peer);
    the_stream_corrects_itself(env, start, before + rest, now);
    lemma_timely_so_far(origin, before, rest.push(look));
    arrivals_are_shown_at_once(env, start, before, t);
    assert(end.events =~= mid.events + since);
    lemma_shown_concat(false, mid.events, since, peer);
    lemma_shown_monotone(since, peer);
    assert(all.last() == look);
    assert(end.now == now);
}

/// The first part of timely happenings is timely.
proof fn lemma_timely_so_far(start: Presence, before: Seq<Happening>, rest: Seq<Happening>)
    requires
        all_timely(start, before + rest),
    ensures
        all_timely(start, before),
    decreases rest.len(),
{
    if rest.len() == 0 {
        assert(before + rest =~= before);
    } else {
        assert((before + rest).drop_last() =~= before + rest.drop_last());
        lemma_timely_so_far(start, before, rest.drop_last());
    }
}

/// A dashboard may be opened at any time: one that takes the status at `t` as a snapshot, and
/// follows the stream from there, shows every peer as it is right after the watchdog has looked.
pub proof fn late_dashboards_end_up_right(
    env: Map<Seq<char>, Seq<char>>,
    start: u128,
    before: Seq<Happening>,
    t: u128,
    rest: Seq<Happening>,
    now: u128,
)
    requires
        all_timely(at_startup(env, start), before + rest.push(Happening::Look { at: now })),
        presence_after(at_startup(env, start), before).now <= t,
        t <= rest.push(Happening::Look { at: now })[0].time(),
    ensures
        ({
            let mid = presence_after(at_startup(env, start), before);
            let end = presence_after(
                at_startup(env, start),
                before + rest.push(Happening::Look { at: now }),
            );
            let since = end.events.skip(mid.events.len() as int);
            &&& shown_since(mid.heartbeats.online("bob1"@, t), since, "bob1"@)
                == end.heartbeats.online("bob1"@, now)
            &&& shown_since(mid.heartbeats.online("bob2"@, t), since, "bob2"@)
                == end.heartbeats.online("bob2"@, now)
        }),
{
    lemma_late_dashboard(env, start, before, t, rest, now, "bob1"@);
    lemma_late_dashboard(env, start, before, t, rest, now, "bob2"@);
}

/// A heartbeat that was accepted makes its peer online for as long as it is fresh, and no longer.
pub proof fn heartbeats_last_until_stale(
    heartbeats: HeartbeatView,
    peer: Seq<char>,
    at: u128,
    now: u128,
)
    requires
        heartbeats.peer(peer) is Some,
    ensures
        heartbeats.seen(peer, at).online(peer, now) <==> now - at < HEARTBEAT_STALE_AFTER,
{
}

/// A peer goes offline by itself and does not come back without a heartbeat.
pub proof fn silence_only_leads_offline(
    heartbeats: HeartbeatView,
    peer: Seq<char>,
    earlier: u128,
    later: u128,
)
    requires
        earlier <= later,
        heartbeats.online(peer, later),
    ensures
        heartbeats.online(peer, earlier),
{
}

/// A heartbeat of one peer says nothing of the other.
pub proof fn heartbeats_are_the_peers_own(
    heartbeats: HeartbeatView,
    peer: Seq<char>,
    other: Seq<char>,
    at: u128,
)
    requires
        peer != other,
    ensures
        heartbeats.seen(peer, at).peer(other) == heartbeats.peer(other),
{
}

/// Nobody is let in without a secret: where every peer has a token, a heartbeat without a body, or
/// with nothing but white space in it, is always turned down.
pub proof fn blank_heartbeats_are_refused(
    heartbeats: HeartbeatView,
    peer: Seq<char>,
    body: Seq<char>,
)
    requires
        heartbeats.wf(),
        is_blank(body),
    ensures
        heartbeats.refusal(peer, body) is Some,
{
    blank_texts_trim_to_nothing(body);
}

/// The peer was heard of less than thirty-five seconds before `now`.
pub open spec fn heard_lately(peer: Option<HeartbeatPeerView>, now: u128) -> bool {
    peer matches Some(p) && p.last_seen matches Some(t) && now - t < 35_000_000_000
}

/// Each peer goes by its own name, and is online exactly if it was heard of lately. Nobody else is
/// ever online.
pub proof fn peers_are_online_if_heard_of_lately(
    heartbeats: HeartbeatView,
    name: Seq<char>,
    now: u128,
)
    ensures
        heartbeats.peer("bob1"@) == heartbeats.bob1,
        heartbeats.peer("bob2"@) == heartbeats.bob2,
        heartbeats.online("bob1"@, now) <==> heard_lately(heartbeats.bob1, now),
        heartbeats.online("bob2"@, now) <==> heard_lately(heartbeats.bob2, now),
        name != "bob1"@ && name != "bob2"@ ==> heartbeats.peer(name) is None && !heartbeats.online(
            name,
            now,
        ),
{
    reveal_strlit("bob1");
    reveal_strlit("bob2");
    assert("bob1"@[3] != "bob2"@[3]);
}

/// A heartbeat counts exactly if it comes from one of the two peers, that peer has a token, and
/// the body is the token, white space around it left out. What is wrong otherwise is told: no such
/// peer, or not its token.
pub proof fn heartbeats_count_by_their_token(
    heartbeats: HeartbeatView,
    name: Seq<char>,
    body: Seq<char>,
)
    ensures
        ({
            let known = (name == "bob1"@ && heartbeats.bob1 is Some) || (name == "bob2"@
                && heartbeats.bob2 is Some);
            let token = if name == "bob1"@ {
                heartbeats.bob1->0.token
            } else {
                heartbeats.bob2->0.token
            };
            &&& heartbeats.refusal(name, body) is None <==> known && trimmed(body) == token
            &&& heartbeats.refusal(name, body) matches Some(refusal) ==> if known {
                refusal is Unauthorized
            } else {
                refusal is UnknownPeer
            }
        }),
{
    reveal_strlit("bob1");
    reveal_strlit("bob2");
    assert("bob1"@[3] != "bob2"@[3]);
}

/// A peer's own token always lets it in, whatever white space is around it, and no other peer's
/// does.
pub proof fn tokens_let_their_peer_in(
    heartbeats: HeartbeatView,
    name: Seq<char>,
    before: Seq<char>,
    token: Seq<char>,
    after: Seq<char>,
)
    requires
        heartbeats.peer(name) is Some,
        forall|i: int| 0 <= i < before.len() ==> is_white_space(#[trigger] before[i]),
        forall|i: int| 0 <= i < after.len() ==> is_white_space(#[trigger] after[i]),
        token.len() > 0,
        !is_white_space(token[0]),
        !is_white_space(token[token.len() - 1]),
    ensures
        heartbeats.refusal(name, before + token + after) is None <==> token == heartbeats.peer(
            name,
        )->0.token,
{
    crate::text::trimming_cuts_off_what_is_around(before, token, after);
}

/// Hearing of a peer notes the time, keeps its token, and leaves the other peer alone.
pub proof fn hearing_of_a_peer_notes_the_time(
    heartbeats: HeartbeatView,
    name: Seq<char>,
    at: u128,
)
    ensures
        ({
            let next = heartbeats.seen(name, at);
            &&& next.bob1 is Some <==> heartbeats.bob1 is Some
            &&& next.bob2 is Some <==> heartbeats.bob2 is Some
            &&& heartbeats.bob1 is Some ==> next.bob1->0.token == heartbeats.bob1->0.token
            &&& heartbeats.bob2 is Some ==> next.bob2->0.token == heartbeats.bob2->0.token
            &&& heartbeats.bob1 is Some ==> next.bob1->0.last_seen == if name == "bob1"@ {
                Some(at)
            } else {
                heartbeats.bob1->0.last_seen
            }
            &&& heartbeats.bob2 is Some ==> next.bob2->0.last_seen == if name == "bob2"@ {
                Some(at)
            } else {
                heartbeats.bob2->0.last_seen
            }
        }),
{
    reveal_strlit("bob1");
    reveal_strlit("bob2");
    assert("bob1"@[3] != "bob2"@[3]);
}

/// An arrival is told once, of the peer that arrived, and a departure once, of the peer that left.
pub proof fn changes_are_told_of_the_peer_they_concern(
    peer: Seq<char>,
    was_online: bool,
    online: bool,
)
    ensures
        was_online ==> arrival(peer, was_online) is None,
        !was_online ==> arrival(peer, was_online) == Some(EventView::Presence { peer, online: true }),
        departure(peer, was_online, online).len() == if was_online && !online {
            1int
        } else {
            0int
        },
        was_online && !online ==> departure(peer, was_online, online)[0] == (EventView::Presence {
            peer,
            online: false,
        }),
{
}

} // verus!
