//! What the dashboard is told: the events of the stream, and how each is written.

use vstd::prelude::*;

use crate::json::{
    distinct_keys, entries_model, json_bool, json_model, json_number, json_object, json_text,
    json_to_string, string_entry, text_entry, JsonModel,
};

verus! {

/// One event of the dashboard's stream.
#[derive(Debug)]
pub enum Event {
    /// A round begins with the visitor's message.
    RoundStart { scenario: &'static str, round: u32, message: String },
    /// The initiator is about to dial the broker.
    InitiatorDialing { scenario: &'static str, broker: String },
    /// The initiator said which rung of the relay ladder carries the session.
    Transport { scenario: &'static str, transport: &'static str, line: String },
    /// The initiator said that the broker or the relay took part.
    ChannelConnected { scenario: &'static str, line: String },
    /// Anything else that the initiator said.
    InitiatorLog { scenario: &'static str, line: String },
    /// The peer's reply.
    ReplyReceived { scenario: &'static str, reply: String },
    /// The round failed.
    RoundError { scenario: &'static str, message: String },
    /// The round is over.
    RoundDone { scenario: &'static str, round: u32 },
    /// A peer came online or went offline.
    Presence { peer: String, online: bool },
}

/// The text behind an `Event`.
pub enum EventView {
    RoundStart { scenario: Seq<char>, round: u32, message: Seq<char> },
    InitiatorDialing { scenario: Seq<char>, broker: Seq<char> },
    Transport { scenario: Seq<char>, transport: Seq<char>, line: Seq<char> },
    ChannelConnected { scenario: Seq<char>, line: Seq<char> },
    InitiatorLog { scenario: Seq<char>, line: Seq<char> },
    ReplyReceived { scenario: Seq<char>, reply: Seq<char> },
    RoundError { scenario: Seq<char>, message: Seq<char> },
    RoundDone { scenario: Seq<char>, round: u32 },
    Presence { peer: Seq<char>, online: bool },
}

impl View for Event {
    type V = EventView;

    open spec fn view(&self) -> EventView {
        match self {
            Event::RoundStart { scenario, round, message } => EventView::RoundStart {
                scenario: scenario@,
                round: *round,
                message: message@,
            },
            Event::InitiatorDialing { scenario, broker } => EventView::InitiatorDialing {
                scenario: scenario@,
                broker: broker@,
            },
            Event::Transport { scenario, transport, line } => EventView::Transport {
                scenario: scenario@,
                transport: transport@,
                line: line@,
            },
            Event::ChannelConnected { scenario, line } => EventView::ChannelConnected {
                scenario: scenario@,
                line: line@,
            },
            Event::InitiatorLog { scenario, line } => EventView::InitiatorLog {
                scenario: scenario@,
                line: line@,
            },
            Event::ReplyReceived { scenario, reply } => EventView::ReplyReceived {
                scenario: scenario@,
                reply: reply@,
            },
            Event::RoundError { scenario, message } => EventView::RoundError {
                scenario: scenario@,
                message: message@,
            },
            Event::RoundDone { scenario, round } => EventView::RoundDone {
                scenario: scenario@,
                round: *round,
            },
            Event::Presence { peer, online } => EventView::Presence {
                peer: peer@,
                online: *online,
            },
        }
    }
}

/// The texts behind a list of events.
pub open spec fn event_views(events: Seq<Event>) -> Seq<EventView> {
    events.map_values(|e: Event| e@)
}

impl EventView {
    /// The entries of the JSON object that stands for the event.
    pub open spec fn entries(self) -> Seq<(Seq<char>, JsonModel)> {
        match self {
            EventView::RoundStart { scenario, round, message } => seq![
                text_entry("type"@, "round_start"@),
                text_entry("scenario"@, scenario),
                ("round"@, JsonModel::Integer(round as int)),
                text_entry("message"@, message),
            ],
            EventView::InitiatorDialing { scenario, broker } => seq![
                text_entry("type"@, "initiator_dialing"@),
                text_entry("scenario"@, scenario),
                text_entry("broker"@, broker),
            ],
            EventView::Transport { scenario, transport, line } => seq![
                text_entry("type"@, "transport"@),
                text_entry("scenario"@, scenario),
                text_entry("transport"@, transport),
                text_entry("line"@, line),
            ],
            EventView::ChannelConnected { scenario, line } => seq![
                text_entry("type"@, "channel_connected"@),
                text_entry("scenario"@, scenario),
                text_entry("line"@, line),
            ],
            EventView::InitiatorLog { scenario, line } => seq![
                text_entry("type"@, "initiator_log"@),
                text_entry("scenario"@, scenario),
                text_entry("line"@, line),
            ],
            EventView::ReplyReceived { scenario, reply } => seq![
                text_entry("type"@, "reply_received"@),
                text_entry("scenario"@, scenario),
                text_entry("reply"@, reply),
            ],
            EventView::RoundError { scenario, message } => seq![
                text_entry("type"@, "round_error"@),
                text_entry("scenario"@, scenario),
                text_entry("message"@, message),
            ],
            EventView::RoundDone { scenario, round } => seq![
                text_entry("type"@, "round_done"@),
                text_entry("scenario"@, scenario),
                ("round"@, JsonModel::Integer(round as int)),
            ],
            EventView::Presence { peer, online } => seq![
                text_entry("type"@, "presence"@),
                text_entry("peer"@, peer),
                ("online"@, JsonModel::Bool(online)),
            ],
        }
    }

    /// The JSON object that stands for the event.
    pub open spec fn json(self) -> JsonModel {
        JsonModel::Object(self.entries())
    }
}

proof fn lemma_event_keys_differ(event: EventView)
    ensures
        distinct_keys(event.entries()),
{
    reveal_strlit("type");
    reveal_strlit("scenario");
    reveal_strlit("round");
    reveal_strlit("message");
    reveal_strlit("broker");
    reveal_strlit("transport");
    reveal_strlit("line");
    reveal_strlit("reply");
    reveal_strlit("peer");
    reveal_strlit("online");
    assert("type"@.len() == 4 && "line"@.len() == 4 && "peer"@.len() == 4);
    assert("round"@.len() == 5 && "reply"@.len() == 5);
    assert("broker"@.len() == 6 && "online"@.len() == 6);
    assert("message"@.len() == 7 && "scenario"@.len() == 8 && "transport"@.len() == 9);
    assert("type"@[0] == 't' && "line"@[0] == 'l' && "peer"@[0] == 'p');
}

/// Two events with the same JSON object are the same event: everything an event says can be read
/// off its object.
pub proof fn json_tells_events_apart(a: EventView, b: EventView)
    requires
        a.json() == b.json(),
    ensures
        a == b,
{
    reveal_strlit("round_start");
    reveal_strlit("initiator_dialing");
    reveal_strlit("transport");
    reveal_strlit("channel_connected");
    reveal_strlit("initiator_log");
    reveal_strlit("reply_received");
    reveal_strlit("round_error");
    reveal_strlit("round_done");
    reveal_strlit("presence");
    let x = a.entries();
    let y = b.entries();
    assert(x[0] == y[0] && x[1] == y[1] && x[2] == y[2]);
    if x.len() == 4 {
        assert(x[3] == y[3]);
    }
    assert("round_start"@.len() == 11 && "round_error"@.len() == 11);
    assert("round_start"@[6] == 's' && "round_error"@[6] == 'e');
    assert("initiator_dialing"@.len() == 17 && "channel_connected"@.len() == 17);
    assert("initiator_dialing"@[0] == 'i' && "channel_connected"@[0] == 'c');
    assert("transport"@.len() == 9 && "presence"@.len() == 8);
    assert("initiator_log"@.len() == 13 && "reply_received"@.len() == 14);
    assert("round_done"@.len() == 10);
}

impl Event {
    /// The event as a JSON object.
    pub fn to_json(&self) -> (r: serde_json::Value)
        ensures
            json_model(r) == self@.json(),
    {
        let entries = match self {
            Event::RoundStart { scenario, round, message } => vec![
                string_entry("type", "round_start"),
                string_entry("scenario", scenario),
                ("round".to_owned(), json_number(*round)),
                string_entry("message", message),
            ],
            Event::InitiatorDialing { scenario, broker } => vec![
                string_entry("type", "initiator_dialing"),
                string_entry("scenario", scenario),
                string_entry("broker", broker),
            ],
            Event::Transport { scenario, transport, line } => vec![
                string_entry("type", "transport"),
                string_entry("scenario", scenario),
                string_entry("transport", transport),
                string_entry("line", line),
            ],
            Event::ChannelConnected { scenario, line } => vec![
                string_entry("type", "channel_connected"),
                string_entry("scenario", scenario),
                string_entry("line", line),
            ],
            Event::InitiatorLog { scenario, line } => vec![
                string_entry("type", "initiator_log"),
                string_entry("scenario", scenario),
                string_entry("line", line),
            ],
            Event::ReplyReceived { scenario, reply } => vec![
                string_entry("type", "reply_received"),
                string_entry("scenario", scenario),
                string_entry("reply", reply),
            ],
            Event::RoundError { scenario, message } => vec![
                string_entry("type", "round_error"),
                string_entry("scenario", scenario),
                string_entry("message", message),
            ],
            Event::RoundDone { scenario, round } => vec![
                string_entry("type", "round_done"),
                string_entry("scenario", scenario),
                ("round".to_owned(), json_number(*round)),
            ],
            Event::Presence { peer, online } => vec![
                string_entry("type", "presence"),
                string_entry("peer", peer),
                ("online".to_owned(), json_bool(*online)),
            ],
        };
        proof {
            assert(entries_model(entries@) =~= self@.entries());
            lemma_event_keys_differ(self@);
        }
        json_object(entries)
    }

    /// The event as it goes over the wire: the compact text of its JSON object, on one line.
    pub fn text(&self) -> (r: String)
        ensures
            r@ == json_text(self@.json()),
            forall|i: int| 0 <= i < r@.len() ==> #[trigger] r@[i] >= '\u{20}',
    {
        json_to_string(&self.to_json())
    }
}

/// The object has an entry with the key and the text.
pub open spec fn tells(event: EventView, key: Seq<char>, text: Seq<char>) -> bool {
    event.entries().contains((key, JsonModel::Text(text)))
}

/// Every event says what it is and all that it carries, whole, each under its own key, and nothing
/// more.
pub proof fn events_tell_all_they_carry(event: EventView)
    ensures
        event.json() == JsonModel::Object(event.entries()),
        distinct_keys(event.entries()),
        match event {
            EventView::RoundStart { scenario, round, message } => {
                &&& event.entries().len() == 4
                &&& tells(event, "type"@, "round_start"@)
                &&& tells(event, "scenario"@, scenario)
                &&& event.entries().contains(("round"@, JsonModel::Integer(round as int)))
                &&& tells(event, "message"@, message)
            },
            EventView::InitiatorDialing { scenario, broker } => {
                &&& event.entries().len() == 3
                &&& tells(event, "type"@, "initiator_dialing"@)
                &&& tells(event, "scenario"@, scenario)
                &&& tells(event, "broker"@, broker)
            },
            EventView::Transport { scenario, transport, line } => {
                &&& event.entries().len() == 4
                &&& tells(event, "type"@, "transport"@)
                &&& tells(event, "scenario"@, scenario)
                &&& tells(event, "transport"@, transport)
                &&& tells(event, "line"@, line)
            },
            EventView::ChannelConnected { scenario, line } => {
                &&& event.entries().len() == 3
                &&& tells(event, "type"@, "channel_connected"@)
                &&& tells(event, "scenario"@, scenario)
                &&& tells(event, "line"@, line)
            },
            EventView::InitiatorLog { scenario, line } => {
                &&& event.entries().len() == 3
                &&& tells(event, "type"@, "initiator_log"@)
                &&& tells(event, "scenario"@, scenario)
                &&& tells(event, "line"@, line)
            },
            EventView::ReplyReceived { scenario, reply } => {
                &&& event.entries().len() == 3
                &&& tells(event, "type"@, "reply_received"@)
                &&& tells(event, "scenario"@, scenario)
                &&& tells(event, "reply"@, reply)
            },
            EventView::RoundError { scenario, message } => {
                &&& event.entries().len() == 3
                &&& tells(event, "type"@, "round_error"@)
                &&& tells(event, "scenario"@, scenario)
                &&& tells(event, "message"@, message)
            },
            EventView::RoundDone { scenario, round } => {
                &&& event.entries().len() == 3
                &&& tells(event, "type"@, "round_done"@)
                &&& tells(event, "scenario"@, scenario)
                &&& event.entries().contains(("round"@, JsonModel::Integer(round as int)))
            },
            EventView::Presence { peer, online } => {
                &&& event.entries().len() == 3
                &&& tells(event, "type"@, "presence"@)
                &&& tells(event, "peer"@, peer)
                &&& event.entries().contains(("online"@, JsonModel::Bool(online)))
            },
        },
{
    lemma_event_keys_differ(event);
    let e = event.entries();
    assert(e.contains(e[0]) && e.contains(e[1]) && e.contains(e[2]));
    if e.len() == 4 {
        assert(e.contains(e[3]));
    }
}

} // verus!
