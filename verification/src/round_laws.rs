//! What holds of a round as a whole, whatever the initiator does.

use vstd::prelude::*;

use crate::event::EventView;
use crate::round::{
    announced, announcement, outcome, stderr_event, DialView, ExitView, InputView, RoundView,
    Stage, SERVICE,
};
use crate::text::{has_text, is_blank, is_white_space};

verus! {

/// The round `start` after the inputs.
pub open spec fn after(start: RoundView, inputs: Seq<InputView>) -> RoundView
    decreases inputs.len(),
{
    if inputs.len() == 0 {
        start
    } else {
        after(start, inputs.drop_last()).next(inputs.last())
    }
}

/// All that the round `start` says in the course of the inputs.
pub open spec fn told(start: RoundView, inputs: Seq<InputView>) -> Seq<EventView>
    decreases inputs.len(),
{
    if inputs.len() == 0 {
        seq![]
    } else {
        told(start, inputs.drop_last()) + after(start, inputs.drop_last()).says(inputs.last())
    }
}

/// The event passes on something that the running initiator said.
pub open spec fn is_progress(event: EventView) -> bool {
    event is Transport || event is ChannelConnected || event is InitiatorLog
}

/// The event says what a round came to.
pub open spec fn is_outcome(event: EventView) -> bool {
    event is ReplyReceived || event is RoundError
}

/// Every one of the events passes on something that the running initiator said.
pub open spec fn all_progress(events: Seq<EventView>) -> bool {
    forall|i: int| 0 <= i < events.len() ==> is_progress(#[trigger] events[i])
}

/// The scenario that an event of a round names.
pub open spec fn scenario_of(event: EventView) -> Option<Seq<char>> {
    match event {
        EventView::RoundStart { scenario, .. } => Some(scenario),
        EventView::InitiatorDialing { scenario, .. } => Some(scenario),
        EventView::Transport { scenario, .. } => Some(scenario),
        EventView::ChannelConnected { scenario, .. } => Some(scenario),
        EventView::InitiatorLog { scenario, .. } => Some(scenario),
        EventView::ReplyReceived { scenario, .. } => Some(scenario),
        EventView::RoundError { scenario, .. } => Some(scenario),
        EventView::RoundDone { scenario, .. } => Some(scenario),
        EventView::Presence { .. } => None,
    }
}

/// What a round at a given stage can have said since it was announced.
pub open spec fn well_told(round: RoundView, events: Seq<EventView>) -> bool {
    match round.stage {
        Stage::Dialing => events.len() == 0,
        Stage::Running => all_progress(events),
        Stage::Over => {
            ||| events.len() == 1 && events[0] is RoundError
            ||| {
                &&& events.len() >= 2
                &&& all_progress(events.take(events.len() - 2))
                &&& is_outcome(events[events.len() - 2])
                &&& events.last() == EventView::RoundDone {
                    scenario: round.scenario,
                    round: round.round,
                }
            }
        },
    }
}

/// Whatever happens, and in whatever order: while the initiator runs a round says nothing but what
/// the initiator said, and once it is over it has said exactly one outcome. That outcome is
/// followed by `RoundDone` and by nothing else, or it is the error of a dial that never came about
/// and stands alone.
pub proof fn rounds_have_one_outcome(scenario: Seq<char>, round: u32, inputs: Seq<InputView>)
    ensures
        well_told(
            after(announced(scenario, round), inputs),
            told(announced(scenario, round), inputs),
        ),
        after(announced(scenario, round), inputs).scenario == scenario,
        after(announced(scenario, round), inputs).round == round,
    decreases inputs.len(),
{
    let start = announced(scenario, round);
    if inputs.len() > 0 {
        let before = inputs.drop_last();
        rounds_have_one_outcome(scenario, round, before);
        let events = told(start, before);
        let said = after(start, before).says(inputs.last());
        if said.len() == 0 {
            assert(events + said =~= events);
        } else if said.len() == 2 {
            assert((events + said).take((events + said).len() - 2) =~= events);
        }
    }
}

/// Once a round is over, no input changes it or makes it say anything more.
pub proof fn over_is_over(round: RoundView, inputs: Seq<InputView>)
    requires
        round.stage == Stage::Over,
    ensures
        after(round, inputs) == round,
        told(round, inputs) == Seq::<EventView>::empty(),
    decreases inputs.len(),
{
    if inputs.len() > 0 {
        over_is_over(round, inputs.drop_last());
        assert(told(round, inputs) =~= Seq::<EventView>::empty());
    }
}

/// Every event of a round names the scenario of the round.
pub proof fn rounds_keep_to_their_scenario(
    params: DialView,
    round: u32,
    message: Seq<char>,
    inputs: Seq<InputView>,
)
    ensures
        ({
            let events = announcement(params, round, message) + told(
                announced(params.scenario, round),
                inputs,
            );
            forall|i: int|
                0 <= i < events.len() ==> scenario_of(#[trigger] events[i]) == Some(params.scenario)
        }),
    decreases inputs.len(),
{
    let start = announced(params.scenario, round);
    let head = announcement(params, round, message);
    if inputs.len() > 0 {
        let before = inputs.drop_last();
        rounds_keep_to_their_scenario(params, round, message, before);
        rounds_have_one_outcome(params.scenario, round, before);
        let events = head + told(start, before);
        let said = after(start, before).says(inputs.last());
        assert(head + told(start, inputs) =~= events + said);
    }
}

/// The input is a line that the initiator printed.
pub open spec fn is_output(input: InputView) -> bool {
    input is Stderr || input is Stdout
}

/// The lines, as what they tell the dashboard: one event for each line on standard error.
pub open spec fn stderr_events(scenario: Seq<char>, lines: Seq<InputView>) -> Seq<EventView>
    decreases lines.len(),
{
    if lines.len() == 0 {
        seq![]
    } else {
        let earlier = stderr_events(scenario, lines.drop_last());
        match lines.last() {
            InputView::Stderr(line) => earlier.push(stderr_event(scenario, line)),
            _ => earlier,
        }
    }
}

/// The last line on standard output that is not blank.
pub open spec fn reply_line(lines: Seq<InputView>) -> Option<Seq<char>>
    decreases lines.len(),
{
    if lines.len() == 0 {
        None
    } else {
        match lines.last() {
            InputView::Stdout(line) if !is_blank(line) => Some(line),
            _ => reply_line(lines.drop_last()),
        }
    }
}

/// While the initiator prints, the round passes on its status lines in order and remembers the
/// last line of its output that is not blank.
proof fn lemma_running(scenario: Seq<char>, round: u32, lines: Seq<InputView>)
    requires
        forall|i: int| 0 <= i < lines.len() ==> is_output(#[trigger] lines[i]),
    ensures
        ({
            let inputs = seq![InputView::Spawned] + lines;
            &&& told(announced(scenario, round), inputs) == stderr_events(scenario, lines)
            &&& after(announced(scenario, round), inputs) == RoundView {
                scenario,
                round,
                stage: Stage::Running,
                reply: reply_line(lines),
            }
        }),
    decreases lines.len(),
{
    let start = announced(scenario, round);
    let inputs = seq![InputView::Spawned] + lines;
    if lines.len() == 0 {
        assert(inputs =~= seq![InputView::Spawned]);
        assert(inputs.drop_last() =~= Seq::<InputView>::empty());
        assert(told(start, inputs.drop_last()) =~= seq![]);
        assert(after(start, inputs.drop_last()) == start);
        assert(told(start, inputs) =~= seq![]);
    } else {
        assert(inputs.drop_last() =~= seq![InputView::Spawned] + lines.drop_last());
        lemma_running(scenario, round, lines.drop_last());
        assert(is_output(lines[lines.len() - 1]));
        assert(told(start, inputs) =~= stderr_events(scenario, lines));
    }
}

/// The whole story of a round that was dialled: the announcement, an event for each status line in
/// the order of the lines, the outcome, `RoundDone`. The reply is the last line of output that is
/// not blank, and it is passed on only where the initiator exited with success.
pub proof fn the_story_of_a_round(
    params: DialView,
    round: u32,
    message: Seq<char>,
    lines: Seq<InputView>,
    exit: ExitView,
)
    requires
        forall|i: int| 0 <= i < lines.len() ==> is_output(#[trigger] lines[i]),
    ensures
        ({
            let scenario = params.scenario;
            let inputs = (seq![InputView::Spawned] + lines).push(InputView::Exited(exit));
            &&& after(announced(scenario, round), inputs).stage == Stage::Over
            &&& announcement(params, round, message) + told(announced(scenario, round), inputs)
                == seq![
                EventView::RoundStart { scenario, round, message },
                EventView::InitiatorDialing { scenario, broker: params.broker_addr },
            ] + stderr_events(scenario, lines) + seq![
                outcome(scenario, reply_line(lines), exit),
                EventView::RoundDone { scenario, round },
            ]
        }),
{
    let scenario = params.scenario;
    let start = announced(scenario, round);
    let running = seq![InputView::Spawned] + lines;
    let inputs = running.push(InputView::Exited(exit));
    lemma_running(scenario, round, lines);
    assert(inputs.drop_last() =~= running);
    assert(announcement(params, round, message) + told(start, inputs) =~= seq![
        EventView::RoundStart { scenario, round, message },
        EventView::InitiatorDialing { scenario, broker: params.broker_addr },
    ] + stderr_events(scenario, lines) + seq![
        outcome(scenario, reply_line(lines), exit),
        EventView::RoundDone { scenario, round },
    ]);
}

/// The whole story of a round whose initiator could not be spawned: the announcement and the
/// error.
pub proof fn the_story_of_a_failed_dial(
    params: DialView,
    round: u32,
    message: Seq<char>,
    error: Seq<char>,
)
    ensures
        ({
            let scenario = params.scenario;
            let inputs = seq![InputView::SpawnFailed(error)];
            &&& after(announced(scenario, round), inputs).stage == Stage::Over
            &&& announcement(params, round, message) + told(announced(scenario, round), inputs)
                == seq![
                EventView::RoundStart { scenario, round, message },
                EventView::InitiatorDialing { scenario, broker: params.broker_addr },
                EventView::RoundError { scenario, message: "spawning the dial: "@ + error },
            ]
        }),
{
    let start = announced(params.scenario, round);
    let inputs = seq![InputView::SpawnFailed(error)];
    assert(inputs.drop_last() =~= Seq::<InputView>::empty());
    assert(after(start, inputs.drop_last()) == start);
    assert(told(start, inputs.drop_last()) =~= seq![]);
    assert(announcement(params, round, message) + told(start, inputs) =~= seq![
        EventView::RoundStart { scenario: params.scenario, round, message },
        EventView::InitiatorDialing { scenario: params.scenario, broker: params.broker_addr },
        EventView::RoundError {
            scenario: params.scenario,
            message: "spawning the dial: "@ + error,
        },
    ]);
}

/// The reply line is one that the initiator printed, it is not blank, and there is one as soon as
/// any line of output is not blank.
pub proof fn reply_lines_are_printed(lines: Seq<InputView>)
    ensures
        reply_line(lines) matches Some(line) ==> lines.contains(InputView::Stdout(line))
            && !is_blank(line),
        reply_line(lines) is None ==> forall|line: Seq<char>| #[trigger]
            lines.contains(InputView::Stdout(line)) ==> is_blank(line),
    decreases lines.len(),
{
    if lines.len() > 0 {
        let earlier = lines.drop_last();
        reply_lines_are_printed(earlier);
        assert(lines =~= earlier.push(lines.last()));
        assert(lines[lines.len() - 1] == lines.last());
        if let Some(line) = reply_line(earlier) {
            let i = choose|i: int|
                0 <= i < earlier.len() && earlier[i] == InputView::Stdout(line);
            assert(lines[i] == InputView::Stdout(line));
        }
        if reply_line(lines) is None {
            assert forall|line: Seq<char>| #[trigger]
                lines.contains(InputView::Stdout(line)) implies is_blank(line) by {
                let i = choose|i: int| 0 <= i < lines.len() && lines[i] == InputView::Stdout(line);
                if i < earlier.len() {
                    assert(earlier[i] == InputView::Stdout(line));
                    assert(earlier.contains(InputView::Stdout(line)));
                }
            }
        }
    }
}

/// A dial sets no variable twice, so that each has the value it is given here.
pub proof fn dials_set_each_variable_once(params: DialView)
    ensures
        forall|i: int, j: int|
            0 <= i < j < params.environment().len() ==> (#[trigger] params.environment()[i]).0 != (
            #[trigger] params.environment()[j]).0,
{
    reveal_strlit("CT_CHANNEL_ROLE");
    reveal_strlit("CT_CHANNEL_BROKER");
    reveal_strlit("CT_CHANNEL_RELAY");
    reveal_strlit("CT_CHANNEL_RELAY_ONLY");
    reveal_strlit("CT_CHANNEL_HOLDER_KEY");
    reveal_strlit("CT_CHANNEL_NOISE_KEY");
    reveal_strlit("CT_CHANNEL_GRANT");
    reveal_strlit("CT_CHANNEL_CALL_SERVICE");
    reveal_strlit("CT_CHANNEL_FRONT_DOOR");
    reveal_strlit("CT_CHANNEL_FRONT_DOOR_CERT");
    reveal_strlit("CT_CHANNEL_DIRECT_UPGRADE");
    assert("CT_CHANNEL_ROLE"@.len() == 15 && "CT_CHANNEL_BROKER"@.len() == 17);
    assert("CT_CHANNEL_RELAY"@.len() == 16 && "CT_CHANNEL_GRANT"@.len() == 16);
    assert("CT_CHANNEL_RELAY"@[11] == 'R' && "CT_CHANNEL_GRANT"@[11] == 'G');
    assert("CT_CHANNEL_RELAY_ONLY"@.len() == 21 && "CT_CHANNEL_HOLDER_KEY"@.len() == 21);
    assert("CT_CHANNEL_FRONT_DOOR"@.len() == 21);
    assert("CT_CHANNEL_RELAY_ONLY"@[11] == 'R' && "CT_CHANNEL_HOLDER_KEY"@[11] == 'H');
    assert("CT_CHANNEL_FRONT_DOOR"@[11] == 'F');
    assert("CT_CHANNEL_NOISE_KEY"@.len() == 20 && "CT_CHANNEL_CALL_SERVICE"@.len() == 23);
    assert("CT_CHANNEL_FRONT_DOOR_CERT"@.len() == 26);
    assert("CT_CHANNEL_DIRECT_UPGRADE"@.len() == 25);
}

/// Every dial stays behind the relay and calls the one service, whoever dials whom.
pub proof fn every_dial_is_relay_only(params: DialView)
    ensures
        params.environment().contains(("CT_CHANNEL_RELAY_ONLY"@, "1"@)),
        params.environment().contains(("CT_CHANNEL_ROLE"@, "initiate"@)),
        params.environment().contains(("CT_CHANNEL_CALL_SERVICE"@, SERVICE@)),
{
    assert(params.environment()[0] == ("CT_CHANNEL_ROLE"@, "initiate"@));
    assert(params.environment()[3] == ("CT_CHANNEL_RELAY_ONLY"@, "1"@));
    assert(params.environment()[7] == ("CT_CHANNEL_CALL_SERVICE"@, SERVICE@));
}

/// The event passes the line on, whole, as what it is: the rung that carries the session, a sign
/// of the broker or the relay, or anything else.
pub open spec fn passes_on(event: EventView, scenario: Seq<char>, line: Seq<char>) -> bool {
    let names_a_rung = "ct-agent channel: relay leg via"@.is_prefix_of(line) && (has_text(
        line,
        "front door"@,
    ) || has_text(line, "QUIC"@));
    let connects = "ct-agent channel:"@.is_prefix_of(line) && (has_text(line, "relay"@) || has_text(
        line,
        "brokered"@,
    ));
    match event {
        EventView::Transport { scenario: s, transport, line: l } => {
            &&& s == scenario && l == line
            &&& names_a_rung
            &&& transport == if has_text(line, "front door"@) {
                "tcp_443"@
            } else {
                "quic"@
            }
        },
        EventView::ChannelConnected { scenario: s, line: l } => {
            &&& s == scenario && l == line
            &&& !names_a_rung && connects
        },
        EventView::InitiatorLog { scenario: s, line: l } => {
            &&& s == scenario && l == line
            &&& !names_a_rung && !connects
        },
        _ => false,
    }
}

/// The lines on standard error, in order.
pub open spec fn stderr_lines(lines: Seq<InputView>) -> Seq<InputView> {
    lines.filter(|input: InputView| input is Stderr)
}

proof fn lemma_stderr_events(scenario: Seq<char>, lines: Seq<InputView>)
    ensures
        stderr_events(scenario, lines).len() == stderr_lines(lines).len(),
        forall|i: int|
            0 <= i < stderr_lines(lines).len() ==> passes_on(
                #[trigger] stderr_events(scenario, lines)[i],
                scenario,
                stderr_lines(lines)[i]->Stderr_0,
            ),
    decreases lines.len(),
{
    reveal(Seq::filter);
    if lines.len() > 0 {
        lemma_stderr_events(scenario, lines.drop_last());
        if let InputView::Stderr(line) = lines.last() {
            crate::log_line::rungs_are_told_by_their_words(line);
            crate::log_line::connections_are_told_by_their_words(line);
            reveal_strlit("quic");
            reveal_strlit("tcp_443");
            assert("quic"@.len() == 4 && "tcp_443"@.len() == 7);
            assert(passes_on(stderr_event(scenario, line), scenario, line));
        }
    }
}

/// The events between the announcement and the outcome pass on what the initiator said on its
/// standard error and nothing else: one event for each line, in order, with the whole line.
pub proof fn status_lines_are_passed_on_in_order(
    scenario: Seq<char>,
    round: u32,
    lines: Seq<InputView>,
    exit: ExitView,
)
    requires
        forall|i: int| 0 <= i < lines.len() ==> is_output(#[trigger] lines[i]),
    ensures
        ({
            let start = RoundView { scenario, round, stage: Stage::Dialing, reply: None };
            let inputs = (seq![InputView::Spawned] + lines).push(InputView::Exited(exit));
            let events = told(start, inputs);
            &&& events.len() == stderr_lines(lines).len() + 2
            &&& forall|i: int|
                0 <= i < stderr_lines(lines).len() ==> passes_on(
                    #[trigger] events[i],
                    scenario,
                    stderr_lines(lines)[i]->Stderr_0,
                )
            &&& events[events.len() - 1] == EventView::RoundDone { scenario, round }
        }),
{
    let inputs = (seq![InputView::Spawned] + lines).push(InputView::Exited(exit));
    lemma_running(scenario, round, lines);
    lemma_stderr_events(scenario, lines);
    assert(inputs.drop_last() =~= seq![InputView::Spawned] + lines);
    let events = told(announced(scenario, round), inputs);
    assert forall|i: int| 0 <= i < stderr_lines(lines).len() implies passes_on(
        #[trigger] events[i],
        scenario,
        stderr_lines(lines)[i]->Stderr_0,
    ) by {
        assert(events[i] == stderr_events(scenario, lines)[i]);
    }
}

/// The line at `k` is the last on standard output that shows anything.
pub open spec fn is_last_word(lines: Seq<InputView>, k: int) -> bool {
    &&& 0 <= k < lines.len()
    &&& lines[k] is Stdout
    &&& exists|i: int|
        0 <= i < lines[k]->Stdout_0.len() && !is_white_space(#[trigger] lines[k]->Stdout_0[i])
    &&& forall|j: int, i: int|
        k < j < lines.len() && lines[j] is Stdout && 0 <= i < lines[j]->Stdout_0.len()
            ==> is_white_space(#[trigger] lines[j]->Stdout_0[i])
}

proof fn lemma_last_word(lines: Seq<InputView>, k: int)
    requires
        is_last_word(lines, k),
    ensures
        reply_line(lines) == Some(lines[k]->Stdout_0),
    decreases lines.len(),
{
    crate::text::blank_texts_show_nothing(lines[k]->Stdout_0);
    if k < lines.len() - 1 {
        let last = lines.len() - 1;
        let earlier = lines.drop_last();
        if lines[last] is Stdout {
            let line = lines[last]->Stdout_0;
            assert forall|i: int| 0 <= i < line.len() implies is_white_space(#[trigger] line[i]) by {
                assert(is_white_space(lines[last]->Stdout_0[i]));
            }
            assert(is_blank(line));
        }
        assert(earlier[k] == lines[k]);
        assert forall|j: int, i: int|
            k < j < earlier.len() && earlier[j] is Stdout && 0 <= i < earlier[j]->Stdout_0.len()
            implies is_white_space(#[trigger] earlier[j]->Stdout_0[i]) by {
            assert(earlier[j] == lines[j]);
            assert(is_white_space(lines[j]->Stdout_0[i]));
        }
        lemma_last_word(earlier, k);
    }
}

/// The reply gets through whole: where the initiator exits with success, the last line of its
/// output that shows anything is the reply, character for character, however long it is and
/// whatever the scenario, and the round is then done.
pub proof fn replies_get_through_whole(
    scenario: Seq<char>,
    round: u32,
    lines: Seq<InputView>,
    k: int,
)
    requires
        forall|i: int| 0 <= i < lines.len() ==> is_output(#[trigger] lines[i]),
        is_last_word(lines, k),
    ensures
        ({
            let start = RoundView { scenario, round, stage: Stage::Dialing, reply: None };
            let inputs = (seq![InputView::Spawned] + lines).push(
                InputView::Exited(ExitView::Success),
            );
            let events = told(start, inputs);
            &&& events.len() >= 2
            &&& events[events.len() - 2] == EventView::ReplyReceived {
                scenario,
                reply: lines[k]->Stdout_0,
            }
            &&& events[events.len() - 1] == EventView::RoundDone { scenario, round }
        }),
{
    let inputs = (seq![InputView::Spawned] + lines).push(InputView::Exited(ExitView::Success));
    lemma_running(scenario, round, lines);
    lemma_last_word(lines, k);
    assert(inputs.drop_last() =~= seq![InputView::Spawned] + lines);
}

/// A success without a word is an error, and it says so.
pub proof fn silent_successes_are_errors(scenario: Seq<char>, round: u32, lines: Seq<InputView>)
    requires
        forall|i: int| 0 <= i < lines.len() ==> is_output(#[trigger] lines[i]),
        forall|j: int, i: int|
            0 <= j < lines.len() && lines[j] is Stdout && 0 <= i < lines[j]->Stdout_0.len()
                ==> is_white_space(#[trigger] lines[j]->Stdout_0[i]),
    ensures
        ({
            let start = RoundView { scenario, round, stage: Stage::Dialing, reply: None };
            let inputs = (seq![InputView::Spawned] + lines).push(
                InputView::Exited(ExitView::Success),
            );
            let events = told(start, inputs);
            &&& events.len() >= 2
            &&& events[events.len() - 2] == EventView::RoundError {
                scenario,
                message: "the peer exited 0 but printed no reply line"@,
            }
            &&& events[events.len() - 1] == EventView::RoundDone { scenario, round }
        }),
{
    let inputs = (seq![InputView::Spawned] + lines).push(InputView::Exited(ExitView::Success));
    lemma_running(scenario, round, lines);
    reply_lines_are_printed(lines);
    if let Some(line) = reply_line(lines) {
        let j = choose|j: int| 0 <= j < lines.len() && lines[j] == InputView::Stdout(line);
        assert forall|i: int| 0 <= i < line.len() implies is_white_space(#[trigger] line[i]) by {
            assert(is_white_space(lines[j]->Stdout_0[i]));
        }
        assert(is_blank(line));
    }
    assert(inputs.drop_last() =~= seq![InputView::Spawned] + lines);
}

/// Whatever was printed, a round whose initiator does not succeed is an error that says how it
/// ended, with the status or the error in full.
pub proof fn failures_say_how_it_ended(
    scenario: Seq<char>,
    round: u32,
    lines: Seq<InputView>,
    exit: ExitView,
)
    requires
        forall|i: int| 0 <= i < lines.len() ==> is_output(#[trigger] lines[i]),
        !(exit is Success),
    ensures
        ({
            let start = RoundView { scenario, round, stage: Stage::Dialing, reply: None };
            let inputs = (seq![InputView::Spawned] + lines).push(InputView::Exited(exit));
            let events = told(start, inputs);
            &&& events.len() >= 2
            &&& events[events.len() - 2] == EventView::RoundError {
                scenario,
                message: match exit {
                    ExitView::Failure(status) => "the peer exited with "@ + status,
                    ExitView::WaitFailed(error) => "waiting on the peer: "@ + error,
                    _ => "timed out waiting for a reply through the real edge"@,
                },
            }
            &&& events[events.len() - 1] == EventView::RoundDone { scenario, round }
        }),
{
    let inputs = (seq![InputView::Spawned] + lines).push(InputView::Exited(exit));
    lemma_running(scenario, round, lines);
    assert(inputs.drop_last() =~= seq![InputView::Spawned] + lines);
}

/// A round is announced with its own scenario, number, message and broker, and has said and heard
/// nothing else by then.
pub proof fn announcements_say_what_begins(params: DialView, round: u32, message: Seq<char>)
    ensures
        announcement(params, round, message).len() == 2,
        announcement(params, round, message)[0] == (EventView::RoundStart {
            scenario: params.scenario,
            round,
            message,
        }),
        announcement(params, round, message)[1] == (EventView::InitiatorDialing {
            scenario: params.scenario,
            broker: params.broker_addr,
        }),
        announced(params.scenario, round) == (RoundView {
            scenario: params.scenario,
            round,
            stage: Stage::Dialing,
            reply: None,
        }),
{
}

/// Only a running initiator that did not finish in time is killed.
pub proof fn only_timeouts_kill(round: RoundView, input: InputView)
    ensures
        round.kills(input) <==> round.stage is Running && (input matches InputView::Exited(exit)
            && exit is TimedOut),
{
}

/// The input belongs to the stage: a dial is spawned or fails to be, and a running initiator
/// prints or ends.
pub open spec fn in_turn(stage: Stage, input: InputView) -> bool {
    match stage {
        Stage::Dialing => input is Spawned || input is SpawnFailed,
        Stage::Running => input is Stderr || input is Stdout || input is Exited,
        Stage::Over => false,
    }
}

/// What comes out of turn changes nothing and is passed over in silence.
pub proof fn inputs_out_of_turn_change_nothing(round: RoundView, input: InputView)
    requires
        !in_turn(round.stage, input),
    ensures
        round.next(input) == round,
        round.says(input).len() == 0,
        !round.kills(input),
{
}

/// An input moves a round on as it should, and a round never becomes another: its scenario and its
/// number stay.
pub proof fn inputs_in_turn_move_a_round_on(round: RoundView, input: InputView)
    requires
        in_turn(round.stage, input),
    ensures
        round.next(input).scenario == round.scenario,
        round.next(input).round == round.round,
        round.next(input).stage == match input {
            InputView::SpawnFailed(_) => Stage::Over,
            InputView::Exited(_) => Stage::Over,
            _ => Stage::Running,
        },
        round.says(input).len() == match input {
            InputView::Spawned => 0int,
            InputView::Stdout(_) => 0int,
            InputView::Exited(_) => 2int,
            _ => 1int,
        },
        !(input is Stdout) ==> round.next(input).reply == round.reply,
        input matches InputView::Stdout(line) ==> round.next(input).reply == if exists|i: int|
            0 <= i < line.len() && !is_white_space(#[trigger] line[i]) {
            Some(line)
        } else {
            round.reply
        },
{
    if let InputView::Stdout(line) = input {
        crate::text::blank_texts_show_nothing(line);
    }
}

/// Every part of the identity and of the edge reaches the initiator in its own variable, whole.
pub proof fn dials_hand_everything_over(params: DialView)
    ensures
        params.environment().len() == 11,
        params.environment().contains(("CT_CHANNEL_ROLE"@, "initiate"@)),
        params.environment().contains(("CT_CHANNEL_BROKER"@, params.broker_addr)),
        params.environment().contains(("CT_CHANNEL_RELAY"@, params.relay_addr)),
        params.environment().contains(("CT_CHANNEL_RELAY_ONLY"@, "1"@)),
        params.environment().contains(("CT_CHANNEL_HOLDER_KEY"@, params.holder_key_hex)),
        params.environment().contains(("CT_CHANNEL_NOISE_KEY"@, params.noise_key_hex)),
        params.environment().contains(("CT_CHANNEL_GRANT"@, params.grant_hex)),
        params.environment().contains(("CT_CHANNEL_CALL_SERVICE"@, "text_generation"@)),
        params.environment().contains(("CT_CHANNEL_FRONT_DOOR"@, params.front_door_addr)),
        params.environment().contains(("CT_CHANNEL_FRONT_DOOR_CERT"@, params.front_door_cert_hex)),
        params.environment().contains(("CT_CHANNEL_DIRECT_UPGRADE"@, "1"@)),
{
    let e = params.environment();
    assert(e[0] == ("CT_CHANNEL_ROLE"@, "initiate"@));
    assert(e[1] == ("CT_CHANNEL_BROKER"@, params.broker_addr));
    assert(e[2] == ("CT_CHANNEL_RELAY"@, params.relay_addr));
    assert(e[3] == ("CT_CHANNEL_RELAY_ONLY"@, "1"@));
    assert(e[4] == ("CT_CHANNEL_HOLDER_KEY"@, params.holder_key_hex));
    assert(e[5] == ("CT_CHANNEL_NOISE_KEY"@, params.noise_key_hex));
    assert(e[6] == ("CT_CHANNEL_GRANT"@, params.grant_hex));
    assert(e[7] == ("CT_CHANNEL_CALL_SERVICE"@, "text_generation"@));
    assert(e[8] == ("CT_CHANNEL_FRONT_DOOR"@, params.front_door_addr));
    assert(e[9] == ("CT_CHANNEL_FRONT_DOOR_CERT"@, params.front_door_cert_hex));
    assert(e[10] == ("CT_CHANNEL_DIRECT_UPGRADE"@, "1"@));
}

} // verus!
