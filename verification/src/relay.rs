//! Output Relay: forwards the companion process's output to tagged log
//! lines and detects its termination.
//!
//! The host application drains the companion's output stream and hands each
//! event to [`relay_step`]: a stdout line is owed to the normal sink with
//! the server tag, a stderr line to the error sink with the distinct error
//! tag, a termination event is logged once with its exit code and signal and
//! stops the relay, and any other event kind is ignored. After termination
//! the relay is silent: every further event is ignored.
//!
//! [`run_relay`] replays a whole event sequence and is proved to produce
//! exactly the specification-level sink contents [`normal_sink`] /
//! [`error_sink`].

use vstd::prelude::*;

use crate::text::{
    lines_of, server_err_tagged, server_tagged, tag_server_err_line, tag_server_line,
    termination_message, termination_text,
};

verus! {

/// One event drained from the companion's output stream.
#[derive(Debug)]
pub enum OutputEvent {
    /// A line the companion wrote to its standard output.
    StdoutLine { line: String },
    /// A line the companion wrote to its standard error.
    StderrLine { line: String },
    /// The companion terminated with the given exit code and signal.
    Terminated { code: Option<i32>, signal: Option<i32> },
    /// Any other kind of event the stream may carry.
    Other,
}

/// Whether the relay is still draining events or saw the termination event.
#[derive(Clone, Copy, Debug, PartialEq, Eq, Structural)]
pub enum RelayState {
    Running,
    Stopped,
}

/// What the host application must do with one drained event.
pub enum RelayAction {
    /// Print `text` to the normal log sink.
    ForwardNormal { text: String },
    /// Print `text` to the error log sink.
    ForwardError { text: String },
    /// Print `text` to the error log sink; the relay is over.
    LogTermination { text: String },
    /// Do nothing.
    Ignore,
}

/// The relay state after one event: only a termination event, seen while
/// running, stops the relay.
pub open spec fn relay_next(state: RelayState, event: OutputEvent) -> RelayState {
    match state {
        RelayState::Stopped => RelayState::Stopped,
        RelayState::Running => match event {
            OutputEvent::Terminated { .. } => RelayState::Stopped,
            _ => RelayState::Running,
        },
    }
}

/// The action owed for one event: tagged forwarding for output lines, one
/// termination notice, nothing for other events, and nothing at all once
/// the relay has stopped.
pub open spec fn relay_action_spec(state: RelayState, event: OutputEvent, action: RelayAction) -> bool {
    match state {
        RelayState::Stopped => action is Ignore,
        RelayState::Running => match event {
            OutputEvent::StdoutLine { line } => action matches RelayAction::ForwardNormal { text }
                && text@ == server_tagged(line@),
            OutputEvent::StderrLine { line } => action matches RelayAction::ForwardError { text }
                && text@ == server_err_tagged(line@),
            OutputEvent::Terminated { code, signal } => action matches RelayAction::LogTermination {
                text,
            } && text@ == termination_text(code, signal),
            OutputEvent::Other => action is Ignore,
        },
    }
}

/// One step of the Output Relay: decides what one drained event means.
pub fn relay_step(state: &RelayState, event: &OutputEvent) -> (r: (RelayState, RelayAction))
    ensures
        r.0 == relay_next(*state, *event),
        relay_action_spec(*state, *event, r.1),
{
    match state {
        RelayState::Stopped => (RelayState::Stopped, RelayAction::Ignore),
        RelayState::Running => match event {
            OutputEvent::StdoutLine { line } => (
                RelayState::Running,
                RelayAction::ForwardNormal { text: tag_server_line(line.as_str()) },
            ),
            OutputEvent::StderrLine { line } => (
                RelayState::Running,
                RelayAction::ForwardError { text: tag_server_err_line(line.as_str()) },
            ),
            OutputEvent::Terminated { code, signal } => (
                RelayState::Stopped,
                RelayAction::LogTermination { text: termination_message(code, signal) },
            ),
            OutputEvent::Other => (RelayState::Running, RelayAction::Ignore),
        },
    }
}

/// Everything the normal log sink receives over a whole event sequence:
/// each stdout line, tagged, in stream order, up to the termination event.
pub open spec fn normal_sink(events: Seq<OutputEvent>) -> Seq<Seq<char>>
    decreases events.len(),
{
    if events.len() == 0 {
        Seq::empty()
    } else {
        match events[0] {
            OutputEvent::StdoutLine { line } => seq![server_tagged(line@)] + normal_sink(
                events.drop_first(),
            ),
            OutputEvent::Terminated { .. } => Seq::empty(),
            _ => normal_sink(events.drop_first()),
        }
    }
}

/// Everything the error log sink receives over a whole event sequence: each
/// stderr line, tagged, in stream order, and the one termination notice,
/// after which nothing follows.
pub open spec fn error_sink(events: Seq<OutputEvent>) -> Seq<Seq<char>>
    decreases events.len(),
{
    if events.len() == 0 {
        Seq::empty()
    } else {
        match events[0] {
            OutputEvent::StderrLine { line } => seq![server_err_tagged(line@)] + error_sink(
                events.drop_first(),
            ),
            OutputEvent::Terminated { code, signal } => seq![termination_text(code, signal)],
            _ => error_sink(events.drop_first()),
        }
    }
}

/// How many stdout-line events stand before index `j` of the stream.
pub open spec fn stdout_before(events: Seq<OutputEvent>, j: int) -> int
    decreases j,
{
    if j <= 0 {
        0
    } else {
        stdout_before(events, j - 1) + if events[j - 1] is StdoutLine {
            1int
        } else {
            0int
        }
    }
}

/// How many stderr-line events stand before index `j` of the stream.
pub open spec fn stderr_before(events: Seq<OutputEvent>, j: int) -> int
    decreases j,
{
    if j <= 0 {
        0
    } else {
        stderr_before(events, j - 1) + if events[j - 1] is StderrLine {
            1int
        } else {
            0int
        }
    }
}

proof fn lemma_stdout_before_drop_first(events: Seq<OutputEvent>, j: int)
    requires
        1 <= j <= events.len(),
    ensures
        stdout_before(events, j) == (if events[0] is StdoutLine {
            1int
        } else {
            0int
        }) + stdout_before(events.drop_first(), j - 1),
    decreases j,
{
    if j > 1 {
        lemma_stdout_before_drop_first(events, j - 1);
        assert(events.drop_first()[j - 2] == events[j - 1]);
    } else {
        assert(stdout_before(events, 1) == stdout_before(events, 0) + (if events[0] is StdoutLine {
            1int
        } else {
            0int
        }));
    }
}

proof fn lemma_stderr_before_drop_first(events: Seq<OutputEvent>, j: int)
    requires
        1 <= j <= events.len(),
    ensures
        stderr_before(events, j) == (if events[0] is StderrLine {
            1int
        } else {
            0int
        }) + stderr_before(events.drop_first(), j - 1),
    decreases j,
{
    if j > 1 {
        lemma_stderr_before_drop_first(events, j - 1);
        assert(events.drop_first()[j - 2] == events[j - 1]);
    } else {
        assert(stderr_before(events, 1) == stderr_before(events, 0) + (if events[0] is StderrLine {
            1int
        } else {
            0int
        }));
    }
}

/// Law: every stdout line ahead of the termination event reaches the normal
/// sink, tagged, at the position given by how many stdout lines preceded it
/// — so the sink preserves the stream's original line order.
pub proof fn lemma_relay_forwards_stdout(events: Seq<OutputEvent>, j: int, line: String)
    requires
        0 <= j < events.len(),
        events[j] == (OutputEvent::StdoutLine { line }),
        forall|k: int| 0 <= k < j ==> !(events[k] is Terminated),
    ensures
        0 <= stdout_before(events, j) < normal_sink(events).len(),
        normal_sink(events)[stdout_before(events, j)] == server_tagged(line@),
    decreases j,
{
    if j == 0 {
        assert(normal_sink(events)[0] == server_tagged(line@));
    } else {
        let tail = events.drop_first();
        assert(tail[j - 1] == events[j]);
        assert(forall|k: int| 0 <= k < j - 1 ==> tail[k] == events[k + 1]);
        lemma_relay_forwards_stdout(tail, j - 1, line);
        lemma_stdout_before_drop_first(events, j);
        assert(!(events[0] is Terminated));
    }
}

/// Law: every stderr line ahead of the termination event reaches the error
/// sink, tagged, at the position given by how many stderr lines preceded it
/// — so the error sink preserves the stream's original line order too.
pub proof fn lemma_relay_forwards_stderr(events: Seq<OutputEvent>, j: int, line: String)
    requires
        0 <= j < events.len(),
        events[j] == (OutputEvent::StderrLine { line }),
        forall|k: int| 0 <= k < j ==> !(events[k] is Terminated),
    ensures
        0 <= stderr_before(events, j) < error_sink(events).len(),
        error_sink(events)[stderr_before(events, j)] == server_err_tagged(line@),
    decreases j,
{
    if j == 0 {
        assert(error_sink(events)[0] == server_err_tagged(line@));
    } else {
        let tail = events.drop_first();
        assert(tail[j - 1] == events[j]);
        assert(forall|k: int| 0 <= k < j - 1 ==> tail[k] == events[k + 1]);
        lemma_relay_forwards_stderr(tail, j - 1, line);
        lemma_stderr_before_drop_first(events, j);
        assert(!(events[0] is Terminated));
    }
}

/// Law: of two stdout lines, the earlier one lands at the smaller position
/// of the normal sink.
pub proof fn lemma_stdout_order_preserved(events: Seq<OutputEvent>, j1: int, j2: int)
    requires
        0 <= j1 < j2 <= events.len(),
        events[j1] is StdoutLine,
    ensures
        stdout_before(events, j1) < stdout_before(events, j2),
    decreases j2,
{
    if j1 < j2 - 1 {
        lemma_stdout_order_preserved(events, j1, j2 - 1);
    }
}

/// Law: of two stderr lines, the earlier one lands at the smaller position
/// of the error sink.
pub proof fn lemma_stderr_order_preserved(events: Seq<OutputEvent>, j1: int, j2: int)
    requires
        0 <= j1 < j2 <= events.len(),
        events[j1] is StderrLine,
    ensures
        stderr_before(events, j1) < stderr_before(events, j2),
    decreases j2,
{
    if j1 < j2 - 1 {
        lemma_stderr_order_preserved(events, j1, j2 - 1);
    }
}

/// Law: whatever events arrive after the termination event, neither sink
/// receives anything further: the relay is silent from then on.
pub proof fn lemma_relay_silent_after_termination(
    before: Seq<OutputEvent>,
    code: Option<i32>,
    signal: Option<i32>,
    after: Seq<OutputEvent>,
)
    ensures
        normal_sink(before.push(OutputEvent::Terminated { code, signal }) + after) == normal_sink(
            before.push(OutputEvent::Terminated { code, signal }),
        ),
        error_sink(before.push(OutputEvent::Terminated { code, signal }) + after) == error_sink(
            before.push(OutputEvent::Terminated { code, signal }),
        ),
    decreases before.len(),
{
    let term = OutputEvent::Terminated { code, signal };
    let upto = before.push(term);
    let whole = upto + after;
    if before.len() == 0 {
        assert(whole[0] == term);
        assert(error_sink(whole) == error_sink(upto));
    } else {
        lemma_relay_silent_after_termination(before.drop_first(), code, signal, after);
        assert(whole.drop_first() =~= before.drop_first().push(term) + after);
        assert(upto.drop_first() =~= before.drop_first().push(term));
        assert(whole[0] == before[0]);
        assert(upto[0] == before[0]);
    }
}

/// Law: when the termination event ends a live stream, the error sink
/// receives exactly the termination notice as its final line, and the
/// normal sink receives nothing for it.
pub proof fn lemma_relay_logs_termination(
    before: Seq<OutputEvent>,
    code: Option<i32>,
    signal: Option<i32>,
)
    requires
        forall|k: int| 0 <= k < before.len() ==> !(before[k] is Terminated),
    ensures
        error_sink(before.push(OutputEvent::Terminated { code, signal })) == error_sink(before)
            + seq![termination_text(code, signal)],
        normal_sink(before.push(OutputEvent::Terminated { code, signal })) == normal_sink(before),
    decreases before.len(),
{
    let term = OutputEvent::Terminated { code, signal };
    let upto = before.push(term);
    if before.len() == 0 {
        assert(upto[0] == term);
        assert(error_sink(before) + seq![termination_text(code, signal)] =~= seq![
            termination_text(code, signal),
        ]);
    } else {
        assert(forall|k: int|
            0 <= k < before.drop_first().len() ==> before.drop_first()[k] == before[k + 1]);
        lemma_relay_logs_termination(before.drop_first(), code, signal);
        assert(upto.drop_first() =~= before.drop_first().push(term));
        assert(upto[0] == before[0]);
        match before[0] {
            OutputEvent::StderrLine { line } => {
                let t = seq![server_err_tagged(line@)];
                let a = error_sink(before.drop_first());
                let b = seq![termination_text(code, signal)];
                assert(t + (a + b) =~= (t + a) + b);
            },
            _ => {},
        }
    }
}

/// What one replayed relay run printed to each sink, and where it stopped.
pub struct RelayReport {
    /// Lines printed to the normal log sink, in order.
    pub normal: Vec<String>,
    /// Lines printed to the error log sink, in order.
    pub errors: Vec<String>,
    /// The relay's state after the last event.
    pub state: RelayState,
}

/// Replays the Output Relay over a whole recorded event sequence.
pub fn run_relay(events: &Vec<OutputEvent>) -> (r: RelayReport)
    ensures
        lines_of(r.normal@) == normal_sink(events@),
        lines_of(r.errors@) == error_sink(events@),
        r.state is Stopped <==> exists|j: int|
            0 <= j < events@.len() && events@[j] is Terminated,
{
    let mut normal: Vec<String> = Vec::new();
    let mut errors: Vec<String> = Vec::new();
    let mut state = RelayState::Running;
    let mut i: usize = 0;
    proof {
        assert(events@.skip(0) =~= events@);
        assert(lines_of(normal@) + normal_sink(events@) =~= normal_sink(events@));
        assert(lines_of(errors@) + error_sink(events@) =~= error_sink(events@));
    }
    while i < events.len()
        invariant
            i <= events@.len(),
            state is Stopped <==> exists|j: int| 0 <= j < i && events@[j] is Terminated,
            state is Running ==> normal_sink(events@) == lines_of(normal@) + normal_sink(
                events@.skip(i as int),
            ),
            state is Running ==> error_sink(events@) == lines_of(errors@) + error_sink(
                events@.skip(i as int),
            ),
            state is Stopped ==> lines_of(normal@) == normal_sink(events@),
            state is Stopped ==> lines_of(errors@) == error_sink(events@),
        decreases events@.len() - i,
    {
        proof {
            if state is Running {
                assert(events@.skip(i as int)[0] == events@[i as int]);
                assert(events@.skip(i as int).drop_first() =~= events@.skip(i as int + 1));
            }
        }
        let (next, action) = relay_step(&state, &events[i]);
        match action {
            RelayAction::ForwardNormal { text } => {
                proof {
                    assert(lines_of(normal@.push(text)) =~= lines_of(normal@).push(text@));
                    if state is Running {
                        assert(lines_of(normal@).push(text@) + normal_sink(
                            events@.skip(i as int + 1),
                        ) =~= lines_of(normal@) + normal_sink(events@.skip(i as int)));
                    }
                }
                normal.push(text);
            },
            RelayAction::ForwardError { text } => {
                proof {
                    assert(lines_of(errors@.push(text)) =~= lines_of(errors@).push(text@));
                    if state is Running {
                        assert(lines_of(errors@).push(text@) + error_sink(
                            events@.skip(i as int + 1),
                        ) =~= lines_of(errors@) + error_sink(events@.skip(i as int)));
                    }
                }
                errors.push(text);
            },
            RelayAction::LogTermination { text } => {
                proof {
                    assert(lines_of(errors@.push(text)) =~= lines_of(errors@).push(text@));
                    assert(normal_sink(events@.skip(i as int)) =~= Seq::<Seq<char>>::empty());
                    assert(lines_of(normal@) + Seq::<Seq<char>>::empty() =~= lines_of(normal@));
                    assert(lines_of(errors@).push(text@) =~= lines_of(errors@) + seq![text@]);
                }
                errors.push(text);
            },
            RelayAction::Ignore => {},
        }
        state = next;
        i = i + 1;
    }
    proof {
        if state is Running {
            assert(events@.skip(i as int) =~= Seq::<OutputEvent>::empty());
            assert(lines_of(normal@) + Seq::<Seq<char>>::empty() =~= lines_of(normal@));
            assert(lines_of(errors@) + Seq::<Seq<char>>::empty() =~= lines_of(errors@));
        }
    }
    RelayReport { normal, errors, state }
}

} // verus!
