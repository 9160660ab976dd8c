//! Startup Gate: the bounded readiness-polling loop.
//!
//! Right after the companion is spawned, the Startup Gate probes its health endpoint
//! once per attempt, sleeping a fixed delay after every failed attempt, until
//! a probe succeeds or a fixed maximum number of attempts is exhausted. Both
//! outcomes are terminal and merely logged: readiness polling is
//! observability, not gatekeeping, and the application continues either way.
//!
//! The host application drives the loop: it performs one probe, feeds the
//! result to [`gate_step`], and carries out the returned [`GateAction`]
//! (log, or sleep and retry). [`run_gate`] replays a whole run against a
//! pre-recorded sequence of probe results and is proved to match the
//! specification-level model [`gate_outcome`] / [`gate_log`].

use vstd::prelude::*;

use crate::text::{lines_of, success_message, success_text, timeout_message, timeout_text};

verus! {

/// Maximum number of probe attempts before a run declares a timeout.
pub const MAX_ATTEMPTS: u32 = 60;

/// Fixed delay, in milliseconds, after every failed probe attempt.
pub const RETRY_DELAY_MS: u64 = 500;

/// The Startup Gate's state: still polling after some number of failed attempts, or
/// in one of the two terminal states.
#[derive(Clone, Copy, Debug, PartialEq, Eq, Structural)]
pub enum GateState {
    Polling { attempts_made: u32 },
    Succeeded { attempts: u32 },
    TimedOut,
}

impl GateState {
    /// Well-formedness: while polling, fewer than the maximum number of
    /// attempts have been made; a success records which attempt succeeded.
    pub open spec fn wf(self) -> bool {
        match self {
            GateState::Polling { attempts_made } => attempts_made < MAX_ATTEMPTS,
            GateState::Succeeded { attempts } => 1 <= attempts <= MAX_ATTEMPTS,
            GateState::TimedOut => true,
        }
    }
}

/// What the host application must do after one polling step.
pub enum GateAction {
    /// Print the success line to the normal sink; polling is over.
    LogSuccess { message: String },
    /// Sleep for `delay_ms` milliseconds, then probe again.
    Wait { delay_ms: u64 },
    /// Sleep for `delay_ms` milliseconds, then print the timeout line to the
    /// error sink; polling is over.
    WaitThenLogTimeout { delay_ms: u64, message: String },
}

/// The state after one probe result is fed to a polling gate.
pub open spec fn gate_next(state: GateState, probe_ok: bool) -> GateState {
    match state {
        GateState::Polling { attempts_made } => {
            if probe_ok {
                GateState::Succeeded { attempts: (attempts_made + 1) as u32 }
            } else if attempts_made + 1 < MAX_ATTEMPTS {
                GateState::Polling { attempts_made: (attempts_made + 1) as u32 }
            } else {
                GateState::TimedOut
            }
        },
        _ => state,
    }
}

/// The action owed after one probe result is fed to a polling gate: success
/// logs the success line for this attempt; a failed attempt is followed by
/// the fixed delay, and by the timeout line when it was the last attempt.
pub open spec fn gate_action_spec(state: GateState, probe_ok: bool, action: GateAction) -> bool {
    match state {
        GateState::Polling { attempts_made } => {
            if probe_ok {
                action matches GateAction::LogSuccess { message } && message@ == success_text(
                    (attempts_made + 1) as nat,
                )
            } else if attempts_made + 1 < MAX_ATTEMPTS {
                action == (GateAction::Wait { delay_ms: RETRY_DELAY_MS })
            } else {
                action matches GateAction::WaitThenLogTimeout { delay_ms, message } && delay_ms
                    == RETRY_DELAY_MS && message@ == timeout_text()
            }
        },
        _ => false,
    }
}

/// One step of the Startup Gate: consumes the result of the probe attempt
/// just made and decides what happens next.
pub fn gate_step(state: &GateState, probe_ok: bool) -> (r: (GateState, GateAction))
    requires
        state.wf(),
        state is Polling,
    ensures
        r.0 == gate_next(*state, probe_ok),
        r.0.wf(),
        gate_action_spec(*state, probe_ok, r.1),
{
    match state {
        GateState::Polling { attempts_made } => {
            let attempt = *attempts_made + 1;
            if probe_ok {
                let message = success_message(attempt);
                (GateState::Succeeded { attempts: attempt }, GateAction::LogSuccess { message })
            } else if attempt < MAX_ATTEMPTS {
                (
                    GateState::Polling { attempts_made: attempt },
                    GateAction::Wait { delay_ms: RETRY_DELAY_MS },
                )
            } else {
                let message = timeout_message();
                (
                    GateState::TimedOut,
                    GateAction::WaitThenLogTimeout { delay_ms: RETRY_DELAY_MS, message },
                )
            }
        },
        _ => vstd::pervasive::unreached(),
    }
}

/// The index of the first successful probe among the first `n`, or `n` when
/// none of them succeeds.
pub open spec fn first_ok_index(probes: Seq<bool>, n: int) -> int
    decreases n,
{
    if n <= 0 {
        0
    } else if first_ok_index(probes, n - 1) < n - 1 {
        first_ok_index(probes, n - 1)
    } else if probes[n - 1] {
        n - 1
    } else {
        n
    }
}

/// The index of the first successful probe within the attempt window, or
/// `MAX_ATTEMPTS` when every attempt it is allowed fails.
pub open spec fn first_ok(probes: Seq<bool>) -> int {
    first_ok_index(probes, MAX_ATTEMPTS as int)
}

/// Number of probe attempts a full gate run performs.
pub open spec fn gate_attempts(probes: Seq<bool>) -> int {
    if first_ok(probes) < MAX_ATTEMPTS {
        first_ok(probes) + 1
    } else {
        MAX_ATTEMPTS as int
    }
}

/// Number of fixed delays a full gate run performs (one per failed attempt).
pub open spec fn gate_waits(probes: Seq<bool>) -> int {
    if first_ok(probes) < MAX_ATTEMPTS {
        first_ok(probes)
    } else {
        MAX_ATTEMPTS as int
    }
}

/// The terminal state a full gate run reaches.
pub open spec fn gate_outcome(probes: Seq<bool>) -> GateState {
    if first_ok(probes) < MAX_ATTEMPTS {
        GateState::Succeeded { attempts: (first_ok(probes) + 1) as u32 }
    } else {
        GateState::TimedOut
    }
}

/// The lines a full gate run logs: exactly one, success or timeout.
pub open spec fn gate_log(probes: Seq<bool>) -> Seq<Seq<char>> {
    if first_ok(probes) < MAX_ATTEMPTS {
        seq![success_text((first_ok(probes) + 1) as nat)]
    } else {
        seq![timeout_text()]
    }
}

/// `first_ok_index` is what it claims: in bounds, pointing at a success when
/// below `n`, with nothing but failures before it.
pub proof fn lemma_first_ok_index(probes: Seq<bool>, n: int)
    requires
        0 <= n,
    ensures
        0 <= first_ok_index(probes, n) <= n,
        first_ok_index(probes, n) < n ==> probes[first_ok_index(probes, n)],
        forall|j: int| 0 <= j < first_ok_index(probes, n) ==> !probes[j],
    decreases n,
{
    if n > 0 {
        lemma_first_ok_index(probes, n - 1);
    }
}

/// The first success within the attempt window is exactly the least successful index.
pub proof fn lemma_first_ok_is_least(probes: Seq<bool>, k: int)
    requires
        0 <= k < MAX_ATTEMPTS,
        probes[k],
        forall|j: int| 0 <= j < k ==> !probes[j],
    ensures
        first_ok(probes) == k,
{
    lemma_first_ok_index(probes, MAX_ATTEMPTS as int);
    if first_ok(probes) < k {
        assert(probes[first_ok(probes)]);
        assert(false);
    }
    if first_ok(probes) > k {
        assert(!probes[k]);
        assert(false);
    }
}

/// Law: a gate run makes at most `MAX_ATTEMPTS` probe attempts and logs
/// exactly one line, so in particular at most one success line.
pub proof fn lemma_gate_attempts_bounded(probes: Seq<bool>)
    ensures
        gate_attempts(probes) <= MAX_ATTEMPTS,
        gate_log(probes).len() == 1,
{
    lemma_first_ok_index(probes, MAX_ATTEMPTS as int);
}

/// Law: if the first successful probe is the one at index `k` (attempt
/// `k + 1`), the run performs exactly `k + 1` attempts — none of the attempts
/// `k + 2 ..= MAX_ATTEMPTS` happens — and logs exactly the one success line
/// for attempt `k + 1`.
pub proof fn lemma_gate_stops_at_first_success(probes: Seq<bool>, k: int)
    requires
        0 <= k < MAX_ATTEMPTS,
        probes[k],
        forall|j: int| 0 <= j < k ==> !probes[j],
    ensures
        gate_attempts(probes) == k + 1,
        gate_outcome(probes) == (GateState::Succeeded { attempts: (k + 1) as u32 }),
        gate_log(probes) == seq![success_text((k + 1) as nat)],
{
    lemma_first_ok_is_least(probes, k);
}

/// Law: when every attempt in the window fails, the poller waits the fixed
/// delay after each of its `MAX_ATTEMPTS` attempts — the delays add up to
/// `MAX_ATTEMPTS * RETRY_DELAY_MS` milliseconds before the timeout is
/// declared — and it logs exactly the one timeout line.
pub proof fn lemma_gate_timeout_delay(probes: Seq<bool>)
    requires
        forall|j: int| 0 <= j < MAX_ATTEMPTS ==> !probes[j],
    ensures
        gate_outcome(probes) == GateState::TimedOut,
        gate_waits(probes) * RETRY_DELAY_MS == MAX_ATTEMPTS * RETRY_DELAY_MS,
        gate_waits(probes) * RETRY_DELAY_MS == 30000,
        gate_log(probes) == seq![timeout_text()],
{
    lemma_first_ok_index(probes, MAX_ATTEMPTS as int);
    if first_ok(probes) < MAX_ATTEMPTS {
        assert(probes[first_ok(probes)]);
        assert(false);
    }
}

/// Everything one replayed gate run produced.
pub struct GateReport {
    /// The terminal state reached.
    pub outcome: GateState,
    /// Probe attempts performed.
    pub attempts: u32,
    /// Fixed delays performed (one per failed attempt).
    pub waits: u32,
    /// Log lines emitted, in order.
    pub log: Vec<String>,
}

impl GateReport {
    /// The emitted log lines as character sequences.
    pub open spec fn log_lines(self) -> Seq<Seq<char>> {
        lines_of(self.log@)
    }
}

/// Replays a whole Startup Gate run against a pre-recorded sequence of probe
/// results: entry `i` is what the probe of attempt `i + 1` would report.
pub fn run_gate(probes: &Vec<bool>) -> (r: GateReport)
    requires
        probes@.len() >= MAX_ATTEMPTS,
    ensures
        r.outcome == gate_outcome(probes@),
        r.outcome.wf(),
        r.attempts == gate_attempts(probes@),
        r.waits == gate_waits(probes@),
        r.log_lines() == gate_log(probes@),
{
    let mut state = GateState::Polling { attempts_made: 0 };
    let mut attempts: u32 = 0;
    let mut waits: u32 = 0;
    let mut log: Vec<String> = Vec::new();
    loop
        invariant_except_break
            attempts < MAX_ATTEMPTS,
            state == (GateState::Polling { attempts_made: attempts }),
            waits == attempts,
            log@.len() == 0,
            forall|j: int| 0 <= j < attempts ==> !probes@[j],
        invariant
            probes@.len() >= MAX_ATTEMPTS,
        ensures
            ({
                let k = attempts - 1;
                &&& 1 <= attempts <= MAX_ATTEMPTS
                &&& forall|j: int| 0 <= j < k ==> !probes@[j]
                &&& if probes@[k as int] {
                    &&& state == (GateState::Succeeded { attempts })
                    &&& waits == k
                    &&& lines_of(log@) == seq![success_text(attempts as nat)]
                } else {
                    &&& attempts == MAX_ATTEMPTS
                    &&& state == GateState::TimedOut
                    &&& waits == MAX_ATTEMPTS
                    &&& lines_of(log@) == seq![timeout_text()]
                }
            }),
        decreases MAX_ATTEMPTS - attempts,
    {
        let probe_ok = probes[attempts as usize];
        let (next, action) = gate_step(&state, probe_ok);
        state = next;
        attempts = attempts + 1;
        match action {
            GateAction::LogSuccess { message } => {
                log.push(message);
                proof {
                    assert(lines_of(log@) =~= seq![success_text(attempts as nat)]);
                }
                break ;
            },
            GateAction::Wait { .. } => {
                waits = waits + 1;
            },
            GateAction::WaitThenLogTimeout { message, .. } => {
                waits = waits + 1;
                log.push(message);
                proof {
                    assert(lines_of(log@) =~= seq![timeout_text()]);
                }
                break ;
            },
        }
    }
    proof {
        let k = attempts - 1;
        if probes@[k as int] {
            lemma_first_ok_is_least(probes@, k as int);
        } else {
            lemma_first_ok_index(probes@, MAX_ATTEMPTS as int);
            if first_ok(probes@) < MAX_ATTEMPTS {
                assert(probes@[first_ok(probes@)]);
                assert(false);
            }
        }
    }
    GateReport { outcome: state, attempts, waits, log }
}

} // verus!
