//! The supervision state and the retry/forced-restart decision engine.

use vstd::prelude::*;
use crate::config::Config;
use crate::outcome::Outcome;
use crate::signals::SignalAction;
use crate::signals::SIGCHLD;
use crate::signals::is_term_signal;
use crate::signals::is_term_signal_spec;
use crate::signals::signal_action_spec;

verus! {

/// The supervision state that outlives one attempt: the retry budget left
/// and any pending forced-restart request.
#[derive(Clone, Copy, PartialEq, Eq, Structural, Debug)]
pub struct SupervisorState {
    /// Attempts the current run of failures may still consume. Counts down
    /// from the configured budget; refreshed by a sufficiently long run.
    pub remaining_retries: usize,
    /// A forced-restart request was received and is neither consumed nor
    /// discarded yet.
    pub force_restart: bool,
    /// When the pending request arrived, in seconds of the embedding
    /// program's monotonic clock; meaningful only while `force_restart` holds.
    pub restart_received_at: u64,
}

impl SupervisorState {
    /// While supervision continues, the budget left never exceeds the
    /// configured budget, and with a non-zero budget at least one attempt is
    /// always left (the attempt that consumes the last one also stops).
    pub open spec fn wf(self, cfg: Config) -> bool {
        &&& self.remaining_retries <= cfg.retry
        &&& cfg.retry > 0 ==> self.remaining_retries >= 1
    }

    /// The state at process start: a full budget, no pending request.
    pub fn new(cfg: &Config) -> (st: SupervisorState)
        ensures
            st == (SupervisorState {
                remaining_retries: cfg.retry,
                force_restart: false,
                restart_received_at: 0,
            }),
            st.wf(*cfg),
    {
        SupervisorState { remaining_retries: cfg.retry, force_restart: false, restart_received_at: 0 }
    }

    /// The state after a forced-restart request received at `now`.
    pub open spec fn with_request(self, now: u64) -> SupervisorState {
        SupervisorState { force_restart: true, restart_received_at: now, ..self }
    }

    /// The state with any pending forced-restart request taken off.
    pub open spec fn cleared(self) -> SupervisorState {
        SupervisorState { force_restart: false, ..self }
    }
}

/// One step of the signal relay, for the blocking strategy: the embedding
/// program sits on the stream of intercepted signals and hands each one in
/// as it arrives, together with the current second `now` of its monotonic
/// clock, then carries out the returned action. A forced-restart request is
/// recorded here — re-received, it starts its wait window afresh — and is
/// never forwarded; every other signal leaves the state alone.
pub fn on_signal(cfg: &Config, st: &mut SupervisorState, sig: i32, now: u64) -> (action: SignalAction)
    requires
        1 <= sig,
    ensures
        action == signal_action_spec(*cfg, sig),
        action is RestartTrigger ==> *final(st) == old(st).with_request(now),
        !(action is RestartTrigger) ==> *final(st) == *old(st),
{
    if sig == cfg.restart_signal {
        st.force_restart = true;
        st.restart_received_at = now;
        SignalAction::RestartTrigger
    } else if sig == SIGCHLD {
        SignalAction::ChildTerminated
    } else {
        SignalAction::Forward(sig)
    }
}

/// What the supervisor does after one attempt has terminated: relaunch the
/// child, or end supervision reporting the given exit code.
#[derive(Clone, Copy, PartialEq, Eq, Structural, Debug)]
pub enum Decision {
    Restart,
    Stop(i32),
}

/// Whether a pending forced-restart request is still in force at `now`:
/// there is one, and either requests never expire or the child exited
/// within the wait window.
pub open spec fn forced_restart_applies(cfg: Config, st: SupervisorState, now: u64) -> bool {
    &&& st.force_restart
    &&& (cfg.restart_wait_seconds == 0 || now - st.restart_received_at <= cfg.restart_wait_seconds)
}

/// Whether an attempt that ran `elapsed` seconds failed fast enough for the
/// crash-loop check to end supervision.
pub open spec fn fast_failed(cfg: Config, elapsed: u64) -> bool {
    cfg.fast_fail_seconds > 0 && elapsed < cfg.fast_fail_seconds
}

/// Whether an attempt that ran `elapsed` seconds was stable for long enough
/// to earn a fresh retry budget.
pub open spec fn budget_resets(cfg: Config, elapsed: u64) -> bool {
    cfg.reset_retries_seconds > 0 && elapsed > cfg.reset_retries_seconds
}

/// The ordinary policy, once no forced restart is in force, evaluated in
/// this order: death by a shutdown signal ends supervision (the operator's
/// intent overrides retrying); a clean exit ends it with code zero; a fast
/// failure ends it; a zero budget never retries; otherwise the budget — made
/// full again first if the attempt ran long enough — pays for one relaunch,
/// and supervision ends when it runs out.
pub open spec fn ordinary_decision(
    cfg: Config,
    st: SupervisorState,
    outcome: Outcome,
    elapsed: u64,
) -> (Decision, SupervisorState) {
    let code: i32 = outcome.encoded_code_spec();
    if outcome matches Outcome::Killed(sig) && is_term_signal_spec(sig) {
        (Decision::Stop(code), st)
    } else if outcome == Outcome::Exited(0) {
        (Decision::Stop(0), st)
    } else if fast_failed(cfg, elapsed) {
        (Decision::Stop(code), st)
    } else if cfg.retry == 0 {
        (Decision::Stop(code), st)
    } else {
        let base: usize = if budget_resets(cfg, elapsed) { cfg.retry } else { st.remaining_retries };
        let left: usize = if base == 0 { 0 } else { (base - 1) as usize };
        let paid = SupervisorState { remaining_retries: left, ..st };
        if left == 0 {
            (Decision::Stop(code), paid)
        } else {
            (Decision::Restart, paid)
        }
    }
}

/// The whole per-termination decision. A forced-restart request still in
/// force is honoured first: it relaunches the child unconditionally —
/// bypassing the shutdown-signal, success, fast-fail and budget rules — and
/// costs no budget. Otherwise any expired request is discarded and the
/// ordinary policy decides. Either way no request stays pending.
pub open spec fn decide_spec(
    cfg: Config,
    st: SupervisorState,
    outcome: Outcome,
    elapsed: u64,
    now: u64,
) -> (Decision, SupervisorState) {
    if forced_restart_applies(cfg, st, now) {
        (Decision::Restart, st.cleared())
    } else {
        ordinary_decision(cfg, st.cleared(), outcome, elapsed)
    }
}

/// Decide, after one attempt has terminated with `outcome` having run
/// `elapsed` seconds, whether to relaunch the child or to stop with a final
/// exit code. `now` is the current second of the same monotonic clock that
/// timestamped any forced-restart request, so it cannot lie before the
/// request.
pub fn decide(
    cfg: &Config,
    st: &mut SupervisorState,
    outcome: Outcome,
    elapsed: u64,
    now: u64,
) -> (decision: Decision)
    requires
        old(st).wf(*cfg),
        outcome.wf(),
        old(st).force_restart ==> now >= old(st).restart_received_at,
    ensures
        decision == decide_spec(*cfg, *old(st), outcome, elapsed, now).0,
        *final(st) == decide_spec(*cfg, *old(st), outcome, elapsed, now).1,
        decision is Restart ==> final(st).wf(*cfg),
        !final(st).force_restart,
{
    let forced = st.force_restart && (cfg.restart_wait_seconds == 0
        || now - st.restart_received_at <= cfg.restart_wait_seconds);
    st.force_restart = false;
    if forced {
        return Decision::Restart;
    }
    let code: i32 = outcome.encoded_code();
    if let Outcome::Killed(sig) = outcome {
        if is_term_signal(sig) {
            return Decision::Stop(code);
        }
    }
    if outcome == Outcome::Exited(0) {
        return Decision::Stop(0);
    }
    if cfg.fast_fail_seconds > 0 && elapsed < cfg.fast_fail_seconds {
        return Decision::Stop(code);
    }
    if cfg.retry == 0 {
        return Decision::Stop(code);
    }
    let base: usize = if cfg.reset_retries_seconds > 0 && elapsed > cfg.reset_retries_seconds {
        cfg.retry
    } else {
        st.remaining_retries
    };
    st.remaining_retries = base - 1;
    if st.remaining_retries == 0 {
        Decision::Stop(code)
    } else {
        Decision::Restart
    }
}

} // verus!
