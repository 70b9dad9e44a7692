//! The supervision policy's guarantees, stated and proved over whole runs
//! and over single decisions.

use vstd::prelude::*;
use crate::config::Config;
use crate::outcome::Outcome;
use crate::policy::Decision;
use crate::policy::SupervisorState;
use crate::policy::budget_resets;
use crate::policy::decide_spec;
use crate::policy::fast_failed;
use crate::policy::forced_restart_applies;
use crate::policy::ordinary_decision;
use crate::signals::SIGCHLD;
use crate::signals::SignalAction;
use crate::signals::is_term_signal_spec;
use crate::signals::signal_action_spec;

verus! {

/// One terminated attempt as the policy sees it: the classified outcome and
/// the seconds the child ran.
pub struct Attempt {
    pub outcome: Outcome,
    pub elapsed: u64,
}

/// The supervision run from a given state over a sequence of terminated
/// attempts, each decided at time `now` with no forced-restart request
/// arriving in between: how many attempts the policy consumes before it
/// stops, with the final exit code — or `None` if the sequence runs out
/// while the policy still restarts.
pub open spec fn run_from(
    cfg: Config,
    st: SupervisorState,
    now: u64,
    attempts: Seq<Attempt>,
) -> Option<(nat, i32)>
    decreases attempts.len(),
{
    if attempts.len() == 0 {
        None
    } else {
        let step = decide_spec(cfg, st, attempts[0].outcome, attempts[0].elapsed, now);
        match step.0 {
            Decision::Stop(code) => Some((1nat, code)),
            Decision::Restart => match run_from(cfg, step.1, now, attempts.drop_first()) {
                Some(rest) => Some((rest.0 + 1, rest.1)),
                None => None,
            },
        }
    }
}

/// Whenever supervision stops, the exit code it reports is the encoded code
/// of the very attempt that caused it to stop — a forced restart never
/// produces a final code, and no outcome's code is dropped or replaced.
pub proof fn lemma_final_code_is_last_outcome(
    cfg: Config,
    st: SupervisorState,
    now: u64,
    attempts: Seq<Attempt>,
)
    ensures
        run_from(cfg, st, now, attempts) matches Some((n, code)) ==> 1 <= n <= attempts.len()
            && code == attempts[n - 1].outcome.encoded_code_spec(),
    decreases attempts.len(),
{
    if attempts.len() > 0 {
        let step = decide_spec(cfg, st, attempts[0].outcome, attempts[0].elapsed, now);
        if step.0 is Restart {
            lemma_final_code_is_last_outcome(cfg, step.1, now, attempts.drop_first());
        }
    }
}

/// A failure that the retry budget must absorb: a non-zero exit code, slow
/// enough to escape the fast-fail check and short enough to earn no budget
/// refresh.
pub open spec fn failing_slow(cfg: Config, a: Attempt) -> bool {
    &&& a.outcome matches Outcome::Exited(code) && code != 0
    &&& !fast_failed(cfg, a.elapsed)
    &&& !budget_resets(cfg, a.elapsed)
}

/// With a non-zero budget, no pending forced-restart request and a child
/// that on every attempt fails slowly without a budget refresh, supervision
/// spawns exactly as many attempts as the budget has left — each failure
/// pays one — and reports the exit code of the last attempt.
pub proof fn lemma_budget_bounds_attempts(
    cfg: Config,
    st: SupervisorState,
    now: u64,
    attempts: Seq<Attempt>,
)
    requires
        cfg.retry >= 1,
        st.wf(cfg),
        !st.force_restart,
        attempts.len() >= st.remaining_retries,
        forall|i: int| 0 <= i < attempts.len() ==> failing_slow(cfg, #[trigger] attempts[i]),
    ensures
        run_from(cfg, st, now, attempts) == Some((
            st.remaining_retries as nat,
            attempts[st.remaining_retries - 1].outcome.encoded_code_spec(),
        )),
    decreases st.remaining_retries,
{
    let step = decide_spec(cfg, st, attempts[0].outcome, attempts[0].elapsed, now);
    if st.remaining_retries > 1 {
        let rest = attempts.drop_first();
        assert forall|i: int| 0 <= i < rest.len() implies failing_slow(cfg, #[trigger] rest[i]) by {
            assert(rest[i] == attempts[i + 1]);
        }
        lemma_budget_bounds_attempts(cfg, step.1, now, rest);
        assert(rest[st.remaining_retries - 2] == attempts[st.remaining_retries - 1]);
    }
}

/// With a fresh full budget of `n >= 1` and a child that always exits
/// non-zero, slower than the fast-fail threshold and without earning a
/// budget refresh, the supervisor gives up after exactly `n` spawn attempts.
pub proof fn lemma_full_budget_attempt_count(cfg: Config, now: u64, attempts: Seq<Attempt>)
    requires
        cfg.retry >= 1,
        attempts.len() >= cfg.retry,
        forall|i: int| 0 <= i < attempts.len() ==> failing_slow(cfg, #[trigger] attempts[i]),
    ensures
        run_from(
            cfg,
            (SupervisorState { remaining_retries: cfg.retry, force_restart: false, restart_received_at: 0 }),
            now,
            attempts,
        ) == Some((cfg.retry as nat, attempts[cfg.retry - 1].outcome.encoded_code_spec())),
{
    let st = SupervisorState { remaining_retries: cfg.retry, force_restart: false, restart_received_at: 0 };
    lemma_budget_bounds_attempts(cfg, st, now, attempts);
}

/// With no forced restart in force, a child that exits non-zero after less
/// than a positive fast-fail threshold ends supervision at once, with its
/// own exit code and however much budget was left untouched.
pub proof fn lemma_fast_fail_stops(cfg: Config, st: SupervisorState, code: i32, elapsed: u64, now: u64)
    requires
        !forced_restart_applies(cfg, st, now),
        cfg.fast_fail_seconds > 0,
        elapsed < cfg.fast_fail_seconds,
        code != 0,
    ensures
        decide_spec(cfg, st, Outcome::Exited(code), elapsed, now).0 == Decision::Stop(code),
        decide_spec(cfg, st, Outcome::Exited(code), elapsed, now).1.remaining_retries
            == st.remaining_retries,
{
}

/// With no forced restart in force, a clean exit ends supervision with exit
/// code zero: the child is never relaunched after success.
pub proof fn lemma_clean_exit_stops(cfg: Config, st: SupervisorState, elapsed: u64, now: u64)
    requires
        !forced_restart_applies(cfg, st, now),
    ensures
        decide_spec(cfg, st, Outcome::Exited(0), elapsed, now).0 == Decision::Stop(0),
        decide_spec(cfg, st, Outcome::Exited(0), elapsed, now).1.remaining_retries
            == st.remaining_retries,
{
}

/// With no forced restart in force, a child killed by one of the
/// conventional shutdown signals ends supervision with code `128 + signal`,
/// whatever budget remains: the operator's intent to stop the service
/// overrides retrying.
pub proof fn lemma_term_signal_stops(cfg: Config, st: SupervisorState, sig: i32, elapsed: u64, now: u64)
    requires
        !forced_restart_applies(cfg, st, now),
        is_term_signal_spec(sig),
    ensures
        decide_spec(cfg, st, Outcome::Killed(sig), elapsed, now).0 matches Decision::Stop(code)
            && code == 128 + sig,
        decide_spec(cfg, st, Outcome::Killed(sig), elapsed, now).1.remaining_retries
            == st.remaining_retries,
{
}

/// A failure after a run longer than a positive stability threshold earns a
/// full budget before that failure is paid for: however few retries were
/// left, the budget afterwards is the configured budget less one.
pub proof fn lemma_stable_run_resets_budget(
    cfg: Config,
    st: SupervisorState,
    outcome: Outcome,
    elapsed: u64,
    now: u64,
)
    requires
        !forced_restart_applies(cfg, st, now),
        st.wf(cfg),
        cfg.retry >= 1,
        cfg.reset_retries_seconds > 0,
        elapsed > cfg.reset_retries_seconds,
        !(outcome matches Outcome::Killed(sig) && is_term_signal_spec(sig)),
        outcome != Outcome::Exited(0),
        !fast_failed(cfg, elapsed),
    ensures
        decide_spec(cfg, st, outcome, elapsed, now).1.remaining_retries == cfg.retry - 1,
        cfg.retry >= 2 ==> decide_spec(cfg, st, outcome, elapsed, now).0 == Decision::Restart,
{
}

/// A forced-restart request still in force when the child terminates is
/// honoured unconditionally: the child is relaunched even after a clean
/// exit, even with the budget spent, and no budget is consumed.
pub proof fn lemma_forced_restart_bypasses_policy(
    cfg: Config,
    st: SupervisorState,
    outcome: Outcome,
    elapsed: u64,
    now: u64,
)
    requires
        st.force_restart,
        cfg.restart_wait_seconds == 0 || now - st.restart_received_at <= cfg.restart_wait_seconds,
    ensures
        decide_spec(cfg, st, outcome, elapsed, now).0 == Decision::Restart,
        decide_spec(cfg, st, outcome, elapsed, now).1.remaining_retries == st.remaining_retries,
        !decide_spec(cfg, st, outcome, elapsed, now).1.force_restart,
{
}

/// A forced-restart request whose wait window has expired is discarded, not
/// retried: the pending flag is cleared and the termination is evaluated by
/// the ordinary policy alone.
pub proof fn lemma_expired_request_is_discarded(
    cfg: Config,
    st: SupervisorState,
    outcome: Outcome,
    elapsed: u64,
    now: u64,
)
    requires
        st.force_restart,
        cfg.restart_wait_seconds > 0,
        now - st.restart_received_at > cfg.restart_wait_seconds,
    ensures
        decide_spec(cfg, st, outcome, elapsed, now) == ordinary_decision(
            cfg,
            st.cleared(),
            outcome,
            elapsed,
        ),
        !decide_spec(cfg, st, outcome, elapsed, now).1.force_restart,
{
}

/// The relay actions for a sequence of intercepted signals, one action per
/// signal, in order of arrival.
pub open spec fn relay_actions(cfg: Config, sigs: Seq<i32>) -> Seq<SignalAction> {
    sigs.map(|i: int, sig: i32| signal_action_spec(cfg, sig))
}

/// Every intercepted signal received before the child terminates yields
/// exactly one relay action; for each occurrence of a signal other than the
/// restart trigger and the child-termination notification, that action
/// forwards the very signal received — once per occurrence, in order.
pub proof fn lemma_signals_forwarded_once(cfg: Config, sigs: Seq<i32>)
    ensures
        relay_actions(cfg, sigs).len() == sigs.len(),
        forall|i: int|
            0 <= i < sigs.len() && sigs[i] != cfg.restart_signal && sigs[i] != SIGCHLD
                ==> relay_actions(cfg, sigs)[i] == SignalAction::Forward(sigs[i]),
{
    assert forall|i: int|
        0 <= i < sigs.len() && sigs[i] != cfg.restart_signal && sigs[i]
            != SIGCHLD implies relay_actions(cfg, sigs)[i] == SignalAction::Forward(sigs[i]) by {
        assert(relay_actions(cfg, sigs)[i] == signal_action_spec(cfg, sigs[i]));
    }
}

} // verus!
