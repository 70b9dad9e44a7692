use restarter::config::Config;
use restarter::outcome::Outcome;
use restarter::outcome::classify_status;
use restarter::policy::Decision;
use restarter::policy::SupervisorState;
use restarter::policy::decide;
use restarter::policy::on_signal;
use restarter::signals::SIGCHLD;
use restarter::signals::SIGHUP;
use restarter::signals::SIGINT;
use restarter::signals::SIGQUIT;
use restarter::signals::SIGTERM;
use restarter::signals::SIGUSR1;
use restarter::signals::SIGUSR2;
use restarter::signals::allow_list;

fn cfg(retry: usize, fast: u64, reset: u64, restart_sig: i32, wait: u64) -> Config {
    Config::new(retry, fast, reset, restart_sig, wait)
}

#[test]
fn classifies_normal_exit() {
    assert_eq!(classify_status(Some(0), None), Some(Outcome::Exited(0)));
    assert_eq!(classify_status(Some(42), None), Some(Outcome::Exited(42)));
}

#[test]
fn classifies_signal_death() {
    assert_eq!(classify_status(None, Some(SIGTERM)), Some(Outcome::Killed(SIGTERM)));
    assert_eq!(classify_status(None, Some(9)), Some(Outcome::Killed(9)));
}

#[test]
fn classifies_missing_status_as_none() {
    assert_eq!(classify_status(None, None), None);
}

#[test]
fn encodes_signal_death_shell_style() {
    assert_eq!(Outcome::Killed(SIGTERM).encoded_code(), 143);
    assert_eq!(Outcome::Killed(SIGINT).encoded_code(), 130);
    assert_eq!(Outcome::Killed(9).encoded_code(), 137);
    assert_eq!(Outcome::Exited(7).encoded_code(), 7);
}

#[test]
fn clean_exit_stops_with_zero() {
    let c = cfg(3, 1, 3600, 0, 30);
    let mut st = SupervisorState::new(&c);
    let d = decide(&c, &mut st, Outcome::Exited(0), 10, 100);
    assert_eq!(d, Decision::Stop(0));
    assert_eq!(st.remaining_retries, 3);
}

#[test]
fn term_signal_death_stops_despite_budget() {
    let c = cfg(3, 1, 3600, 0, 30);
    for sig in [SIGTERM, SIGQUIT, SIGINT] {
        let mut st = SupervisorState::new(&c);
        let d = decide(&c, &mut st, Outcome::Killed(sig), 10, 100);
        assert_eq!(d, Decision::Stop(128 + sig));
        assert_eq!(st.remaining_retries, 3);
    }
}

#[test]
fn non_term_signal_death_consumes_budget() {
    let c = cfg(3, 1, 3600, 0, 30);
    let mut st = SupervisorState::new(&c);
    let d = decide(&c, &mut st, Outcome::Killed(SIGUSR1), 10, 100);
    assert_eq!(d, Decision::Restart);
    assert_eq!(st.remaining_retries, 2);
}

#[test]
fn fast_failure_stops_at_once() {
    let c = cfg(5, 3, 3600, 0, 30);
    let mut st = SupervisorState::new(&c);
    let d = decide(&c, &mut st, Outcome::Exited(1), 2, 100);
    assert_eq!(d, Decision::Stop(1));
    assert_eq!(st.remaining_retries, 5);
}

#[test]
fn fast_fail_disabled_by_zero_threshold() {
    let c = cfg(5, 0, 3600, 0, 30);
    let mut st = SupervisorState::new(&c);
    let d = decide(&c, &mut st, Outcome::Exited(1), 0, 100);
    assert_eq!(d, Decision::Restart);
    assert_eq!(st.remaining_retries, 4);
}

#[test]
fn zero_budget_never_retries() {
    let c = cfg(0, 1, 3600, 0, 30);
    let mut st = SupervisorState::new(&c);
    let d = decide(&c, &mut st, Outcome::Exited(5), 10, 100);
    assert_eq!(d, Decision::Stop(5));
}

#[test]
fn budget_of_three_pays_for_three_attempts() {
    let c = cfg(3, 1, 3600, 0, 30);
    let mut st = SupervisorState::new(&c);
    assert_eq!(decide(&c, &mut st, Outcome::Exited(2), 10, 100), Decision::Restart);
    assert_eq!(st.remaining_retries, 2);
    assert_eq!(decide(&c, &mut st, Outcome::Exited(2), 10, 200), Decision::Restart);
    assert_eq!(st.remaining_retries, 1);
    assert_eq!(decide(&c, &mut st, Outcome::Exited(2), 10, 300), Decision::Stop(2));
    assert_eq!(st.remaining_retries, 0);
}

#[test]
fn budget_of_one_stops_on_first_failure() {
    let c = cfg(1, 1, 3600, 0, 30);
    let mut st = SupervisorState::new(&c);
    assert_eq!(decide(&c, &mut st, Outcome::Exited(2), 10, 100), Decision::Stop(2));
    assert_eq!(st.remaining_retries, 0);
}

#[test]
fn long_stable_run_refreshes_budget() {
    let c = cfg(3, 1, 60, 0, 30);
    let mut st = SupervisorState::new(&c);
    assert_eq!(decide(&c, &mut st, Outcome::Exited(2), 10, 100), Decision::Restart);
    assert_eq!(decide(&c, &mut st, Outcome::Exited(2), 10, 200), Decision::Restart);
    assert_eq!(st.remaining_retries, 1);
    // ran 61 s > 60 s: the budget is restored to 3 before this failure pays one
    assert_eq!(decide(&c, &mut st, Outcome::Exited(2), 61, 300), Decision::Restart);
    assert_eq!(st.remaining_retries, 2);
}

#[test]
fn reset_disabled_by_zero_threshold() {
    let c = cfg(2, 1, 0, 0, 30);
    let mut st = SupervisorState::new(&c);
    assert_eq!(decide(&c, &mut st, Outcome::Exited(2), 5000, 100), Decision::Restart);
    assert_eq!(st.remaining_retries, 1);
}

#[test]
fn restart_trigger_is_consumed_not_forwarded() {
    let c = cfg(3, 1, 3600, SIGUSR2, 30);
    let mut st = SupervisorState::new(&c);
    let a = on_signal(&c, &mut st, SIGUSR2, 50);
    assert!(matches!(a, restarter::signals::SignalAction::RestartTrigger));
    assert!(st.force_restart);
    assert_eq!(st.restart_received_at, 50);
}

#[test]
fn forced_restart_within_window_bypasses_everything() {
    let c = cfg(3, 1, 3600, SIGUSR2, 30);
    let mut st = SupervisorState::new(&c);
    on_signal(&c, &mut st, SIGUSR2, 50);
    // clean exit 20 s after the request: restarted anyway, budget untouched
    let d = decide(&c, &mut st, Outcome::Exited(0), 10, 70);
    assert_eq!(d, Decision::Restart);
    assert_eq!(st.remaining_retries, 3);
    assert!(!st.force_restart);
}

#[test]
fn forced_restart_ignores_exhausted_budget() {
    let c = cfg(1, 0, 3600, SIGUSR2, 30);
    let mut st = SupervisorState::new(&c);
    on_signal(&c, &mut st, SIGUSR2, 50);
    let d = decide(&c, &mut st, Outcome::Exited(1), 10, 60);
    assert_eq!(d, Decision::Restart);
    assert_eq!(st.remaining_retries, 1);
}

#[test]
fn expired_request_falls_back_to_ordinary_policy() {
    let c = cfg(3, 1, 3600, SIGUSR2, 30);
    let mut st = SupervisorState::new(&c);
    on_signal(&c, &mut st, SIGUSR2, 50);
    // the child exits 40 s after the request, outside the 30 s window
    let d = decide(&c, &mut st, Outcome::Exited(0), 10, 90);
    assert_eq!(d, Decision::Stop(0));
    assert!(!st.force_restart);
}

#[test]
fn zero_window_request_never_expires() {
    let c = cfg(3, 1, 3600, SIGUSR2, 0);
    let mut st = SupervisorState::new(&c);
    on_signal(&c, &mut st, SIGUSR2, 50);
    let d = decide(&c, &mut st, Outcome::Exited(1), 10, 100_000);
    assert_eq!(d, Decision::Restart);
    assert_eq!(st.remaining_retries, 3);
}

#[test]
fn repeated_trigger_restarts_the_window() {
    let c = cfg(3, 1, 3600, SIGUSR2, 30);
    let mut st = SupervisorState::new(&c);
    on_signal(&c, &mut st, SIGUSR2, 50);
    on_signal(&c, &mut st, SIGUSR2, 100);
    assert_eq!(st.restart_received_at, 100);
    // 75 s after the first request, but only 25 s after the second:
    // the window runs from the latest request, so the restart is honoured
    let d = decide(&c, &mut st, Outcome::Exited(1), 10, 125);
    assert_eq!(d, Decision::Restart);
}

#[test]
fn ordinary_signals_are_forwarded_unchanged() {
    let c = cfg(3, 1, 3600, SIGUSR2, 30);
    let mut st = SupervisorState::new(&c);
    let a = on_signal(&c, &mut st, SIGHUP, 50);
    assert!(matches!(a, restarter::signals::SignalAction::Forward(s) if s == SIGHUP));
    assert!(!st.force_restart);
    let a2 = on_signal(&c, &mut st, SIGUSR1, 50);
    assert!(matches!(a2, restarter::signals::SignalAction::Forward(s) if s == SIGUSR1));
}

#[test]
fn child_termination_notification_ends_the_relay() {
    let c = cfg(3, 1, 3600, SIGUSR2, 30);
    let mut st = SupervisorState::new(&c);
    let a = on_signal(&c, &mut st, SIGCHLD, 50);
    assert!(matches!(a, restarter::signals::SignalAction::ChildTerminated));
    assert!(!st.force_restart);
}

#[test]
fn disabled_restart_signal_matches_nothing() {
    let c = cfg(3, 1, 3600, 0, 30);
    let mut st = SupervisorState::new(&c);
    for sig in allow_list() {
        let _ = on_signal(&c, &mut st, sig, 50);
        assert!(!st.force_restart);
    }
}

#[test]
fn allow_list_holds_the_intercepted_set() {
    let sigs = allow_list();
    assert_eq!(sigs.len(), 18);
    assert!(sigs.contains(&SIGCHLD));
    assert!(sigs.contains(&SIGTERM));
    assert!(sigs.contains(&SIGHUP));
    // the unmaskable and fault signals stay out
    assert!(!sigs.contains(&9)); // kill
    assert!(!sigs.contains(&19)); // stop
    assert!(!sigs.contains(&11)); // segmentation fault
    assert_eq!(
        sigs,
        vec![14, 18, 1, 2, 29, 13, 27, 3, 15, 20, 23, 10, 12, 26, 28, 24, 25, 17]
    );
}
