//! The signal allow-list and the relay's per-signal classification.

use vstd::prelude::*;
use crate::config::Config;

verus! {

// Signal numbers of the platform (Linux x86-64), named here so that
// contracts can speak of them. The relay never handles the unmaskable or
// fault signals, so only the intercepted set needs names.
pub const SIGHUP: i32 = 1;
pub const SIGINT: i32 = 2;
pub const SIGQUIT: i32 = 3;
pub const SIGUSR1: i32 = 10;
pub const SIGUSR2: i32 = 12;
pub const SIGPIPE: i32 = 13;
pub const SIGALRM: i32 = 14;
pub const SIGTERM: i32 = 15;
pub const SIGCHLD: i32 = 17;
pub const SIGCONT: i32 = 18;
pub const SIGTSTP: i32 = 20;
pub const SIGURG: i32 = 23;
pub const SIGXCPU: i32 = 24;
pub const SIGXFSZ: i32 = 25;
pub const SIGVTALRM: i32 = 26;
pub const SIGPROF: i32 = 27;
pub const SIGWINCH: i32 = 28;
pub const SIGIO: i32 = 29;

/// The signals the supervisor intercepts while a child is alive: everything
/// except the fault signals, kill/stop, and the signals that cannot be
/// meaningfully caught. The child-termination notification (`SIGCHLD`) is
/// included, since it is how the relay learns that the child has exited.
pub open spec fn allowed_signals() -> Seq<i32> {
    seq![
        SIGALRM, SIGCONT, SIGHUP, SIGINT, SIGIO, SIGPIPE, SIGPROF, SIGQUIT, SIGTERM,
        SIGTSTP, SIGURG, SIGUSR1, SIGUSR2, SIGVTALRM, SIGWINCH, SIGXCPU, SIGXFSZ, SIGCHLD,
    ]
}

/// Whether a signal is on the interception allow-list.
pub open spec fn is_allowed(sig: i32) -> bool {
    allowed_signals().contains(sig)
}

/// The interception allow-list as a vector, in a fixed order, for the
/// embedding program to register with the operating system before the first
/// child is spawned.
pub fn allow_list() -> (sigs: Vec<i32>)
    ensures
        sigs@ == allowed_signals(),
{
    let mut sigs: Vec<i32> = Vec::new();
    sigs.push(SIGALRM);
    sigs.push(SIGCONT);
    sigs.push(SIGHUP);
    sigs.push(SIGINT);
    sigs.push(SIGIO);
    sigs.push(SIGPIPE);
    sigs.push(SIGPROF);
    sigs.push(SIGQUIT);
    sigs.push(SIGTERM);
    sigs.push(SIGTSTP);
    sigs.push(SIGURG);
    sigs.push(SIGUSR1);
    sigs.push(SIGUSR2);
    sigs.push(SIGVTALRM);
    sigs.push(SIGWINCH);
    sigs.push(SIGXCPU);
    sigs.push(SIGXFSZ);
    sigs.push(SIGCHLD);
    proof {
        assert(sigs@ =~= allowed_signals());
    }
    sigs
}

/// What the relay does with one intercepted signal while the child is alive.
#[derive(Clone, Copy, PartialEq, Eq, Structural, Debug)]
pub enum SignalAction {
    /// Consume the signal as a forced-restart request; nothing reaches the child.
    RestartTrigger,
    /// The child-termination notification arrived: stop relaying, reap the child.
    ChildTerminated,
    /// Deliver the signal, exactly as received, to the child process.
    Forward(i32),
}

/// The relay's classification of one intercepted signal: a forced-restart
/// request is recognized first, then the child-termination notification;
/// every other signal is forwarded to the child.
pub open spec fn signal_action_spec(cfg: Config, sig: i32) -> SignalAction {
    if sig == cfg.restart_signal {
        SignalAction::RestartTrigger
    } else if sig == SIGCHLD {
        SignalAction::ChildTerminated
    } else {
        SignalAction::Forward(sig)
    }
}

/// The conventional "shut down" signals: an operator sending one of these
/// means the supervised service should stop, so the supervisor must not
/// relaunch a child they killed.
pub open spec fn is_term_signal_spec(sig: i32) -> bool {
    sig == SIGTERM || sig == SIGQUIT || sig == SIGINT
}

/// Relies on `signal_hook::consts::TERM_SIGNALS`, which on Unix is exactly
/// `[SIGTERM, SIGQUIT, SIGINT]`: the call tests membership in that set.
#[verifier::external_body]
pub(crate) fn is_term_signal(sig: i32) -> (r: bool)
    ensures
        r == is_term_signal_spec(sig),
{
    signal_hook::consts::TERM_SIGNALS.contains(&sig)
}

} // verus!
