//! The supervisor's immutable policy settings.

use vstd::prelude::*;

verus! {

/// Policy settings, read once at startup by the embedding program and fixed
/// for the supervisor's lifetime. The child's executable path and argument
/// vector also belong to the startup input, but only the embedding program
/// touches them; the decision core never needs them.
#[derive(Clone, Copy, Debug)]
pub struct Config {
    /// Retry budget: how many relaunches a run of failures may consume.
    /// Zero means a failed child is never relaunched.
    pub retry: usize,
    /// Fast-fail threshold in seconds: a child that fails after running for
    /// less than this is considered to be crash-looping, and supervision
    /// stops. Zero disables the check.
    pub fast_fail_seconds: u64,
    /// Stability threshold in seconds: a child that ran for longer than this
    /// before failing earns a fresh retry budget. Zero disables the reset.
    pub reset_retries_seconds: u64,
    /// Signal number repurposed as a forced-restart request. Zero (no signal
    /// carries that number) disables the feature.
    pub restart_signal: i32,
    /// Seconds a forced-restart request stays valid while waiting for the
    /// child to exit. Zero means the request never expires.
    pub restart_wait_seconds: u64,
}

impl Config {
    /// Assemble a configuration from its five settings.
    pub fn new(
        retry: usize,
        fast_fail_seconds: u64,
        reset_retries_seconds: u64,
        restart_signal: i32,
        restart_wait_seconds: u64,
    ) -> (cfg: Config)
        ensures
            cfg == (Config {
                retry,
                fast_fail_seconds,
                reset_retries_seconds,
                restart_signal,
                restart_wait_seconds,
            }),
    {
        Config { retry, fast_fail_seconds, reset_retries_seconds, restart_signal, restart_wait_seconds }
    }
}

} // verus!
