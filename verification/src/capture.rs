//! The capture loop's control state: cooperative stop and the
//! consecutive-error backoff.  The loop itself — reading frames, taking
//! locks — runs outside this crate and reports each event here.

use vstd::prelude::*;

verus! {

/// How long the loop pauses after a failed read, in milliseconds, so a
/// persistently failing source does not spin the CPU.
pub const ERROR_BACKOFF_MS: u64 = 10;

/// Every how many consecutive errors one occurrence may be logged, beyond
/// the first.
pub const ERROR_LOG_INTERVAL: u64 = 100;

/// The life cycle of the capture loop: running until the stop signal is
/// observed, stopping once it has been, stopped when the loop has exited.
#[derive(Debug, Clone, Copy, PartialEq, Eq, Structural)]
pub enum CaptureState {
    Running,
    Stopping,
    Stopped,
}

/// The decisions of the capture loop, one iteration at a time: whether to
/// read another frame, and how to respond to read errors.
pub struct CaptureController {
    state: CaptureState,
    consecutive_errors: u64,
}

impl CaptureController {
    /// The current life-cycle state.
    pub closed spec fn spec_state(&self) -> CaptureState {
        self.state
    }

    /// How many reads in a row have failed.
    pub closed spec fn spec_consecutive_errors(&self) -> u64 {
        self.consecutive_errors
    }

    /// A fresh controller: running, no errors seen.
    pub fn new() -> (c: CaptureController)
        ensures
            c.spec_state() == CaptureState::Running,
            c.spec_consecutive_errors() == 0,
    {
        CaptureController { state: CaptureState::Running, consecutive_errors: 0 }
    }

    /// The current life-cycle state.
    pub fn state(&self) -> (s: CaptureState)
        ensures
            s == self.spec_state(),
    {
        self.state
    }

    /// Checks the cooperative stop signal once, at the top of an
    /// iteration.  A set signal moves the loop to `Stopping` and tells it
    /// not to read another frame; otherwise the loop stays `Running` and
    /// proceeds.  The signal is checked only here, never preemptively, so
    /// an in-flight frame always completes.
    pub fn observe_signal(&mut self, stop_requested: bool) -> (proceed: bool)
        requires
            old(self).spec_state() == CaptureState::Running,
        ensures
            proceed == !stop_requested,
            final(self).spec_state() == if stop_requested {
                CaptureState::Stopping
            } else {
                CaptureState::Running
            },
            final(self).spec_consecutive_errors() == old(self).spec_consecutive_errors(),
    {
        if stop_requested {
            self.state = CaptureState::Stopping;
            false
        } else {
            true
        }
    }

    /// Marks the loop exited after it observed the stop signal; no frame
    /// is read after this.
    pub fn finish(&mut self)
        requires
            old(self).spec_state() == CaptureState::Stopping,
        ensures
            final(self).spec_state() == CaptureState::Stopped,
            final(self).spec_consecutive_errors() == old(self).spec_consecutive_errors(),
    {
        self.state = CaptureState::Stopped;
    }

    /// Notes a successfully read frame: the error streak is over.
    pub fn on_frame_ok(&mut self)
        requires
            old(self).spec_state() == CaptureState::Running,
        ensures
            final(self).spec_state() == CaptureState::Running,
            final(self).spec_consecutive_errors() == 0,
    {
        self.consecutive_errors = 0;
    }

    /// Notes a failed read: the loop does not terminate on read errors,
    /// it backs off briefly and retries, so the returned delay bounds the
    /// spin.  The error streak grows by one, saturating.
    pub fn on_read_error(&mut self) -> (delay_ms: u64)
        requires
            old(self).spec_state() == CaptureState::Running,
        ensures
            delay_ms == ERROR_BACKOFF_MS,
            final(self).spec_state() == CaptureState::Running,
            final(self).spec_consecutive_errors() == old(
                self,
            ).spec_consecutive_errors().saturating_add(1),
    {
        self.consecutive_errors = self.consecutive_errors.saturating_add(1);
        ERROR_BACKOFF_MS
    }

    /// Whether this error occurrence is one of the sampled few worth
    /// logging: the first of a streak, and every hundredth after it —
    /// never per-packet noise, and nothing at all outside a streak.
    pub fn should_log_error(&self) -> (r: bool)
        ensures
            r == (self.spec_consecutive_errors() == 1 || (self.spec_consecutive_errors() > 0
                && self.spec_consecutive_errors() % ERROR_LOG_INTERVAL == 0)),
    {
        self.consecutive_errors == 1 || (self.consecutive_errors > 0 && self.consecutive_errors
            % ERROR_LOG_INTERVAL == 0)
    }
}

} // verus!
