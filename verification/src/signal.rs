use vstd::prelude::*;

verus! {

/// Two-phase shutdown state. `is_exiting` is set when an external interrupt
/// is observed; `is_closing` when an explicit stop request has begun the
/// teardown. Both flags are monotone: once set they are never cleared.
pub struct MajordomeSignal {
    pub is_exiting: bool,
    pub is_closing: bool,
}

/// The application-wide lifecycle:
/// `Running -> Exiting -> Closing -> Terminated`.
pub enum AppPhase {
    Running,
    Exiting,
    Closing,
    Terminated,
}

impl MajordomeSignal {
    pub fn new() -> (r: MajordomeSignal)
        ensures
            !r.is_exiting,
            !r.is_closing,
    {
        MajordomeSignal { is_exiting: false, is_closing: false }
    }

    /// An external interrupt was observed: flip the poll-able flag. Modules
    /// are not stopped by this transition.
    pub fn set_exiting(&mut self)
        ensures
            final(self).is_exiting,
            final(self).is_closing == old(self).is_closing,
    {
        self.is_exiting = true;
    }

    /// An explicit stop request begins the teardown.
    pub fn set_closing(&mut self)
        ensures
            final(self).is_closing,
            final(self).is_exiting == old(self).is_exiting,
    {
        self.is_closing = true;
    }

    /// The lifecycle phase this signal state is in, given how many tracked
    /// tasks are still running.
    pub open spec fn phase(self, tasks_left: nat) -> AppPhase {
        if self.is_closing {
            if tasks_left == 0 {
                AppPhase::Terminated
            } else {
                AppPhase::Closing
            }
        } else if self.is_exiting {
            AppPhase::Exiting
        } else {
            AppPhase::Running
        }
    }
}

/// The instant at which a sleeper racing a timer against one single-fire
/// signal wakes up: at the signal if it fires before the deadline (or fired
/// already), at the deadline otherwise.
pub open spec fn race_instant(start: int, deadline: int, signal_at: Option<u64>) -> int {
    match signal_at {
        Option::None => deadline,
        Option::Some(t) => {
            if t <= start {
                start
            } else if t < deadline {
                t as int
            } else {
                deadline
            }
        },
    }
}

/// The instant at which `sleep_until_closing(duration, ignore_exit)` started
/// at `start` wakes, given the instants (if any) at which the two shutdown
/// signals fire. With `ignore_exit` the sleeper watches only the `closing`
/// signal; otherwise only the `exiting` signal.
pub open spec fn wake_instant(
    start: int,
    duration: int,
    ignore_exit: bool,
    exit_at: Option<u64>,
    closing_at: Option<u64>,
) -> int {
    race_instant(start, start + duration, if ignore_exit { closing_at } else { exit_at })
}

/// Compute the wake instant of a sleep, as `wake_instant` states it. The
/// cooperative sleep itself suspends on a timer and a broadcast receiver;
/// this is the arbiter deciding which of the two wins.
pub fn sleep_wake_instant(
    start: u64,
    duration: u64,
    ignore_exit: bool,
    exit_at: Option<u64>,
    closing_at: Option<u64>,
) -> (r: u64)
    requires
        start + duration <= u64::MAX,
    ensures
        r == wake_instant(start as int, duration as int, ignore_exit, exit_at, closing_at),
{
    let deadline: u64 = start + duration;
    let watched: Option<u64> = if ignore_exit {
        closing_at
    } else {
        exit_at
    };
    match watched {
        None => deadline,
        Some(t) => {
            if t <= start {
                start
            } else if t < deadline {
                t
            } else {
                deadline
            }
        },
    }
}

/// Signal race: a sleep that does not ignore `exiting` wakes exactly when
/// the `exiting` signal fires mid-sleep, strictly before its deadline; the
/// same sleep with `ignore_exit` set does not react to `exiting` at all and
/// wakes on `closing` or at the deadline.
pub proof fn lemma_signal_race(
    start: u64,
    duration: u64,
    exit_at: u64,
    closing_at: Option<u64>,
)
    requires
        start <= exit_at < start + duration,
    ensures
        wake_instant(start as int, duration as int, false, Some(exit_at), closing_at) == exit_at,
        wake_instant(start as int, duration as int, false, Some(exit_at), closing_at) < start
            + duration,
        wake_instant(start as int, duration as int, true, Some(exit_at), closing_at)
            == wake_instant(start as int, duration as int, true, None, closing_at),
{
}

} // verus!
