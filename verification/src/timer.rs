//! A simple timer for benchmarking function runtimes. What the clock reads
//! is up to the machine; the decomposition of a nanosecond count into a
//! readable summary is exact.

use vstd::prelude::*;
use vstd::string::StringExecFns;

use crate::util::time_chars;
use crate::util::time_from;

verus! {

#[verifier::external_type_specification]
#[verifier::external_body]
pub struct ExInstant(std::time::Instant);

/// Relies on `std::time::Instant::now`: an opaque measurement of the
/// monotonic clock. Nothing is assumed about its value.
#[verifier::external_body]
fn instant_now() -> std::time::Instant {
    std::time::Instant::now()
}

/// Relies on `std::time::Instant::elapsed` and `Duration::as_nanos`: the
/// nanoseconds the clock moved since the instant was taken. The value
/// depends on the clock, so nothing is assumed about it.
#[verifier::external_body]
fn elapsed_nanos(start: &std::time::Instant) -> u128 {
    start.elapsed().as_nanos()
}

/// A timer: it starts running when built and reports, on demand, how long it
/// has been running, under a fixed message.
pub struct Timer {
    start_t: std::time::Instant,
    is_running: bool,
    msg: &'static str,
}

impl Timer {
    /// Whether the timer is still running.
    pub closed spec fn running(&self) -> bool {
        self.is_running
    }

    /// The message under which the timer reports.
    pub closed spec fn message(&self) -> Seq<char> {
        self.msg@
    }

    /// Start a timer now.
    pub fn new(msg: &'static str) -> (t: Timer)
        ensures
            t.running(),
            t.message() == msg@,
    {
        Timer { start_t: instant_now(), is_running: true, msg }
    }

    /// Report how long the timer has been running so far, without stopping
    /// it. What the clock read is up to the machine; the summary shape is
    /// fixed.
    pub fn lap(&self) -> (s: String)
        ensures
            exists|elapsed: u128|
                s@ == self.message() + " "@ + "currently"@ + " in "@ + time_chars(elapsed as int),
    {
        let elapsed = elapsed_nanos(&self.start_t);
        let s = self.summary("currently", elapsed);
        proof {
            assert(s@ == self.message() + " "@ + "currently"@ + " in "@ + time_chars(
                elapsed as int,
            ));
        }
        s
    }

    /// Stop the timer and hand out how long it ran; a timer that was already
    /// stopped reports zero and stays as it is.
    pub fn stop(&mut self) -> (elapsed: u128)
        ensures
            !final(self).running(),
            final(self).message() == old(self).message(),
            !old(self).running() ==> elapsed == 0 && *final(self) == *old(self),
    {
        if !self.is_running {
            return 0;
        }
        let elapsed = elapsed_nanos(&self.start_t);
        self.is_running = false;
        elapsed
    }

    /// Stop the timer without a summary.
    pub fn stop_silent(&mut self) -> (elapsed: u128)
        ensures
            !final(self).running(),
            final(self).message() == old(self).message(),
    {
        let elapsed = elapsed_nanos(&self.start_t);
        self.is_running = false;
        elapsed
    }

    /// Render one report line: the timer's message, a verb, and the elapsed
    /// nanoseconds split into `seconds:milliseconds:microseconds:nanoseconds`.
    pub fn summary(&self, verb: &str, elapsed: u128) -> (s: String)
        ensures
            s@ == self.message() + " "@ + verb@ + " in "@ + time_chars(elapsed as int),
    {
        proof {
            reveal_strlit(" ");
            reveal_strlit(" in ");
        }
        let mut s = String::from_str(self.msg);
        s.append(" ");
        s.append(verb);
        s.append(" in ");
        s.append(time_from(elapsed).as_str());
        s
    }
}

} // verus!
