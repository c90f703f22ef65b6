//! Timeouts in the form in which the kernel takes them.

use vstd::prelude::*;

use crate::error::Error;

verus! {

/// A span of time: whole seconds, and nanoseconds of the second that has begun.
#[derive(Debug, PartialEq, Eq, Clone, Copy, Structural)]
pub struct Interval {
    pub secs: u64,
    pub nanos: u32,
}

/// A span of time in the kernel's form: seconds and microseconds.
#[derive(Debug, PartialEq, Eq, Clone, Copy, Structural)]
pub struct TimeVal {
    pub tv_sec: libc::time_t,
    pub tv_usec: libc::suseconds_t,
}

impl Interval {
    /// The nanoseconds make up less than a second.
    pub open spec fn wf(self) -> bool {
        self.nanos < 1_000_000_000
    }

    /// The length of this span, in nanoseconds.
    pub open spec fn length(self) -> int {
        self.secs * 1_000_000_000 + self.nanos
    }

    /// The kernel's form of this span, where it is not zero: the seconds, as many as fit, and the
    /// whole microseconds; one microsecond where that would be nothing at all.
    pub open spec fn timeval(self) -> TimeVal {
        let sec = if self.secs > libc::time_t::MAX {
            libc::time_t::MAX
        } else {
            self.secs as libc::time_t
        };
        let usec = (self.nanos / 1000) as libc::suseconds_t;
        if sec == 0 && usec == 0 {
            TimeVal { tv_sec: 0, tv_usec: 1 }
        } else {
            TimeVal { tv_sec: sec, tv_usec: usec }
        }
    }
}

impl TimeVal {
    /// The value by which the kernel is told that there is no timeout.
    pub open spec fn none() -> TimeVal {
        TimeVal { tv_sec: 0, tv_usec: 0 }
    }

    /// The length of this span, in microseconds.
    pub open spec fn length(self) -> int {
        self.tv_sec * 1_000_000 + self.tv_usec
    }
}

/// The kernel's form of a timeout: no timeout is all zeros, and a timeout of zero is refused.
pub fn timeval_from_duration(dur: Option<Interval>) -> (timeout: Result<TimeVal, Error>)
    ensures
        timeout == (match dur {
            None => Ok(TimeVal::none()),
            Some(span) => if span.length() == 0 {
                Err(Error::ZeroDurationTimeout)
            } else {
                Ok(span.timeval())
            },
        }),
{
    match dur {
        Some(span) => {
            if span.secs == 0 && span.nanos == 0 {
                return Err(Error::ZeroDurationTimeout);
            }
            let secs: libc::time_t = if span.secs > libc::time_t::MAX as u64 {
                libc::time_t::MAX
            } else {
                span.secs as libc::time_t
            };
            let micros: libc::suseconds_t = (span.nanos / 1000) as libc::suseconds_t;
            let mut timeout = TimeVal { tv_sec: secs, tv_usec: micros };
            if timeout.tv_sec == 0 && timeout.tv_usec == 0 {
                timeout.tv_usec = 1;
            }
            Ok(timeout)
        },
        None => Ok(TimeVal { tv_sec: 0, tv_usec: 0 }),
    }
}

} // verus!
