//! The countdown that every bullet carries.

use bevy::time::{Timer, TimerMode};
use std::time::Duration;
use vstd::prelude::*;

verus! {

/// How long a bullet lives: three seconds, in nanoseconds.
pub const BULLET_DESPAWN_TIME: u64 = 3_000_000_000;

/// A run-once countdown: the time gathered so far and the time at which it
/// is over, both in nanoseconds.
#[derive(Clone, Copy, Debug, PartialEq, Eq, Structural)]
pub struct Lifetime {
    pub elapsed: u64,
    pub duration: u64,
}

impl Lifetime {
    /// Whether `delta` more nanoseconds bring the countdown to its end.
    pub open spec fn expires(self, delta: u64) -> bool {
        self.elapsed + delta >= self.duration
    }

    /// The countdown after `delta` more nanoseconds. The gathered time
    /// grows by `delta` and stops at `duration`.
    pub open spec fn ticked(self, delta: u64) -> Lifetime {
        Lifetime {
            elapsed: if self.expires(delta) {
                self.duration
            } else {
                (self.elapsed + delta) as u64
            },
            duration: self.duration,
        }
    }

    /// A countdown of `duration` nanoseconds on which no time has passed.
    pub fn new(duration: u64) -> (lifetime: Lifetime)
        ensures
            lifetime == (Lifetime { elapsed: 0, duration }),
    {
        Lifetime { elapsed: 0, duration }
    }

    /// Lets `delta` nanoseconds pass and reports whether the countdown is
    /// over.
    pub fn tick(&mut self, delta: u64) -> (finished: bool)
        ensures
            *final(self) == old(self).ticked(delta),
            finished == old(self).expires(delta),
    {
        let (elapsed, finished) = tick_once(self.elapsed, self.duration, delta);
        self.elapsed = elapsed;
        finished
    }
}

/// One `tick` of a `bevy::time::Timer` in `TimerMode::Once`.
///
/// The timer is made with `Timer::new` for `duration` nanoseconds, set to
/// `elapsed` with `set_elapsed`, and ticked by `delta`. Trusted, not proved:
/// such a tick adds `delta` to the elapsed time; the timer is finished when
/// the sum has reached the duration, and the elapsed time is then held at
/// the duration. The result is the elapsed time afterwards, as `elapsed()`
/// gives it, and what `finished()` answers.
#[verifier::external_body]
fn tick_once(elapsed: u64, duration: u64, delta: u64) -> (out: (u64, bool))
    ensures
        out.1 == (elapsed + delta >= duration),
        out.0 == if elapsed + delta >= duration {
            duration as int
        } else {
            elapsed + delta
        },
{
    let mut timer = Timer::new(Duration::from_nanos(duration), TimerMode::Once);
    timer.set_elapsed(Duration::from_nanos(elapsed));
    timer.tick(Duration::from_nanos(delta));
    (timer.elapsed().as_nanos() as u64, timer.finished())
}

} // verus!
