use core::time::Duration;
use std::time::Instant;
use vstd::prelude::*;

verus! {

#[verifier::external_type_specification]
#[verifier::external_body]
pub struct ExInstant(Instant);

/// Relies on `std::time::Instant::now`: a reading of the monotonic clock.
#[verifier::external_body]
fn instant_now() -> Instant {
    Instant::now()
}

/// Relies on `std::time::Instant::elapsed`: the time since `origin` on the
/// monotonic clock.
#[verifier::external_body]
fn time_since(origin: &Instant) -> Duration {
    origin.elapsed()
}

/// Relies on `core::time::Duration::as_nanos`: the whole duration in nanoseconds.
#[verifier::external_body]
fn duration_nanos(d: &Duration) -> u128 {
    d.as_nanos()
}

/// Measures time since it was started, in nanoseconds of a monotonic clock that
/// counts from the clock's creation. `start_time` is `None` while stopped;
/// `elapsed` changes only through an update of a started clock. `last_reading`
/// is the latest reading of the time source; readings never go below it.
#[derive(Clone, Copy, Debug)]
pub struct Clock {
    pub origin: Instant,
    pub start_time: Option<u64>,
    pub elapsed: u64,
    pub last_reading: u64,
}

impl Clock {
    /// A started clock began no later than the latest reading, and has measured
    /// no more than the time from its start to that reading.
    pub open spec fn wf(self) -> bool {
        self.start_time matches Some(s) ==> s <= self.last_reading && self.elapsed
            <= self.last_reading - s
    }

    /// The clock after the time source was read as `now`.
    pub open spec fn with_reading(self, now: u64) -> Clock {
        Clock { last_reading: now, ..self }
    }

    /// The clock after it was started at `now`.
    pub open spec fn started_at(self, now: u64) -> Clock {
        Clock { start_time: Some(now), elapsed: 0, ..self }
    }

    /// The clock after an update at `now`: a started clock measures from its
    /// start (nothing when `now` lies before it); a stopped one is unchanged.
    pub open spec fn updated_at(self, now: u64) -> Clock {
        match self.start_time {
            Some(s) => Clock { elapsed: if now >= s { (now - s) as u64 } else { 0 }, ..self },
            None => self,
        }
    }

    /// The clock after it was stopped: the elapsed time stays readable.
    pub open spec fn stopped(self) -> Clock {
        Clock { start_time: None, ..self }
    }

    /// A stopped clock with nothing elapsed, counting from now.
    pub fn new() -> (r: Clock)
        ensures
            r.start_time is None,
            r.elapsed == 0,
            r.last_reading == 0,
            r.wf(),
    {
        Clock { origin: instant_now(), start_time: None, elapsed: 0, last_reading: 0 }
    }

    /// Nanoseconds since the clock was created, saturating at `u64::MAX`; never
    /// below an earlier reading of the same clock.
    pub fn get_absolute_time(&mut self) -> (r: u64)
        ensures
            r >= old(self).last_reading,
            *final(self) == old(self).with_reading(r),
    {
        let d = time_since(&self.origin);
        let n = duration_nanos(&d);
        let reading: u64 = if n > u64::MAX as u128 {
            u64::MAX
        } else {
            n as u64
        };
        let r = if reading >= self.last_reading {
            reading
        } else {
            self.last_reading
        };
        self.last_reading = r;
        r
    }

    /// Starts the clock at `now`; resets the elapsed time.
    pub fn start_at(&mut self, now: u64)
        ensures
            *final(self) == old(self).started_at(now),
    {
        self.start_time = Some(now);
        self.elapsed = 0;
    }

    /// Updates the elapsed time of a started clock to `now`; a stopped clock is
    /// left as it is.
    pub fn update_at(&mut self, now: u64)
        ensures
            *final(self) == old(self).updated_at(now),
    {
        match self.start_time {
            Some(s) => {
                self.elapsed = if now >= s {
                    now - s
                } else {
                    0
                };
            },
            None => {},
        }
    }

    /// Starts the clock at the current time; resets the elapsed time.
    pub fn start(&mut self)
        ensures
            exists|now: u64|
                now >= old(self).last_reading && *final(self) == old(self).with_reading(
                    now,
                ).started_at(now),
            final(self).wf(),
    {
        let now = self.get_absolute_time();
        self.start_at(now);
        assert(*self == old(self).with_reading(now).started_at(now));
    }

    /// Updates the elapsed time of a started clock to the current time; a
    /// stopped clock is left as it is.
    /// Within a well-formed clock the elapsed time never decreases.
    pub fn update(&mut self)
        ensures
            exists|now: u64|
                now >= old(self).last_reading && *final(self) == old(self).with_reading(
                    now,
                ).updated_at(now),
            final(self).start_time == old(self).start_time,
            old(self).start_time is None ==> final(self).elapsed == old(self).elapsed,
            old(self).wf() ==> final(self).wf() && final(self).elapsed >= old(self).elapsed,
    {
        let now = self.get_absolute_time();
        self.update_at(now);
        assert(*self == old(self).with_reading(now).updated_at(now));
    }

    /// Stops the clock without resetting the elapsed time.
    pub fn stop(&mut self)
        ensures
            *final(self) == old(self).stopped(),
            final(self).wf(),
    {
        self.start_time = None;
    }
}

/// Right after a start nothing has elapsed, and between two updates the elapsed
/// time grows by exactly the time that passed between them.
pub proof fn lemma_elapsed_follows_time(c: Clock, t0: u64, t1: u64, t2: u64)
    requires
        t0 <= t1 <= t2,
    ensures
        c.started_at(t0).elapsed == 0,
        c.started_at(t0).updated_at(t1).updated_at(t2).elapsed - c.started_at(t0).updated_at(
            t1,
        ).elapsed == t2 - t1,
{
}

/// Between two updates of a started, well-formed clock, at readings `t1` and
/// then `t2` of the time source (which never go backwards), the elapsed time
/// does not decrease and grows by exactly `t2 - t1`.
pub proof fn lemma_updates_track_readings(c: Clock, t1: u64, t2: u64)
    requires
        c.wf(),
        c.start_time is Some,
        c.last_reading <= t1 <= t2,
    ensures
        ({
            let c1 = c.with_reading(t1).updated_at(t1);
            let c2 = c1.with_reading(t2).updated_at(t2);
            &&& c1.wf()
            &&& c2.wf()
            &&& c.elapsed <= c1.elapsed <= c2.elapsed
            &&& c2.elapsed - c1.elapsed == t2 - t1
        }),
{
}

} // verus!
