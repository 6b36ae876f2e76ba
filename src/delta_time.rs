//! Differences between successive samples of a monotonic quantity, such as
//! the time of each frame.

use vstd::prelude::*;

verus! {

/// Subtraction that reports when the difference does not fit in the type.
pub trait CheckedDelta: Sized + Copy {
    /// `self - earlier`, or `None` where that is out of the type's range.
    spec fn spec_delta(self, earlier: Self) -> Option<Self>;

    fn checked_delta(&self, earlier: &Self) -> (r: Option<Self>)
        ensures
            r == self.spec_delta(*earlier),
    ;
}

impl CheckedDelta for u32 {
    open spec fn spec_delta(self, earlier: u32) -> Option<u32> {
        if self >= earlier {
            Some((self - earlier) as u32)
        } else {
            None
        }
    }

    fn checked_delta(&self, earlier: &u32) -> (r: Option<u32>) {
        self.checked_sub(*earlier)
    }
}

impl CheckedDelta for u64 {
    open spec fn spec_delta(self, earlier: u64) -> Option<u64> {
        if self >= earlier {
            Some((self - earlier) as u64)
        } else {
            None
        }
    }

    fn checked_delta(&self, earlier: &u64) -> (r: Option<u64>) {
        self.checked_sub(*earlier)
    }
}

impl CheckedDelta for u128 {
    open spec fn spec_delta(self, earlier: u128) -> Option<u128> {
        if self >= earlier {
            Some((self - earlier) as u128)
        } else {
            None
        }
    }

    fn checked_delta(&self, earlier: &u128) -> (r: Option<u128>) {
        self.checked_sub(*earlier)
    }
}

impl CheckedDelta for usize {
    open spec fn spec_delta(self, earlier: usize) -> Option<usize> {
        if self >= earlier {
            Some((self - earlier) as usize)
        } else {
            None
        }
    }

    fn checked_delta(&self, earlier: &usize) -> (r: Option<usize>) {
        self.checked_sub(*earlier)
    }
}

impl CheckedDelta for i64 {
    open spec fn spec_delta(self, earlier: i64) -> Option<i64> {
        if i64::MIN <= self - earlier <= i64::MAX {
            Some((self - earlier) as i64)
        } else {
            None
        }
    }

    fn checked_delta(&self, earlier: &i64) -> (r: Option<i64>) {
        self.checked_sub(*earlier)
    }
}

/// The last accepted sample of a quantity; each new sample yields its
/// difference from that one.
#[derive(Debug, Clone)]
pub struct DeltaValue<T> {
    prev: T,
}

impl<T> DeltaValue<T> {
    /// The sample that the next difference is taken from.
    pub closed spec fn previous(&self) -> T {
        self.prev
    }

    pub fn new(time: T) -> (r: Self)
        ensures
            r.previous() == time,
    {
        Self { prev: time }
    }
}

impl<T: CheckedDelta> DeltaValue<T> {
    /// Returns `now` minus the previous sample and keeps `now` as the new
    /// previous sample. Where the difference does not fit in `T`, returns
    /// `None` and keeps the previous sample.
    pub fn update(&mut self, now: T) -> (r: Option<T>)
        ensures
            r == now.spec_delta(old(self).previous()),
            final(self).previous() == (if r is Some {
                now
            } else {
                old(self).previous()
            }),
    {
        let delta = now.checked_delta(&self.prev);
        if delta.is_some() {
            self.prev = now;
        }
        delta
    }
}

/// Time from `earlier` to `now` in nanoseconds; zero where `now` comes first.
pub open spec fn elapsed(now: u64, earlier: u64) -> u64 {
    if now >= earlier {
        (now - earlier) as u64
    } else {
        0
    }
}

/// Time between successive frames. Timestamps are nanoseconds on a
/// monotonic clock, counted from an origin that the caller picks.
#[derive(Debug, Clone, Copy, PartialEq, Eq, Structural)]
pub struct DeltaTime {
    prev_time: u64,
    prev_delta: Option<u64>,
}

impl DeltaTime {
    /// The timestamp of the latest sample.
    pub closed spec fn previous_time(&self) -> u64 {
        self.prev_time
    }

    /// The time between the two latest samples; `None` until there are two.
    pub closed spec fn last_delta(&self) -> Option<u64> {
        self.prev_delta
    }

    pub fn new(time: u64) -> (r: Self)
        ensures
            r.previous_time() == time,
            r.last_delta() is None,
    {
        Self { prev_time: time, prev_delta: None }
    }

    /// Records a sample: the delta becomes the time since the previous
    /// sample, and `now` the previous sample.
    pub fn update(&mut self, now: u64)
        ensures
            final(self).previous_time() == now,
            final(self).last_delta() == Some(elapsed(now, old(self).previous_time())),
    {
        let delta = now.saturating_sub(self.prev_time);
        self.prev_time = now;
        self.prev_delta = Some(delta);
    }

    pub fn delta(&self) -> (r: Option<u64>)
        ensures
            r == self.last_delta(),
    {
        self.prev_delta
    }
}

} // verus!
