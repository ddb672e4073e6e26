use vstd::prelude::*;

verus! {

/// Number of hours in the clock's day.
pub open spec fn horas_no_dia() -> int {
    24
}

/// The hour that follows `h` on a 24-hour clock.
pub open spec fn proxima_hora(h: int) -> int {
    if h < 23 {
        h + 1
    } else {
        0
    }
}

/// The hour reached from `h` after `n` steps of the clock.
pub open spec fn avancar_horas(h: int, n: nat) -> int
    decreases n,
{
    if n == 0 {
        h
    } else {
        proxima_hora(avancar_horas(h, (n - 1) as nat))
    }
}

/// A simple 24-hour clock.
#[derive(Clone, Copy, Debug, PartialEq, Eq)]
pub struct Clock {
    /// Current hour, 24-hour format.
    pub hour: i32,
}

impl Clock {
    /// A valid hour lies in `0..24`.
    pub open spec fn wf(self) -> bool {
        0 <= self.hour < horas_no_dia()
    }

    /// The clock starts at noon.
    pub fn new() -> (c: Self)
        ensures
            c.hour == 12,
            c.wf(),
    {
        Self { hour: 12 }
    }

    /// Advances the clock by one hour, wrapping to 0 after 23.
    pub fn increment_hour(&mut self)
        ensures
            final(self).hour == proxima_hora(old(self).hour as int),
            old(self).wf() ==> final(self).wf(),
    {
        if self.hour < 23 {
            self.hour += 1
        } else {
            self.hour = 0
        }
    }
}

} // verus!
