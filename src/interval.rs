use vstd::prelude::*;

verus! {

/// A click interval as the four fields the user enters.
#[derive(PartialEq, Eq, Structural, Clone, Copy, Debug)]
pub struct IntervalSpec {
    pub hr: u64,
    pub min: u64,
    pub sec: u64,
    pub ms: u64,
}

impl IntervalSpec {
    /// The interval in milliseconds, as a mathematical integer.
    pub open spec fn total_ms(self) -> int {
        self.hr * 3_600_000 + self.min * 60_000 + self.sec * 1_000 + self.ms
    }

    /// The interval in milliseconds fits in a `u64`.
    pub open spec fn fits(self) -> bool {
        self.total_ms() <= u64::MAX
    }

    /// The interval in milliseconds: `hr*3_600_000 + min*60_000 + sec*1_000 + ms`.
    pub fn interval_ms(&self) -> (r: u64)
        requires
            self.fits(),
        ensures
            r == self.total_ms(),
    {
        self.hr * 3_600_000 + self.min * 60_000 + self.sec * 1_000 + self.ms
    }

    /// The interval in milliseconds, or `None` where it does not fit in a `u64`.
    pub fn checked_interval_ms(&self) -> (r: Option<u64>)
        ensures
            r == (if self.fits() { Some(self.total_ms() as u64) } else { None::<u64> }),
    {
        let h = self.hr.checked_mul(3_600_000);
        let m = self.min.checked_mul(60_000);
        let s = self.sec.checked_mul(1_000);
        match (h, m, s) {
            (Some(h), Some(m), Some(s)) => {
                match h.checked_add(m) {
                    Some(hm) => match hm.checked_add(s) {
                        Some(hms) => hms.checked_add(self.ms),
                        None => None,
                    },
                    None => None,
                }
            },
            _ => None,
        }
    }
}

} // verus!
