use vstd::prelude::*;

verus! {

/// A balance split into a real part and a bonus part.
#[derive(Clone, Copy, Debug, PartialEq, Eq, Structural)]
pub struct Money {
    pub real: u64,
    pub bonus: u64,
}

/// Subtraction that stops at zero.
pub open spec fn clamped_sub(a: u64, b: u64) -> u64 {
    if a >= b {
        (a - b) as u64
    } else {
        0
    }
}

/// Whether the component-wise sum of two amounts fits.
pub open spec fn sum_fits(a: Money, b: Money) -> bool {
    a.real + b.real <= u64::MAX && a.bonus + b.bonus <= u64::MAX
}

impl Money {
    pub open spec fn spec_add(self, o: Money) -> Money {
        Money { real: (self.real + o.real) as u64, bonus: (self.bonus + o.bonus) as u64 }
    }

    pub open spec fn spec_subtract(self, o: Money) -> Money {
        Money { real: clamped_sub(self.real, o.real), bonus: clamped_sub(self.bonus, o.bonus) }
    }

    pub fn new(real_part: u64, bonus_part: u64) -> (r: Money)
        ensures
            r.real == real_part,
            r.bonus == bonus_part,
    {
        Money { real: real_part, bonus: bonus_part }
    }

    /// Component-wise sum.
    pub fn add(self, o: Money) -> (r: Money)
        requires
            sum_fits(self, o),
        ensures
            r == self.spec_add(o),
            r.real == self.real + o.real,
            r.bonus == self.bonus + o.bonus,
    {
        Money { real: self.real + o.real, bonus: self.bonus + o.bonus }
    }

    /// Component-wise difference, each component stopping at zero.
    pub fn subtract(self, o: Money) -> (r: Money)
        ensures
            r == self.spec_subtract(o),
    {
        let real_part: u64 = if self.real >= o.real {
            self.real - o.real
        } else {
            0
        };
        let bonus_part: u64 = if self.bonus >= o.bonus {
            self.bonus - o.bonus
        } else {
            0
        };
        Money { real: real_part, bonus: bonus_part }
    }
}

impl Default for Money {
    fn default() -> (r: Money)
        ensures
            r == (Money { real: 0, bonus: 0 }),
    {
        Money { real: 0, bonus: 0 }
    }
}

} // verus!
