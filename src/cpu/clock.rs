use vstd::prelude::*;

verus! {

/// Elapsed machine cycles, and the sub-cycles that run four to a machine cycle.
#[derive(Clone, Copy, Debug, PartialEq, Eq, Structural)]
pub struct Clock {
    pub m_cycles: u64,
    pub t_cycles: u64,
}

impl Clock {
    /// The sub-cycle count is four times the machine-cycle count.
    pub open spec fn wf(self) -> bool {
        self.t_cycles == 4 * self.m_cycles
    }

    /// Both counters can still advance by `k` machine cycles.
    pub open spec fn room(self, k: int) -> bool {
        self.m_cycles + k <= u64::MAX && self.t_cycles + 4 * k <= u64::MAX
    }

    /// This clock after `k` more machine cycles.
    pub open spec fn after(self, k: int) -> Clock {
        Clock { m_cycles: (self.m_cycles + k) as u64, t_cycles: (self.t_cycles + 4 * k) as u64 }
    }

    /// This clock after one more machine cycle.
    pub open spec fn ticked(self) -> Clock {
        self.after(1)
    }

    /// This clock is `earlier` advanced by at most `k` machine cycles.
    pub open spec fn advanced(self, earlier: Clock, k: int) -> bool {
        &&& earlier.m_cycles <= self.m_cycles <= earlier.m_cycles + k
        &&& self.t_cycles == earlier.t_cycles + 4 * (self.m_cycles - earlier.m_cycles)
    }

    fn inc_cycle(&mut self, count: u8)
        requires
            old(self).room(count as int),
        ensures
            *final(self) == old(self).after(count as int),
    {
        self.m_cycles = self.m_cycles + count as u64;
        self.t_cycles = self.t_cycles + count as u64 * 4;
    }

    /// Advances the clock by one machine cycle (four sub-cycles).
    pub fn tick(&mut self)
        requires
            old(self).room(1),
        ensures
            *final(self) == old(self).ticked(),
    {
        self.inc_cycle(1);
    }
}

impl Default for Clock {
    fn default() -> (r: Clock)
        ensures
            r.m_cycles == 0,
            r.t_cycles == 0,
    {
        Clock { m_cycles: 0, t_cycles: 0 }
    }
}

} // verus!
