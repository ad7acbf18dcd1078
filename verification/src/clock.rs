use vstd::prelude::*;

verus! {

/// Microseconds in one second.
pub const MICROS_PER_SECOND: u32 = 1_000_000;

/// Ticks of the delay and sound timers in one second.
pub const TICKS_PER_SECOND: u32 = 60;

/// The ticks that fall due once `elapsed_micros` more microseconds have passed,
/// with `debt` sixtieths of a microsecond carried over from before.
pub open spec fn ticks_due(debt: int, elapsed_micros: int) -> int {
    (debt + elapsed_micros * 60) / 1_000_000
}

/// The time left over once those ticks are taken, in sixtieths of a microsecond.
pub open spec fn debt_left(debt: int, elapsed_micros: int) -> int {
    (debt + elapsed_micros * 60) % 1_000_000
}

/// Turns elapsed wall-clock time into ticks of the 60 Hz timers. Time that does
/// not yet make a whole tick is carried over, so the ticks never drift from
/// the clock however unevenly the host asks.
#[derive(Debug, Clone, Copy)]
pub struct TickClock {
    debt: u32,
}

impl View for TickClock {
    type V = int;

    /// The time carried over, in sixtieths of a microsecond.
    closed spec fn view(&self) -> int {
        self.debt as int
    }
}

impl TickClock {
    /// Less than one tick is carried over.
    pub open spec fn wf(&self) -> bool {
        0 <= self@ < 1_000_000
    }

    /// A clock with nothing carried over.
    pub fn new() -> (clock: TickClock)
        ensures
            clock@ == 0,
            clock.wf(),
    {
        TickClock { debt: 0 }
    }

    /// Accounts for `elapsed_micros` microseconds since the last call and
    /// returns how many ticks have fallen due.
    pub fn advance(&mut self, elapsed_micros: u64) -> (ticks: u64)
        requires
            old(self).wf(),
        ensures
            ticks == ticks_due(old(self)@, elapsed_micros as int),
            final(self)@ == debt_left(old(self)@, elapsed_micros as int),
            final(self).wf(),
    {
        let total: u128 = self.debt as u128 + (elapsed_micros as u128) * 60;
        let ticks: u128 = total / 1_000_000;
        self.debt = (total % 1_000_000) as u32;
        ticks as u64
    }
}

/// Asking the clock twice, after `first` and then `second` microseconds, yields
/// in all as many ticks as asking once after their sum, and carries the same
/// time over: no time is lost between calls.
pub proof fn law_ticks_do_not_drift(debt: int, first: int, second: int)
    requires
        0 <= debt < 1_000_000,
        0 <= first,
        0 <= second,
    ensures
        ticks_due(debt, first) + ticks_due(debt_left(debt, first), second) == ticks_due(
            debt,
            first + second,
        ),
        debt_left(debt_left(debt, first), second) == debt_left(debt, first + second),
{
}

/// Sixty ticks fall due in every whole second.
pub proof fn law_sixty_ticks_a_second(seconds: int)
    requires
        0 <= seconds,
    ensures
        ticks_due(0, seconds * 1_000_000) == 60 * seconds,
        debt_left(0, seconds * 1_000_000) == 0,
{
}

} // verus!
