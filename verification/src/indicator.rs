//! The status indicator: a light that changes level every half period, so
//! that it is on for half of the time.

use vstd::prelude::*;

verus! {

/// The period of the indicator, in milliseconds.
pub const LED_PERIOD_MS: u64 = 1000;

/// The level of the output.
#[derive(Clone, Copy, Debug, PartialEq, Eq, Structural)]
pub enum Level {
    Off,
    On,
}

impl Level {
    /// The other level.
    pub open spec fn toggled_spec(self) -> Level {
        match self {
            Level::Off => Level::On,
            Level::On => Level::Off,
        }
    }

    /// The other level.
    pub fn toggled(self) -> (level: Level)
        ensures
            level == self.toggled_spec(),
    {
        match self {
            Level::Off => Level::On,
            Level::On => Level::Off,
        }
    }
}

/// The level after `n` toggles, from `level`.
pub open spec fn level_after(level: Level, n: nat) -> Level
    decreases n,
{
    if n == 0 {
        level
    } else {
        level_after(level, (n - 1) as nat).toggled_spec()
    }
}

/// The time between two toggles, in milliseconds: half the period.
pub fn toggle_interval_ms() -> (ms: u64)
    ensures
        ms == LED_PERIOD_MS / 2,
        ms + ms == LED_PERIOD_MS,
{
    LED_PERIOD_MS / 2
}

/// The indicator task's state: the level that it drove last.
#[derive(Clone, Copy, Debug, PartialEq, Eq, Structural)]
pub struct Indicator {
    pub level: Level,
}

impl Indicator {
    /// An indicator that is off.
    pub fn new() -> (indicator: Self)
        ensures
            indicator.level == Level::Off,
    {
        Indicator { level: Level::Off }
    }

    /// One tick: changes the level and returns the level to drive. Whether
    /// the output could be driven is of no concern to the indicator; it
    /// goes on either way.
    pub fn tick(&mut self) -> (level: Level)
        ensures
            level == old(self).level.toggled_spec(),
            final(self).level == level,
    {
        self.level = self.level.toggled();
        self.level
    }
}

/// The indicator spends as many half periods on as off: two toggles restore
/// the level, and after `n` toggles from off it is on exactly if `n` is
/// odd.
pub proof fn lemma_even_duty_cycle(level: Level, n: nat)
    ensures
        level.toggled_spec().toggled_spec() == level,
        level_after(level, n + 2) == level_after(level, n),
        level_after(Level::Off, n) == Level::On <==> n % 2 == 1,
    decreases n,
{
    reveal_with_fuel(level_after, 3);
    if n > 0 {
        lemma_even_duty_cycle(level, (n - 1) as nat);
    }
}

} // verus!
