//! The watchdog's register logic, over an image of its registers.
use vstd::prelude::*;

verus! {

/// Reset value of the control register: the three pause bits set.
pub const CTRL_RESET: u32 = 0x0700_0000;

/// The three pause bits of the control register (debug core 1, debug core 0, JTAG).
pub const CTRL_PAUSE_BITS: u32 = 0x0700_0000;

/// The enable bit of the control register.
pub const CTRL_ENABLE: u32 = 0x4000_0000;

/// The tick-generator enable bit.
pub const TICK_ENABLE: u32 = 0x200;

/// Reset value of the tick register.
pub const TICK_RESET: u32 = 0x200;

/// Largest value the load register takes.
pub const MAX_PERIOD: u32 = 0xff_ffff;

/// The watchdog: its control, load and tick registers, and the load value
/// that feeding restores.
pub struct Watchdog {
    ctrl: u32,
    load: u32,
    tick: u32,
    delay_ms: u32,
}

/// The control register after a write that sets only the enable bit to `bit`
/// (the other fields take their reset values).
pub open spec fn ctrl_after_enable(bit: bool) -> u32 {
    if bit {
        (CTRL_RESET + CTRL_ENABLE) as u32
    } else {
        CTRL_RESET
    }
}

impl Watchdog {
    pub closed spec fn spec_ctrl(&self) -> u32 {
        self.ctrl
    }

    pub closed spec fn spec_load(&self) -> u32 {
        self.load
    }

    pub closed spec fn spec_tick(&self) -> u32 {
        self.tick
    }

    pub closed spec fn spec_delay(&self) -> u32 {
        self.delay_ms
    }

    /// A watchdog with its registers at their reset values and no period.
    pub fn new() -> (r: Watchdog)
        ensures
            r.spec_ctrl() == CTRL_RESET,
            r.spec_load() == 0,
            r.spec_tick() == TICK_RESET,
            r.spec_delay() == 0,
    {
        Watchdog { ctrl: CTRL_RESET, load: 0, tick: TICK_RESET, delay_ms: 0 }
    }

    pub fn ctrl(&self) -> (r: u32)
        ensures
            r == self.spec_ctrl(),
    {
        self.ctrl
    }

    pub fn load(&self) -> (r: u32)
        ensures
            r == self.spec_load(),
    {
        self.load
    }

    pub fn tick(&self) -> (r: u32)
        ensures
            r == self.spec_tick(),
    {
        self.tick
    }

    /// The load value that feeding writes.
    pub fn delay(&self) -> (r: u32)
        ensures
            r == self.spec_delay(),
    {
        self.delay_ms
    }

    /// Starts tick generation: one tick every `cycles` reference-clock cycles.
    pub fn enable_tick_generation(&mut self, cycles: u8)
        ensures
            final(self).spec_tick() == TICK_ENABLE + cycles as u32,
            final(self).spec_ctrl() == old(self).spec_ctrl(),
            final(self).spec_load() == old(self).spec_load(),
            final(self).spec_delay() == old(self).spec_delay(),
    {
        self.tick = TICK_ENABLE + cycles as u32;
    }

    /// Sets whether the countdown pauses while a core is halted by the debugger
    /// or JTAG accesses the bus. The write leaves the other control fields at
    /// their reset values, so the watchdog is disabled.
    pub fn pause_on_debug(&mut self, pause: bool)
        ensures
            final(self).spec_ctrl() == if pause { CTRL_PAUSE_BITS } else { 0 },
            final(self).spec_load() == old(self).spec_load(),
            final(self).spec_tick() == old(self).spec_tick(),
            final(self).spec_delay() == old(self).spec_delay(),
    {
        self.ctrl = if pause {
            CTRL_PAUSE_BITS
        } else {
            0
        };
    }

    fn load_counter(&mut self, counter: u32)
        ensures
            final(self).spec_load() == counter,
            final(self).spec_ctrl() == old(self).spec_ctrl(),
            final(self).spec_tick() == old(self).spec_tick(),
            final(self).spec_delay() == old(self).spec_delay(),
    {
        self.load = counter;
    }

    /// Writes the control register with only the enable bit set to `bit`.
    pub fn enable(&mut self, bit: bool)
        ensures
            final(self).spec_ctrl() == ctrl_after_enable(bit),
            final(self).spec_load() == old(self).spec_load(),
            final(self).spec_tick() == old(self).spec_tick(),
            final(self).spec_delay() == old(self).spec_delay(),
    {
        self.ctrl = if bit {
            CTRL_RESET + CTRL_ENABLE
        } else {
            CTRL_RESET
        };
    }

    /// Reloads the countdown with the started period.
    pub fn feed(&mut self)
        ensures
            final(self).spec_load() == old(self).spec_delay(),
            final(self).spec_ctrl() == old(self).spec_ctrl(),
            final(self).spec_tick() == old(self).spec_tick(),
            final(self).spec_delay() == old(self).spec_delay(),
    {
        let d = self.delay_ms;
        self.load_counter(d);
    }

    /// Starts the countdown at `period_us` microseconds. The counter runs down
    /// two per tick, so the load value is twice the period.
    pub fn start(&mut self, period_us: u32)
        requires
            period_us as int * 2 <= MAX_PERIOD,
        ensures
            final(self).spec_delay() == period_us * 2,
            final(self).spec_load() == period_us * 2,
            final(self).spec_ctrl() == ctrl_after_enable(true),
            final(self).spec_tick() == old(self).spec_tick(),
    {
        self.delay_ms = period_us * 2;
        self.enable(false);
        let d = self.delay_ms;
        self.load_counter(d);
        self.enable(true);
    }

    /// Stops the countdown.
    pub fn disable(&mut self)
        ensures
            final(self).spec_ctrl() == ctrl_after_enable(false),
            final(self).spec_load() == old(self).spec_load(),
            final(self).spec_tick() == old(self).spec_tick(),
            final(self).spec_delay() == old(self).spec_delay(),
    {
        self.enable(false);
    }
}

} // verus!
