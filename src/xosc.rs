//! The crystal oscillator's start-up sequence, as a typestate machine over an
//! image of its registers.
use vstd::prelude::*;

verus! {

/// Lowest accepted crystal frequency, in hertz.
pub const MIN_FREQUENCY_HZ: u32 = 1_000_000;

/// One past the highest accepted crystal frequency, in hertz: the range is
/// 1 to 15 whole megahertz.
pub const FREQUENCY_LIMIT_HZ: u32 = 16_000_000;

/// Value that puts the oscillator into its dormant state.
pub const XOSC_DORMANT_VALUE: u32 = 0x636f_6d61;

/// State of the crystal oscillator.
pub trait State {}

/// The oscillator is disabled.
pub struct Disabled;

/// The oscillator is started with a known frequency and is not yet stable.
pub struct Initialized {
    freq_hz: u32,
}

/// The oscillator is running and stable.
pub struct Stable {
    freq_hz: u32,
}

/// The oscillator is dormant.
pub struct Dormant;

impl State for Disabled {}

impl State for Initialized {}

impl State for Stable {}

impl State for Dormant {}

/// Why the oscillator cannot be initialized.
#[derive(Clone, Copy, Debug, PartialEq, Eq, Structural)]
pub enum Error {
    /// The frequency is outside 1 to 15 whole megahertz.
    FrequencyOutOfRange,
    /// An argument overflows the registers.
    BadArgument,
}

/// The oscillator's registers, as plain values.
#[derive(Clone, Copy, Debug, PartialEq, Eq, Structural)]
pub struct XoscRegs {
    /// Frequency range set to 1 to 15 MHz.
    pub range_set: bool,
    pub enabled: bool,
    /// Start-up delay, in units of 256 cycles.
    pub startup_delay: u16,
    /// Last value written to the dormant register.
    pub dormant: u32,
}

/// Whether `hz` names a whole number of megahertz from 1 to 15.
pub open spec fn frequency_in_range(hz: u32) -> bool {
    1 <= hz / 1_000_000 <= 15
}

/// Start-up delay of about one millisecond, in units of 256 cycles, rounded.
pub open spec fn startup_delay_of(hz: u32) -> int {
    (hz / 1000 + 128) / 256
}

/// The crystal oscillator in state `S`.
pub struct CrystalOscillator<S: State> {
    regs: XoscRegs,
    state: S,
}

impl<S: State> CrystalOscillator<S> {
    pub closed spec fn spec_regs(&self) -> XoscRegs {
        self.regs
    }

    fn transition<To: State>(self, state: To) -> (r: CrystalOscillator<To>)
        ensures
            r.spec_regs() == self.spec_regs(),
            r.state == state,
    {
        CrystalOscillator { regs: self.regs, state }
    }

    /// Releases the register image.
    pub fn free(self) -> (r: XoscRegs)
        ensures
            r == self.spec_regs(),
    {
        self.regs
    }

    /// The register image.
    pub fn regs(&self) -> (r: XoscRegs)
        ensures
            r == self.spec_regs(),
    {
        self.regs
    }
}

impl CrystalOscillator<Disabled> {
    /// A disabled oscillator over the given registers.
    pub fn new(regs: XoscRegs) -> (r: Self)
        ensures
            r.spec_regs() == regs,
    {
        CrystalOscillator { regs, state: Disabled }
    }

    /// Sets the frequency range and start-up delay and enables the oscillator.
    pub fn initialize(self, frequency: u32) -> (r: Result<CrystalOscillator<Initialized>, Error>)
        ensures
            frequency_in_range(frequency) ==> (r matches Ok(x) && x.spec_freq() == frequency
                && x.spec_regs() == (XoscRegs {
                range_set: true,
                enabled: true,
                startup_delay: startup_delay_of(frequency) as u16,
                ..self.spec_regs()
            })),
            !frequency_in_range(frequency) ==> r == Err::<CrystalOscillator<Initialized>, Error>(
                Error::FrequencyOutOfRange,
            ),
    {
        let mhz: u32 = frequency / 1_000_000;
        if mhz < 1 || mhz > 15 {
            return Err(Error::FrequencyOutOfRange);
        }
        let delay: u32 = (frequency / 1000 + 128) / 256;
        if delay > 0xffff {
            return Err(Error::BadArgument);
        }
        let regs = XoscRegs { range_set: true, enabled: true, startup_delay: delay as u16, ..self.regs };
        let x = CrystalOscillator { regs, state: self.state };
        Ok(x.transition(Initialized { freq_hz: frequency }))
    }
}

/// Given when the oscillator reports itself stable; exchanged for the stable oscillator.
pub struct StableOscillatorToken {
    _private: (),
}

impl CrystalOscillator<Initialized> {
    pub closed spec fn spec_freq(&self) -> u32 {
        self.state.freq_hz
    }

    /// Takes the status register's stable bit: a token once it is set.
    pub fn await_stabilization(&self, stable: bool) -> (r: Option<StableOscillatorToken>)
        ensures
            r is Some <==> stable,
    {
        if stable {
            Some(StableOscillatorToken { _private: () })
        } else {
            None
        }
    }

    /// The stabilized oscillator.
    pub fn get_stable(self, _token: StableOscillatorToken) -> (r: CrystalOscillator<Stable>)
        ensures
            r.spec_freq() == self.spec_freq(),
            r.spec_regs() == self.spec_regs(),
    {
        let freq_hz = self.state.freq_hz;
        self.transition(Stable { freq_hz })
    }
}

impl CrystalOscillator<Stable> {
    pub closed spec fn spec_freq(&self) -> u32 {
        self.state.freq_hz
    }

    /// Operating frequency, in hertz.
    pub fn operating_frequency(&self) -> (r: u32)
        ensures
            r == self.spec_freq(),
    {
        self.state.freq_hz
    }

    /// Disables the oscillator.
    pub fn disable(self) -> (r: CrystalOscillator<Disabled>)
        ensures
            r.spec_regs() == (XoscRegs { enabled: false, ..self.spec_regs() }),
    {
        let regs = XoscRegs { enabled: false, ..self.regs };
        let x = CrystalOscillator { regs, state: self.state };
        x.transition(Disabled)
    }

    /// Puts the oscillator into its dormant state. The PLLs must be stopped and
    /// the wake-up interrupts configured before this is made on the chip.
    pub fn dormant(self) -> (r: CrystalOscillator<Dormant>)
        ensures
            r.spec_regs() == (XoscRegs { dormant: XOSC_DORMANT_VALUE, ..self.spec_regs() }),
    {
        let regs = XoscRegs { dormant: XOSC_DORMANT_VALUE, ..self.regs };
        let x = CrystalOscillator { regs, state: self.state };
        x.transition(Dormant)
    }
}

} // verus!
