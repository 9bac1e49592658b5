use rp2040_clocks::timer::{combine_halves, Timer};
use rp2040_clocks::watchdog::Watchdog;
use rp2040_clocks::xosc::{CrystalOscillator, Error, XoscRegs};

#[test]
fn timer_accepts_read_when_upper_half_is_steady() {
    let mut t = Timer::new(1);
    assert_eq!(t.try_now(5, 1), Some((1u64 << 32) | 5));
}

#[test]
fn timer_retries_after_carry() {
    let mut t = Timer::new(1);
    assert_eq!(t.try_now(0xffff_ffff, 2), None);
    assert_eq!(t.high(), 2);
    assert_eq!(t.try_now(3, 2), Some((2u64 << 32) | 3));
    assert_eq!(combine_halves(u32::MAX, u32::MAX), u64::MAX);
}

#[test]
fn watchdog_start_doubles_period() {
    let mut w = Watchdog::new();
    w.start(1000);
    assert_eq!(w.delay(), 2000);
    assert_eq!(w.load(), 2000);
    assert_eq!(w.ctrl(), 0x4700_0000);
    w.feed();
    assert_eq!(w.load(), 2000);
    w.disable();
    assert_eq!(w.ctrl(), 0x0700_0000);
}

#[test]
fn watchdog_pause_and_tick() {
    let mut w = Watchdog::new();
    w.pause_on_debug(false);
    assert_eq!(w.ctrl(), 0);
    w.pause_on_debug(true);
    assert_eq!(w.ctrl(), 0x0700_0000);
    w.enable_tick_generation(12);
    assert_eq!(w.tick(), 0x20c);
    w.enable(true);
    assert_eq!(w.ctrl(), 0x4700_0000);
}

fn reset() -> XoscRegs {
    XoscRegs { range_set: false, enabled: false, startup_delay: 0, dormant: 0 }
}

#[test]
fn xosc_initializes_with_startup_delay() {
    let x = CrystalOscillator::new(reset()).initialize(12_000_000).ok().unwrap();
    assert_eq!(x.regs().startup_delay, 47);
    assert!(x.regs().enabled);
    assert!(x.await_stabilization(false).is_none());
    let token = x.await_stabilization(true).unwrap();
    let s = x.get_stable(token);
    assert_eq!(s.operating_frequency(), 12_000_000);
    let d = s.disable();
    assert!(!d.free().enabled);
}

#[test]
fn xosc_rejects_out_of_range_frequency() {
    assert_eq!(CrystalOscillator::new(reset()).initialize(16_000_000).err(), Some(Error::FrequencyOutOfRange));
    assert_eq!(CrystalOscillator::new(reset()).initialize(999_999).err(), Some(Error::FrequencyOutOfRange));
    assert!(CrystalOscillator::new(reset()).initialize(15_999_999).is_ok());
}

#[test]
fn xosc_dormant_writes_magic_value() {
    let x = CrystalOscillator::new(reset()).initialize(1_000_000).ok().unwrap();
    assert_eq!(x.regs().startup_delay, 4);
    let token = x.await_stabilization(true).unwrap();
    let d = x.get_stable(token).dormant();
    assert_eq!(d.regs().dormant, 0x636f_6d61);
}
