use rp2040_clocks::clocks::{resolve, DomainId, SourceId};
use rp2040_clocks::configure::{plan_configure, poll_selected, settle_delay, ClockError, ClockOp};
use rp2040_clocks::domain::{ClockRegisters, ClockWrite, ClocksManager};

fn ops_of(regs: &ClockRegisters, from: usize) -> Vec<ClockOp> {
    regs.trace()[from..].iter().map(|w: &ClockWrite| w.op).collect()
}

#[test]
fn scenario_12mhz_to_3mhz_divides_by_four() {
    let mut m = ClocksManager::new();
    let mut sys = m.take(DomainId::Sys).unwrap();
    assert_eq!(m.configure(&mut sys, SourceId::Xosc, 12_000_000, 3_000_000, 125_000_000), Ok(()));
    assert_eq!(sys.freq(), 3_000_000);
    assert_eq!(sys.get_div(m.registers()), 4);
}

#[test]
fn scenario_target_above_source_touches_nothing() {
    let mut m = ClocksManager::new();
    let mut sys = m.take(DomainId::Sys).unwrap();
    assert_eq!(
        m.configure(&mut sys, SourceId::Xosc, 10_000_000, 12_000_000, 125_000_000),
        Err(ClockError::RequestedFrequencyTooHigh)
    );
    assert_eq!(sys.freq(), 0);
    assert!(m.registers().trace().is_empty());
    assert_eq!(sys.get_div(m.registers()), 1);
}

#[test]
fn failed_request_keeps_prior_configuration() {
    let mut regs = ClockRegisters::new();
    let mut m = ClocksManager::new();
    let mut usb = m.take(DomainId::Usb).unwrap();
    assert_eq!(usb.configure(&mut regs, SourceId::PllUsb, 48_000_000, 24_000_000, 125_000_000), Ok(()));
    let before = regs.trace().len();
    assert_eq!(
        usb.configure(&mut regs, SourceId::PllUsb, 48_000_000, 96_000_000, 125_000_000),
        Err(ClockError::RequestedFrequencyTooHigh)
    );
    assert_eq!(usb.freq(), 24_000_000);
    assert_eq!(usb.get_div(&regs), 2);
    assert_eq!(regs.trace().len(), before);
}

#[test]
fn scenario_aux_to_faster_aux_lowers_divisor_after_switch() {
    let mut m = ClocksManager::new();
    let mut sys = m.take(DomainId::Sys).unwrap();
    assert_eq!(m.configure(&mut sys, SourceId::PllUsb, 48_000_000, 24_000_000, 125_000_000), Ok(()));
    assert_eq!(sys.get_div(m.registers()), 2);
    let from = m.registers().trace().len();
    assert_eq!(m.configure(&mut sys, SourceId::PllSys, 125_000_000, 125_000_000, 125_000_000), Ok(()));
    assert_eq!(
        ops_of(m.registers(), from),
        vec![
            ClockOp::SelectSrc(0),
            ClockOp::AwaitSelected(0),
            ClockOp::SelectAux(0),
            ClockOp::SelectSrc(1),
            ClockOp::AwaitSelected(1),
            ClockOp::SetDiv(1),
        ]
    );
    assert_eq!(sys.freq(), 125_000_000);
    let r = m.registers().domain(DomainId::Sys);
    assert_eq!((r.src, r.auxsrc, r.div, r.selected), (1, 0, 1, 1));
}

#[test]
fn larger_divisor_is_written_before_the_switch() {
    let plan = plan_configure(DomainId::Sys, SourceId::PllSys, 125_000_000, 25_000_000, 1, 0, 125_000_000).unwrap();
    assert_eq!(plan[0], ClockOp::SetDiv(5));
    assert_eq!(plan.iter().filter(|o| matches!(o, ClockOp::SetDiv(_))).count(), 1);
}

#[test]
fn primary_source_switches_directly() {
    let plan = plan_configure(DomainId::Ref, SourceId::Xosc, 12_000_000, 12_000_000, 1, 0, 125_000_000).unwrap();
    assert_eq!(plan, vec![ClockOp::SelectSrc(2), ClockOp::AwaitSelected(2), ClockOp::SetDiv(1)]);
}

#[test]
fn stoppable_domain_is_disabled_around_the_aux_write() {
    let mut m = ClocksManager::new();
    let mut peri = m.take(DomainId::Peri).unwrap();
    assert_eq!(m.configure(&mut peri, SourceId::Xosc, 12_000_000, 12_000_000, 125_000_000), Ok(()));
    assert_eq!(
        ops_of(m.registers(), 0),
        vec![ClockOp::Disable, ClockOp::SelectAux(4), ClockOp::Enable, ClockOp::SetDiv(1)]
    );
    let from = m.registers().trace().len();
    assert_eq!(m.configure(&mut peri, SourceId::ClkSys, 125_000_000, 125_000_000, 125_000_000), Ok(()));
    assert_eq!(
        ops_of(m.registers(), from),
        vec![ClockOp::Disable, ClockOp::Delay(11), ClockOp::SelectAux(0), ClockOp::Enable, ClockOp::SetDiv(1)]
    );
    let r = m.registers().domain(DomainId::Peri);
    assert!(r.enabled);
    assert_eq!(r.auxsrc, 0);
    assert_eq!(peri.freq(), 125_000_000);
}

#[test]
fn configuring_twice_is_idempotent() {
    let mut m = ClocksManager::new();
    let mut adc = m.take(DomainId::Adc).unwrap();
    assert_eq!(m.configure(&mut adc, SourceId::PllUsb, 48_000_000, 16_000_000, 125_000_000), Ok(()));
    let first = m.registers().domain(DomainId::Adc);
    let f1 = adc.freq();
    assert_eq!(m.configure(&mut adc, SourceId::PllUsb, 48_000_000, 16_000_000, 125_000_000), Ok(()));
    assert_eq!(m.registers().domain(DomainId::Adc), first);
    assert_eq!(adc.freq(), f1);
    assert_eq!(f1, 16_000_000);
    assert_eq!(first.div, 3);
}

#[test]
fn result_frequency_rounds_divisor_down() {
    let mut regs = ClockRegisters::new();
    let mut m = ClocksManager::new();
    let mut rtc = m.take(DomainId::Rtc).unwrap();
    assert_eq!(rtc.configure(&mut regs, SourceId::Xosc, 12_000_000, 46_875, 125_000_000), Ok(()));
    assert_eq!(rtc.get_div(&regs), 256);
    assert_eq!(rtc.freq(), 46_875);
    let mut gp = m.take(DomainId::GpOut0).unwrap();
    assert_eq!(gp.configure(&mut regs, SourceId::ClkRef, 12_000_000, 5_000_000, 125_000_000), Ok(()));
    assert_eq!(gp.get_div(&regs), 2);
    assert_eq!(gp.freq(), 6_000_000);
}

#[test]
fn illegal_source_is_refused() {
    let mut m = ClocksManager::new();
    let mut usb = m.take(DomainId::Usb).unwrap();
    assert_eq!(
        m.configure(&mut usb, SourceId::ClkSys, 125_000_000, 48_000_000, 125_000_000),
        Err(ClockError::InvalidSource)
    );
    assert!(resolve(DomainId::Ref, SourceId::PllSys).is_none());
    assert!(resolve(DomainId::Sys, SourceId::ClkRef).is_some());
}

#[test]
fn divisor_out_of_range_is_refused() {
    let mut m = ClocksManager::new();
    let mut r = m.take(DomainId::Ref).unwrap();
    assert_eq!(
        m.configure(&mut r, SourceId::Xosc, 12_000_000, 3_000_000, 125_000_000),
        Err(ClockError::DivisorOutOfRange)
    );
    assert_eq!(
        m.configure(&mut r, SourceId::Xosc, 12_000_000, 0, 125_000_000),
        Err(ClockError::DivisorOutOfRange)
    );
    let mut peri = m.take(DomainId::Peri).unwrap();
    assert_eq!(
        m.configure(&mut peri, SourceId::ClkSys, 125_000_000, 62_500_000, 125_000_000),
        Err(ClockError::DivisorOutOfRange)
    );
    assert!(m.registers().trace().is_empty());
}

#[test]
fn each_domain_is_handed_out_once() {
    let mut m = ClocksManager::new();
    assert!(m.take(DomainId::Usb).is_some());
    assert!(m.take(DomainId::Usb).is_none());
    assert!(m.take(DomainId::Adc).is_some());
}

#[test]
fn settle_delay_counts_reference_cycles() {
    assert_eq!(settle_delay(125_000_000, 0), None);
    assert_eq!(settle_delay(125_000_000, 48_000_000), Some(3));
    assert_eq!(settle_delay(u32::MAX, 1), Some(u32::MAX));
}

#[test]
fn enable_disable_kill_on_register_image() {
    let mut regs = ClockRegisters::new();
    let mut m = ClocksManager::new();
    let usb = m.take(DomainId::Usb).unwrap();
    usb.enable(&mut regs);
    assert!(regs.domain(DomainId::Usb).enabled);
    usb.disable(&mut regs);
    assert!(!regs.domain(DomainId::Usb).enabled);
    usb.kill(&mut regs);
    assert!(regs.domain(DomainId::Usb).killed);
    usb.set_div(&mut regs, 3);
    assert_eq!(usb.get_div(&regs), 3);
    let sys = m.take(DomainId::Sys).unwrap();
    sys.disable(&mut regs);
    assert!(!regs.domain(DomainId::Sys).enabled);
    assert!(regs.is_selected(DomainId::Sys, 0));
}

#[test]
fn switch_poll_confirms_waits_or_times_out() {
    assert_eq!(poll_selected(0b10, 1, 0, 3), Ok(true));
    assert_eq!(poll_selected(0b01, 1, 0, 3), Ok(false));
    assert_eq!(poll_selected(0b01, 1, 1, 3), Ok(false));
    assert_eq!(poll_selected(0b01, 1, 2, 3), Err(ClockError::SwitchTimeout));
    assert_eq!(poll_selected(0b01, 1, 0, 0), Err(ClockError::SwitchTimeout));
}
