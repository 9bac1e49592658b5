//! Clock domains, upstream sources, and the table of which source may feed
//! which domain.
use vstd::prelude::*;

verus! {

/// One named hardware clock output.
#[derive(Clone, Copy, Debug, PartialEq, Eq, Structural)]
pub enum DomainId {
    GpOut0,
    GpOut1,
    GpOut2,
    GpOut3,
    Ref,
    Sys,
    Peri,
    Usb,
    Adc,
    Rtc,
}

/// An upstream frequency provider.
#[derive(Clone, Copy, Debug, PartialEq, Eq, Structural)]
pub enum SourceId {
    /// Ring oscillator, phase-shifted output.
    RoscPh,
    /// Ring oscillator.
    Rosc,
    /// Crystal oscillator.
    Xosc,
    PllSys,
    PllUsb,
    Gpin0,
    Gpin1,
    ClkRef,
    ClkSys,
    ClkUsb,
    ClkAdc,
    ClkRtc,
}

/// Number of clock domains.
pub const DOMAIN_COUNT: usize = 10;

/// Largest divisor that a 24-bit integer divisor field holds.
pub const WIDE_DIVISOR_MAX: u32 = 0xff_ffff;

/// Largest divisor that a 2-bit integer divisor field holds.
pub const NARROW_DIVISOR_MAX: u32 = 3;

/// Primary-mux code of the default source of a glitchless domain.
pub const DEFAULT_SRC_CODE: u8 = 0;

/// Primary-mux code that routes the auxiliary mux through on a glitchless domain.
pub const AUX_PASSTHROUGH_CODE: u8 = 1;

pub open spec fn domain_index(d: DomainId) -> int {
    match d {
        DomainId::GpOut0 => 0,
        DomainId::GpOut1 => 1,
        DomainId::GpOut2 => 2,
        DomainId::GpOut3 => 3,
        DomainId::Ref => 4,
        DomainId::Sys => 5,
        DomainId::Peri => 6,
        DomainId::Usb => 7,
        DomainId::Adc => 8,
        DomainId::Rtc => 9,
    }
}

/// Domains with a hardware glitchless primary mux; the others are stopped
/// around a source change.
pub open spec fn is_glitchless(d: DomainId) -> bool {
    d == DomainId::Ref || d == DomainId::Sys
}

/// Largest divisor the domain's divisor field holds (1 for a domain without one).
pub open spec fn max_divisor(d: DomainId) -> u32 {
    match d {
        DomainId::Ref | DomainId::Usb | DomainId::Adc => NARROW_DIVISOR_MAX,
        DomainId::Peri => 1,
        _ => WIDE_DIVISOR_MAX,
    }
}

pub open spec fn has_divider(d: DomainId) -> bool {
    d != DomainId::Peri
}

/// Primary-mux code of a source wired straight to a glitchless domain's primary mux.
pub open spec fn primary_code(d: DomainId, s: SourceId) -> Option<u8> {
    match (d, s) {
        (DomainId::Ref, SourceId::RoscPh) => Some(0u8),
        (DomainId::Ref, SourceId::Xosc) => Some(2u8),
        (DomainId::Sys, SourceId::ClkRef) => Some(0u8),
        _ => None,
    }
}

/// Auxiliary-mux code of a source that reaches the domain through its auxiliary mux.
pub open spec fn aux_code(d: DomainId, s: SourceId) -> Option<u8> {
    match d {
        DomainId::Ref => match s {
            SourceId::PllUsb => Some(0u8),
            SourceId::Gpin0 => Some(1u8),
            SourceId::Gpin1 => Some(2u8),
            _ => None,
        },
        DomainId::Sys => match s {
            SourceId::PllSys => Some(0u8),
            SourceId::PllUsb => Some(1u8),
            SourceId::Rosc => Some(2u8),
            SourceId::Xosc => Some(3u8),
            SourceId::Gpin0 => Some(4u8),
            SourceId::Gpin1 => Some(5u8),
            _ => None,
        },
        DomainId::Peri => match s {
            SourceId::ClkSys => Some(0u8),
            SourceId::PllSys => Some(1u8),
            SourceId::PllUsb => Some(2u8),
            SourceId::RoscPh => Some(3u8),
            SourceId::Xosc => Some(4u8),
            SourceId::Gpin0 => Some(5u8),
            SourceId::Gpin1 => Some(6u8),
            _ => None,
        },
        DomainId::Usb | DomainId::Adc | DomainId::Rtc => match s {
            SourceId::PllUsb => Some(0u8),
            SourceId::PllSys => Some(1u8),
            SourceId::RoscPh => Some(2u8),
            SourceId::Xosc => Some(3u8),
            SourceId::Gpin0 => Some(4u8),
            SourceId::Gpin1 => Some(5u8),
            _ => None,
        },
        _ => match s {
            SourceId::PllSys => Some(0u8),
            SourceId::Gpin0 => Some(1u8),
            SourceId::Gpin1 => Some(2u8),
            SourceId::PllUsb => Some(3u8),
            SourceId::Rosc => Some(4u8),
            SourceId::Xosc => Some(5u8),
            SourceId::ClkSys => Some(6u8),
            SourceId::ClkUsb => Some(7u8),
            SourceId::ClkAdc => Some(8u8),
            SourceId::ClkRtc => Some(9u8),
            SourceId::ClkRef => Some(10u8),
            _ => None,
        },
    }
}

/// The resolved hardware encoding of a legal (domain, source) pair.
///
/// Its fields are private: a selector comes only from [`resolve`].
#[derive(Clone, Copy, Debug, PartialEq, Eq, Structural)]
pub struct Selector {
    src_code: u8,
    aux_code: u8,
    aux: bool,
}

impl Selector {
    pub closed spec fn spec_src_code(self) -> u8 {
        self.src_code
    }

    pub closed spec fn spec_aux_code(self) -> u8 {
        self.aux_code
    }

    pub closed spec fn spec_is_aux(self) -> bool {
        self.aux
    }

    /// Primary-mux code to select (the passthrough code on the auxiliary path).
    pub fn src_code(&self) -> (r: u8)
        ensures
            r == self.spec_src_code(),
    {
        self.src_code
    }

    /// Auxiliary-mux code to select (meaningful on the auxiliary path only).
    pub fn aux_code(&self) -> (r: u8)
        ensures
            r == self.spec_aux_code(),
    {
        self.aux_code
    }

    /// Whether the source travels the auxiliary path.
    pub fn is_aux(&self) -> (r: bool)
        ensures
            r == self.spec_is_aux(),
    {
        self.aux
    }

    /// Index of the selected-status bit that confirms the switch.
    pub fn completion_bit(&self) -> (r: u8)
        ensures
            r == self.spec_src_code(),
    {
        self.src_code
    }
}

/// Whether `s` is declared legal for `d`.
pub open spec fn is_legal(d: DomainId, s: SourceId) -> bool {
    primary_code(d, s) is Some || aux_code(d, s) is Some
}

/// The selector of a legal pair: the primary code where the source is wired to
/// the primary mux, else the auxiliary code (with the passthrough code as the
/// primary selection on glitchless domains).
pub open spec fn selector_matches(sel: Selector, d: DomainId, s: SourceId) -> bool {
    match primary_code(d, s) {
        Some(c) => !sel.spec_is_aux() && sel.spec_src_code() == c,
        None => match aux_code(d, s) {
            Some(a) => sel.spec_is_aux() && sel.spec_aux_code() == a && sel.spec_src_code() == (
            if is_glitchless(d) {
                AUX_PASSTHROUGH_CODE
            } else {
                0u8
            }),
            None => false,
        },
    }
}

pub fn is_glitchless_domain(d: DomainId) -> (r: bool)
    ensures
        r == is_glitchless(d),
{
    match d {
        DomainId::Ref | DomainId::Sys => true,
        _ => false,
    }
}

pub fn max_divisor_of(d: DomainId) -> (r: u32)
    ensures
        r == max_divisor(d),
{
    match d {
        DomainId::Ref | DomainId::Usb | DomainId::Adc => NARROW_DIVISOR_MAX,
        DomainId::Peri => 1,
        _ => WIDE_DIVISOR_MAX,
    }
}

pub fn has_divider_domain(d: DomainId) -> (r: bool)
    ensures
        r == has_divider(d),
{
    match d {
        DomainId::Peri => false,
        _ => true,
    }
}

pub fn domain_slot(d: DomainId) -> (r: usize)
    ensures
        r == domain_index(d),
        r < DOMAIN_COUNT,
{
    match d {
        DomainId::GpOut0 => 0,
        DomainId::GpOut1 => 1,
        DomainId::GpOut2 => 2,
        DomainId::GpOut3 => 3,
        DomainId::Ref => 4,
        DomainId::Sys => 5,
        DomainId::Peri => 6,
        DomainId::Usb => 7,
        DomainId::Adc => 8,
        DomainId::Rtc => 9,
    }
}

/// Looks up the primary-mux code of `s` on `d`.
pub fn primary_code_of(d: DomainId, s: SourceId) -> (r: Option<u8>)
    ensures
        r == primary_code(d, s),
{
    match (d, s) {
        (DomainId::Ref, SourceId::RoscPh) => Some(0u8),
        (DomainId::Ref, SourceId::Xosc) => Some(2u8),
        (DomainId::Sys, SourceId::ClkRef) => Some(0u8),
        _ => None,
    }
}

/// Looks up the auxiliary-mux code of `s` on `d`.
pub fn aux_code_of(d: DomainId, s: SourceId) -> (r: Option<u8>)
    ensures
        r == aux_code(d, s),
{
    match d {
        DomainId::Ref => match s {
            SourceId::PllUsb => Some(0u8),
            SourceId::Gpin0 => Some(1u8),
            SourceId::Gpin1 => Some(2u8),
            _ => None,
        },
        DomainId::Sys => match s {
            SourceId::PllSys => Some(0u8),
            SourceId::PllUsb => Some(1u8),
            SourceId::Rosc => Some(2u8),
            SourceId::Xosc => Some(3u8),
            SourceId::Gpin0 => Some(4u8),
            SourceId::Gpin1 => Some(5u8),
            _ => None,
        },
        DomainId::Peri => match s {
            SourceId::ClkSys => Some(0u8),
            SourceId::PllSys => Some(1u8),
            SourceId::PllUsb => Some(2u8),
            SourceId::RoscPh => Some(3u8),
            SourceId::Xosc => Some(4u8),
            SourceId::Gpin0 => Some(5u8),
            SourceId::Gpin1 => Some(6u8),
            _ => None,
        },
        DomainId::Usb | DomainId::Adc | DomainId::Rtc => match s {
            SourceId::PllUsb => Some(0u8),
            SourceId::PllSys => Some(1u8),
            SourceId::RoscPh => Some(2u8),
            SourceId::Xosc => Some(3u8),
            SourceId::Gpin0 => Some(4u8),
            SourceId::Gpin1 => Some(5u8),
            _ => None,
        },
        _ => match s {
            SourceId::PllSys => Some(0u8),
            SourceId::Gpin0 => Some(1u8),
            SourceId::Gpin1 => Some(2u8),
            SourceId::PllUsb => Some(3u8),
            SourceId::Rosc => Some(4u8),
            SourceId::Xosc => Some(5u8),
            SourceId::ClkSys => Some(6u8),
            SourceId::ClkUsb => Some(7u8),
            SourceId::ClkAdc => Some(8u8),
            SourceId::ClkRtc => Some(9u8),
            SourceId::ClkRef => Some(10u8),
            _ => None,
        },
    }
}

/// Resolves the selector of `s` on `d`; `None` where the pair is not declared legal.
pub fn resolve(d: DomainId, s: SourceId) -> (r: Option<Selector>)
    ensures
        r is Some <==> is_legal(d, s),
        r matches Some(sel) ==> selector_matches(sel, d, s),
{
    match primary_code_of(d, s) {
        Some(c) => Some(Selector { src_code: c, aux_code: 0, aux: false }),
        None => match aux_code_of(d, s) {
            Some(a) => {
                let src_code = if is_glitchless_domain(d) {
                    AUX_PASSTHROUGH_CODE
                } else {
                    0u8
                };
                Some(Selector { src_code, aux_code: a, aux: true })
            },
            None => None,
        },
    }
}

} // verus!
