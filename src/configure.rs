//! The configuration engine: the ordered register operations that switch a
//! domain to a new source and divisor, and a register image that runs them.
use vstd::prelude::*;
use crate::clocks::{
    aux_code, is_glitchless, is_glitchless_domain, is_legal, max_divisor, max_divisor_of,
    primary_code, resolve, DomainId, SourceId, AUX_PASSTHROUGH_CODE, DEFAULT_SRC_CODE,
};

verus! {

/// One register operation of a configuration sequence.
#[derive(Clone, Copy, Debug, PartialEq, Eq, Structural)]
pub enum ClockOp {
    /// Write the integer divisor (ignored by a domain without a divider).
    SetDiv(u32),
    /// Write the primary (glitchless) mux selection.
    SelectSrc(u8),
    /// Wait until the selected-status register shows exactly this primary input.
    AwaitSelected(u8),
    /// Write the auxiliary mux selection.
    SelectAux(u8),
    /// Clear the enable bit.
    Disable,
    /// Set the enable bit.
    Enable,
    /// Busy-wait for this many processor cycles.
    Delay(u32),
}

/// Why a configuration request was refused.
#[derive(Clone, Copy, Debug, PartialEq, Eq, Structural)]
pub enum ClockError {
    /// The target frequency exceeds the source frequency.
    RequestedFrequencyTooHigh,
    /// The divisor does not fit the domain's divisor field (or the target is 0).
    DivisorOutOfRange,
    /// The source is not declared legal for the domain.
    InvalidSource,
    /// The hardware did not confirm a switch within the allowed number of polls.
    SwitchTimeout,
}

/// What a configuration request yields before any register is touched: the
/// divisor, or the error that refuses it.
pub open spec fn configure_outcome(d: DomainId, s: SourceId, source_freq: u32, target: u32) -> Result<u32, ClockError> {
    if !is_legal(d, s) {
        Err(ClockError::InvalidSource)
    } else if target > source_freq {
        Err(ClockError::RequestedFrequencyTooHigh)
    } else if target == 0 || source_freq / target > max_divisor(d) {
        Err(ClockError::DivisorOutOfRange)
    } else {
        Ok((source_freq / target) as u32)
    }
}

/// An accepted request's divisor is at least 1.
pub proof fn lemma_outcome_divisor(d: DomainId, s: SourceId, source_freq: u32, target: u32)
    ensures
        configure_outcome(d, s, source_freq, target) matches Ok(div) ==> div >= 1 && div == source_freq / target,
{
    if configure_outcome(d, s, source_freq, target) is Ok {
        assert(source_freq / target >= 1) by (nonlinear_arith)
            requires
                0 < target <= source_freq,
        ;
    }
}

/// A target above the source frequency is always refused; a refused request
/// writes nothing (see `Clock::configure`).
pub proof fn lemma_too_high_refused(d: DomainId, s: SourceId, source_freq: u32, target: u32)
    requires
        target > source_freq,
    ensures
        configure_outcome(d, s, source_freq, target) is Err,
        is_legal(d, s) ==> configure_outcome(d, s, source_freq, target) == Err::<u32, ClockError>(
            ClockError::RequestedFrequencyTooHigh,
        ),
{
}

/// What one read of the selected-status register means while waiting for
/// input `bit`, after `polls` earlier reads out of at most `max_polls`:
/// confirmed (`Ok(true)`), keep waiting (`Ok(false)`), or give up.
pub fn poll_selected(selected: u32, bit: u8, polls: u32, max_polls: u32) -> (r: Result<bool, ClockError>)
    requires
        bit < 32,
    ensures
        selected == (1u32 << bit) ==> r == Ok::<bool, ClockError>(true),
        selected != (1u32 << bit) && polls + 1 < max_polls ==> r == Ok::<bool, ClockError>(false),
        selected != (1u32 << bit) && polls + 1 >= max_polls ==> r == Err::<bool, ClockError>(
            ClockError::SwitchTimeout,
        ),
{
    if selected == 1u32 << bit {
        Ok(true)
    } else if polls >= max_polls || max_polls - polls <= 1 {
        Err(ClockError::SwitchTimeout)
    } else {
        Ok(false)
    }
}

/// Cycles to wait after disabling a domain running at `running_freq`, measured
/// at `reference_freq`; `None` where the domain was not running.
pub open spec fn settle_cycles(reference_freq: u32, running_freq: u32) -> Option<u32> {
    if running_freq == 0 {
        None
    } else if reference_freq / running_freq + 1 > u32::MAX {
        Some(u32::MAX)
    } else {
        Some((reference_freq / running_freq + 1) as u32)
    }
}

/// The source-switch part of a configuration sequence.
pub open spec fn switch_ops(d: DomainId, s: SourceId, settle: Option<u32>) -> Seq<ClockOp> {
    if is_glitchless(d) {
        match primary_code(d, s) {
            Some(c) => seq![ClockOp::SelectSrc(c), ClockOp::AwaitSelected(c)],
            None => seq![
                ClockOp::SelectSrc(DEFAULT_SRC_CODE),
                ClockOp::AwaitSelected(DEFAULT_SRC_CODE),
                ClockOp::SelectAux(aux_code(d, s).unwrap()),
                ClockOp::SelectSrc(AUX_PASSTHROUGH_CODE),
                ClockOp::AwaitSelected(AUX_PASSTHROUGH_CODE),
            ],
        }
    } else {
        seq![ClockOp::Disable] + match settle {
            Some(n) => seq![ClockOp::Delay(n)],
            None => Seq::<ClockOp>::empty(),
        } + seq![ClockOp::SelectAux(aux_code(d, s).unwrap()), ClockOp::Enable]
    }
}

/// The whole configuration sequence: a larger divisor is written before the
/// switch, any other divisor after it.
pub open spec fn plan_of(d: DomainId, s: SourceId, current_div: u32, div: u32, settle: Option<u32>) -> Seq<ClockOp> {
    (if div > current_div {
        seq![ClockOp::SetDiv(div)]
    } else {
        Seq::<ClockOp>::empty()
    }) + switch_ops(d, s, settle) + (if div <= current_div {
        seq![ClockOp::SetDiv(div)]
    } else {
        Seq::<ClockOp>::empty()
    })
}

/// Computes the settle delay of [`settle_cycles`].
pub fn settle_delay(reference_freq: u32, running_freq: u32) -> (r: Option<u32>)
    ensures
        r == settle_cycles(reference_freq, running_freq),
{
    if running_freq == 0 {
        None
    } else {
        let q: u32 = reference_freq / running_freq;
        if q == u32::MAX {
            Some(u32::MAX)
        } else {
            Some(q + 1)
        }
    }
}

/// Checks a request and computes its divisor, touching nothing.
pub fn check_request(d: DomainId, s: SourceId, source_freq: u32, target: u32) -> (r: Result<u32, ClockError>)
    ensures
        r == configure_outcome(d, s, source_freq, target),
{
    if resolve(d, s).is_none() {
        return Err(ClockError::InvalidSource);
    }
    if target > source_freq {
        return Err(ClockError::RequestedFrequencyTooHigh);
    }
    if target == 0 {
        return Err(ClockError::DivisorOutOfRange);
    }
    let div: u32 = source_freq / target;
    if div > max_divisor_of(d) {
        return Err(ClockError::DivisorOutOfRange);
    }
    Ok(div)
}

/// Builds the configuration sequence of a request on `d`, whose divisor
/// register holds `current_div` and whose cached frequency is `running_freq`.
/// `reference_freq` is the processor clock used to time the settle delay.
pub fn plan_configure(
    d: DomainId,
    s: SourceId,
    source_freq: u32,
    target: u32,
    current_div: u32,
    running_freq: u32,
    reference_freq: u32,
) -> (r: Result<Vec<ClockOp>, ClockError>)
    ensures
        match configure_outcome(d, s, source_freq, target) {
            Ok(div) => r matches Ok(ops) && ops@ == plan_of(
                d,
                s,
                current_div,
                div,
                settle_cycles(reference_freq, running_freq),
            ),
            Err(e) => r == Err::<Vec<ClockOp>, ClockError>(e),
        },
{
    let div = match check_request(d, s, source_freq, target) {
        Ok(v) => v,
        Err(e) => return Err(e),
    };
    let sel = match resolve(d, s) {
        Some(sel) => sel,
        None => return Err(ClockError::InvalidSource),
    };
    let settle = settle_delay(reference_freq, running_freq);
    let mut ops: Vec<ClockOp> = Vec::new();
    if div > current_div {
        ops.push(ClockOp::SetDiv(div));
    }
    if is_glitchless_domain(d) {
        if sel.is_aux() {
            ops.push(ClockOp::SelectSrc(DEFAULT_SRC_CODE));
            ops.push(ClockOp::AwaitSelected(DEFAULT_SRC_CODE));
            ops.push(ClockOp::SelectAux(sel.aux_code()));
            ops.push(ClockOp::SelectSrc(AUX_PASSTHROUGH_CODE));
            ops.push(ClockOp::AwaitSelected(AUX_PASSTHROUGH_CODE));
        } else {
            ops.push(ClockOp::SelectSrc(sel.src_code()));
            ops.push(ClockOp::AwaitSelected(sel.completion_bit()));
        }
    } else {
        ops.push(ClockOp::Disable);
        if let Some(n) = settle {
            ops.push(ClockOp::Delay(n));
        }
        ops.push(ClockOp::SelectAux(sel.aux_code()));
        ops.push(ClockOp::Enable);
    }
    if div <= current_div {
        ops.push(ClockOp::SetDiv(div));
    }
    proof {
        assert(ops@ =~= plan_of(d, s, current_div, div, settle));
    }
    Ok(ops)
}

/// Number of operations that come before the source switch: the early divisor write.
pub open spec fn pre_len(current_div: u32, div: u32) -> int {
    if div > current_div {
        1
    } else {
        0
    }
}

/// The divisor is written exactly once. When it grows it is written first,
/// before any mux write; otherwise it is written last, after the switch has
/// been confirmed (glitchless domains) or the domain re-enabled (stoppable ones).
pub proof fn lemma_divisor_order(d: DomainId, s: SourceId, current_div: u32, div: u32, settle: Option<u32>)
    requires
        is_legal(d, s),
    ensures
        ({
            let p = plan_of(d, s, current_div, div, settle);
            &&& p.len() >= 3
            &&& div > current_div ==> p[0] == ClockOp::SetDiv(div) && forall|i: int|
                0 < i < p.len() ==> !(#[trigger] p[i] is SetDiv)
            &&& div <= current_div ==> p.last() == ClockOp::SetDiv(div) && forall|i: int|
                0 <= i < p.len() - 1 ==> !(#[trigger] p[i] is SetDiv)
            &&& div <= current_div && is_glitchless(d) ==> p[p.len() - 2] is AwaitSelected
            &&& div <= current_div && !is_glitchless(d) ==> p[p.len() - 2] == ClockOp::Enable
        }),
{
    let p = plan_of(d, s, current_div, div, settle);
    let sw = switch_ops(d, s, settle);
    assert(forall|i: int| 0 <= i < sw.len() ==> !(#[trigger] sw[i] is SetDiv));
    if div > current_div {
        assert(p =~= seq![ClockOp::SetDiv(div)] + sw);
    } else {
        assert(p =~= sw + seq![ClockOp::SetDiv(div)]);
    }
}

/// On a glitchless domain, a source on the auxiliary path is reached by first
/// switching the primary mux to its default input and waiting for that to be
/// confirmed; only then is the auxiliary mux written (once), and the primary
/// mux moved to the auxiliary input and confirmed.
pub proof fn lemma_aux_passthrough(d: DomainId, s: SourceId, current_div: u32, div: u32, settle: Option<u32>)
    requires
        is_legal(d, s),
        is_glitchless(d),
        primary_code(d, s) is None,
    ensures
        ({
            let p = plan_of(d, s, current_div, div, settle);
            let o = pre_len(current_div, div);
            &&& p[o] == ClockOp::SelectSrc(DEFAULT_SRC_CODE)
            &&& p[o + 1] == ClockOp::AwaitSelected(DEFAULT_SRC_CODE)
            &&& p[o + 2] == ClockOp::SelectAux(aux_code(d, s).unwrap())
            &&& p[o + 3] == ClockOp::SelectSrc(AUX_PASSTHROUGH_CODE)
            &&& p[o + 4] == ClockOp::AwaitSelected(AUX_PASSTHROUGH_CODE)
            &&& forall|j: int| 0 <= j < p.len() && (#[trigger] p[j] is SelectAux) ==> j == o + 2
        }),
{
    let p = plan_of(d, s, current_div, div, settle);
    let sw = switch_ops(d, s, settle);
    if div > current_div {
        assert(p =~= seq![ClockOp::SetDiv(div)] + sw);
    } else {
        assert(p =~= sw + seq![ClockOp::SetDiv(div)]);
    }
}

/// On a stoppable domain the enable bit is cleared before the auxiliary mux is
/// written (after the settle delay when the domain was running), is not set
/// again before that write, and is set right after it.
pub proof fn lemma_stop_before_remux(d: DomainId, s: SourceId, current_div: u32, div: u32, settle: Option<u32>)
    requires
        is_legal(d, s),
        !is_glitchless(d),
    ensures
        ({
            let p = plan_of(d, s, current_div, div, settle);
            let o = pre_len(current_div, div);
            let k = if settle is Some {
                o + 2
            } else {
                o + 1
            };
            &&& p[o] == ClockOp::Disable
            &&& settle matches Some(n) ==> p[o + 1] == ClockOp::Delay(n)
            &&& p[k] == ClockOp::SelectAux(aux_code(d, s).unwrap())
            &&& p[k + 1] == ClockOp::Enable
            &&& forall|j: int| 0 <= j < k ==> #[trigger] p[j] != ClockOp::Enable
            &&& forall|j: int| 0 <= j < p.len() && (#[trigger] p[j] is SelectAux) ==> j == k
        }),
{
    let p = plan_of(d, s, current_div, div, settle);
    let sw = switch_ops(d, s, settle);
    let mid = match settle {
        Some(n) => seq![ClockOp::Delay(n)],
        None => Seq::<ClockOp>::empty(),
    };
    let tail = seq![ClockOp::SelectAux(aux_code(d, s).unwrap()), ClockOp::Enable];
    assert(sw =~= seq![ClockOp::Disable] + mid + tail);
    if div > current_div {
        assert(p =~= seq![ClockOp::SetDiv(div)] + sw);
    } else {
        assert(p =~= sw + seq![ClockOp::SetDiv(div)]);
    }
}

} // verus!
