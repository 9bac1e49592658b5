//! The register image of the clock block, the per-domain record with its
//! cached frequency, and the manager that hands out one record per domain.
use vstd::prelude::*;
use crate::clocks::{
    aux_code, domain_index, domain_slot, has_divider, has_divider_domain, is_glitchless,
    is_glitchless_domain, is_legal, primary_code, DomainId, SourceId, AUX_PASSTHROUGH_CODE,
    DEFAULT_SRC_CODE, DOMAIN_COUNT,
};
use crate::configure::{
    check_request, configure_outcome, lemma_aux_passthrough, lemma_divisor_order, lemma_stop_before_remux, pre_len, lemma_outcome_divisor, plan_configure,
    plan_of, settle_cycles, switch_ops, ClockError, ClockOp,
};

verus! {

/// The registers of one domain, as plain values.
#[derive(Clone, Copy, Debug, PartialEq, Eq, Structural)]
pub struct DomainRegs {
    /// Primary (glitchless) mux selection.
    pub src: u8,
    /// Auxiliary mux selection.
    pub auxsrc: u8,
    pub enabled: bool,
    pub killed: bool,
    /// Integer divisor.
    pub div: u32,
    /// Index of the primary-mux input that the selected-status register reports.
    pub selected: u8,
}

/// One recorded register operation and the domain it was made on.
#[derive(Clone, Copy, Debug, PartialEq, Eq, Structural)]
pub struct ClockWrite {
    pub domain: DomainId,
    pub op: ClockOp,
}

/// What an operation does to a domain's registers. Only glitchless domains
/// have a primary mux; on them the enable bit has no effect.
pub open spec fn apply_op(d: DomainId, r: DomainRegs, op: ClockOp) -> DomainRegs {
    match op {
        ClockOp::SetDiv(v) => if has_divider(d) {
            DomainRegs { div: v, ..r }
        } else {
            r
        },
        ClockOp::SelectSrc(c) => if is_glitchless(d) {
            DomainRegs { src: c, selected: c, ..r }
        } else {
            r
        },
        ClockOp::SelectAux(a) => DomainRegs { auxsrc: a, ..r },
        ClockOp::Disable => if is_glitchless(d) {
            r
        } else {
            DomainRegs { enabled: false, ..r }
        },
        ClockOp::Enable => if is_glitchless(d) {
            r
        } else {
            DomainRegs { enabled: true, ..r }
        },
        ClockOp::AwaitSelected(_) | ClockOp::Delay(_) => r,
    }
}

/// The registers after running `ops` in order.
pub open spec fn run_ops(d: DomainId, r: DomainRegs, ops: Seq<ClockOp>) -> DomainRegs
    decreases ops.len(),
{
    if ops.len() == 0 {
        r
    } else {
        apply_op(d, run_ops(d, r, ops.drop_last()), ops.last())
    }
}

/// `ops`, each tagged with the domain it is made on.
pub open spec fn tagged(d: DomainId, ops: Seq<ClockOp>) -> Seq<ClockWrite> {
    ops.map_values(|op: ClockOp| ClockWrite { domain: d, op })
}

/// The divisor a domain reports: 1 on a domain without a divider.
pub open spec fn reg_divisor(d: DomainId, r: DomainRegs) -> u32 {
    if has_divider(d) {
        r.div
    } else {
        1
    }
}

/// The registers of `d` once it is switched to `s` at divisor `div`.
pub open spec fn configured_regs(d: DomainId, s: SourceId, r: DomainRegs, div: u32) -> DomainRegs {
    let r1 = if has_divider(d) {
        DomainRegs { div, ..r }
    } else {
        r
    };
    if is_glitchless(d) {
        match primary_code(d, s) {
            Some(c) => DomainRegs { src: c, selected: c, ..r1 },
            None => DomainRegs {
                src: AUX_PASSTHROUGH_CODE,
                selected: AUX_PASSTHROUGH_CODE,
                auxsrc: aux_code(d, s).unwrap(),
                ..r1
            },
        }
    } else {
        DomainRegs { auxsrc: aux_code(d, s).unwrap(), enabled: true, ..r1 }
    }
}

/// Running one more operation applies it to the registers reached so far.
pub broadcast proof fn lemma_run_push(d: DomainId, r: DomainRegs, ops: Seq<ClockOp>, op: ClockOp)
    ensures
        #[trigger] run_ops(d, r, ops.push(op)) == apply_op(d, run_ops(d, r, ops), op),
{
    assert(ops.push(op).drop_last() =~= ops);
}

/// Running two sequences one after the other runs their concatenation.
pub broadcast proof fn lemma_run_concat(d: DomainId, r: DomainRegs, a: Seq<ClockOp>, b: Seq<ClockOp>)
    ensures
        #[trigger] run_ops(d, r, a + b) == run_ops(d, run_ops(d, r, a), b),
    decreases b.len(),
{
    if b.len() == 0 {
        assert(a + b =~= a);
    } else {
        lemma_run_concat(d, r, a, b.drop_last());
        assert((a + b).drop_last() =~= a + b.drop_last());
    }
}

/// A configuration sequence leaves the domain's registers as [`configured_regs`] says.
pub proof fn lemma_plan_result(d: DomainId, s: SourceId, r: DomainRegs, current_div: u32, div: u32, settle: Option<u32>)
    requires
        is_legal(d, s),
    ensures
        run_ops(d, r, plan_of(d, s, current_div, div, settle)) == configured_regs(d, s, r, div),
{
    broadcast use lemma_run_push, lemma_run_concat;
    let pre = if div > current_div {
        seq![ClockOp::SetDiv(div)]
    } else {
        Seq::<ClockOp>::empty()
    };
    let post = if div <= current_div {
        seq![ClockOp::SetDiv(div)]
    } else {
        Seq::<ClockOp>::empty()
    };
    let sw = switch_ops(d, s, settle);
    assert(run_ops(d, r, Seq::<ClockOp>::empty()) == r);
    let r0 = run_ops(d, r, pre);
    let r1 = run_ops(d, r0, sw);
    assert(run_ops(d, r1, post) == run_ops(d, r, plan_of(d, s, current_div, div, settle)));
    let rd = if has_divider(d) {
        DomainRegs { div, ..r }
    } else {
        r
    };
    if div > current_div {
        assert(r0 == apply_op(d, r, ClockOp::SetDiv(div)));
        assert(run_ops(d, r1, post) == r1);
    } else {
        assert(r0 == r);
        assert(run_ops(d, r1, post) == apply_op(d, r1, ClockOp::SetDiv(div)));
    }
    if !is_glitchless(d) {
        let mid = match settle {
            Some(n) => seq![ClockOp::Delay(n)],
            None => Seq::<ClockOp>::empty(),
        };
        let tail = seq![ClockOp::SelectAux(aux_code(d, s).unwrap()), ClockOp::Enable];
        let rdis = run_ops(d, r0, seq![ClockOp::Disable]);
        assert(run_ops(d, r0, seq![ClockOp::Disable] + mid) == run_ops(d, rdis, mid));
        assert(run_ops(d, rdis, mid) == rdis);
        assert(sw == seq![ClockOp::Disable] + mid + tail);
        assert(tail =~= seq![ClockOp::SelectAux(aux_code(d, s).unwrap())].push(ClockOp::Enable));
        assert(r1 == run_ops(d, rdis, tail));
        let rx = apply_op(d, rdis, ClockOp::SelectAux(aux_code(d, s).unwrap()));
        assert(run_ops(d, rdis, seq![ClockOp::SelectAux(aux_code(d, s).unwrap())]) == rx);
        assert(r1 == apply_op(d, rx, ClockOp::Enable));
        assert(r1 == DomainRegs { auxsrc: aux_code(d, s).unwrap(), enabled: true, ..r0 });
    } else {
        match primary_code(d, s) {
            Some(c) => {
                assert(sw =~= seq![ClockOp::SelectSrc(c)].push(ClockOp::AwaitSelected(c)));
                let rs = apply_op(d, r0, ClockOp::SelectSrc(c));
                assert(run_ops(d, r0, seq![ClockOp::SelectSrc(c)]) == rs);
                assert(r1 == rs);
                assert(r1 == DomainRegs { src: c, selected: c, ..r0 });
            },
            None => {
                let a = aux_code(d, s).unwrap();
                assert(sw =~= seq![ClockOp::SelectSrc(DEFAULT_SRC_CODE)].push(
                    ClockOp::AwaitSelected(DEFAULT_SRC_CODE),
                ).push(ClockOp::SelectAux(a)).push(ClockOp::SelectSrc(AUX_PASSTHROUGH_CODE)).push(
                    ClockOp::AwaitSelected(AUX_PASSTHROUGH_CODE),
                ));
                assert(r1 == DomainRegs {
                    src: AUX_PASSTHROUGH_CODE,
                    selected: AUX_PASSTHROUGH_CODE,
                    auxsrc: aux_code(d, s).unwrap(),
                    ..r0
                });
            },
        }
    }
}

pub open spec fn reset_regs() -> DomainRegs {
    DomainRegs { src: 0, auxsrc: 0, enabled: false, killed: false, div: 1, selected: 0 }
}

/// An image of the clock register block shared by all domains, with the
/// record of every operation made on it.
pub struct ClockRegisters {
    domains: Vec<DomainRegs>,
    trace: Vec<ClockWrite>,
}

impl ClockRegisters {
    pub closed spec fn spec_domains(&self) -> Seq<DomainRegs> {
        self.domains@
    }

    pub closed spec fn spec_trace(&self) -> Seq<ClockWrite> {
        self.trace@
    }

    pub open spec fn regs_of(&self, d: DomainId) -> DomainRegs {
        self.spec_domains()[domain_index(d)]
    }

    pub open spec fn wf(&self) -> bool {
        self.spec_domains().len() == DOMAIN_COUNT
    }

    /// A block at its reset values, with an empty record.
    pub fn new() -> (r: ClockRegisters)
        ensures
            r.wf(),
            forall|d: DomainId| r.regs_of(d) == reset_regs(),
            r.spec_trace().len() == 0,
    {
        let mut domains: Vec<DomainRegs> = Vec::new();
        let mut i: usize = 0;
        while i < DOMAIN_COUNT
            invariant
                i <= DOMAIN_COUNT,
                domains@.len() == i,
                forall|j: int| 0 <= j < i ==> domains@[j] == reset_regs(),
            decreases DOMAIN_COUNT - i,
        {
            domains.push(DomainRegs { src: 0, auxsrc: 0, enabled: false, killed: false, div: 1, selected: 0 });
            i = i + 1;
        }
        ClockRegisters { domains, trace: Vec::new() }
    }

    /// The registers of `d`.
    pub fn domain(&self, d: DomainId) -> (r: DomainRegs)
        requires
            self.wf(),
        ensures
            r == self.regs_of(d),
    {
        self.domains[domain_slot(d)]
    }

    /// Every operation made so far, oldest first.
    pub fn trace(&self) -> (r: &Vec<ClockWrite>)
        ensures
            r@ == self.spec_trace(),
    {
        &self.trace
    }

    /// Reads the divisor of `d`: 1 on a domain without a divider.
    pub fn get_div(&self, d: DomainId) -> (r: u32)
        requires
            self.wf(),
        ensures
            r == if has_divider(d) { self.regs_of(d).div } else { 1 },
    {
        if has_divider_domain(d) {
            self.domains[domain_slot(d)].div
        } else {
            1
        }
    }

    /// Polls whether the selected-status register of `d` shows exactly input `bit`.
    pub fn is_selected(&self, d: DomainId, bit: u8) -> (r: bool)
        requires
            self.wf(),
        ensures
            r == (self.regs_of(d).selected == bit),
    {
        self.domains[domain_slot(d)].selected == bit
    }

    /// Makes one operation on `d` and records it.
    pub fn apply(&mut self, d: DomainId, op: ClockOp)
        requires
            old(self).wf(),
        ensures
            final(self).wf(),
            final(self).spec_domains() == old(self).spec_domains().update(
                domain_index(d),
                apply_op(d, old(self).regs_of(d), op),
            ),
            final(self).spec_trace() == old(self).spec_trace().push(ClockWrite { domain: d, op }),
    {
        let i = domain_slot(d);
        let r = self.domains[i];
        let glitchless = is_glitchless_domain(d);
        let n = match op {
            ClockOp::SetDiv(v) => if has_divider_domain(d) {
                DomainRegs { div: v, ..r }
            } else {
                r
            },
            ClockOp::SelectSrc(c) => if glitchless {
                DomainRegs { src: c, selected: c, ..r }
            } else {
                r
            },
            ClockOp::SelectAux(a) => DomainRegs { auxsrc: a, ..r },
            ClockOp::Disable => if glitchless {
                r
            } else {
                DomainRegs { enabled: false, ..r }
            },
            ClockOp::Enable => if glitchless {
                r
            } else {
                DomainRegs { enabled: true, ..r }
            },
            ClockOp::AwaitSelected(_) | ClockOp::Delay(_) => r,
        };
        self.domains.set(i, n);
        self.trace.push(ClockWrite { domain: d, op });
    }

    /// Sets the kill bit of `d`.
    pub fn kill(&mut self, d: DomainId)
        requires
            old(self).wf(),
        ensures
            final(self).wf(),
            final(self).spec_domains() == old(self).spec_domains().update(
                domain_index(d),
                DomainRegs { killed: true, ..old(self).regs_of(d) },
            ),
            final(self).spec_trace() == old(self).spec_trace(),
    {
        let i = domain_slot(d);
        let r = self.domains[i];
        self.domains.set(i, DomainRegs { killed: true, ..r });
    }
}

/// One clock domain's record: which domain it is, and the frequency it was
/// last configured to (0 until the first successful configuration).
pub struct Clock {
    id: DomainId,
    frequency: u32,
}

impl Clock {
    pub closed spec fn spec_id(&self) -> DomainId {
        self.id
    }

    pub closed spec fn spec_freq(&self) -> u32 {
        self.frequency
    }

    /// The domain this record stands for.
    pub fn id(&self) -> (r: DomainId)
        ensures
            r == self.spec_id(),
    {
        self.id
    }

    /// The frequency of the last successful configuration, 0 before any.
    pub fn freq(&self) -> (r: u32)
        ensures
            r == self.spec_freq(),
    {
        self.frequency
    }

    /// Records the outcome of a configuration sequence that was run elsewhere
    /// (on the hardware) for the request `(source, source_freq, target)`.
    pub fn record_configured(&mut self, source: SourceId, source_freq: u32, target: u32) -> (r: Result<(), ClockError>)
        ensures
            final(self).spec_id() == old(self).spec_id(),
            match configure_outcome(old(self).spec_id(), source, source_freq, target) {
                Ok(div) => r is Ok && final(self).spec_freq() == source_freq / div,
                Err(e) => r == Err::<(), ClockError>(e) && final(self).spec_freq() == old(self).spec_freq(),
            },
    {
        match check_request(self.id, source, source_freq, target) {
            Ok(div) => {
                proof {
                    lemma_outcome_divisor(self.id, source, source_freq, target);
                }
                self.frequency = source_freq / div;
                Ok(())
            },
            Err(e) => Err(e),
        }
    }

    /// Switches this domain to `source` at the largest frequency not above
    /// `target` that an integer divisor of `source_freq` gives. A divisor larger
    /// than the current one is written before the switch, any other after it.
    /// `reference_freq` is the processor clock that times the settle delay of a
    /// stoppable domain that was running.
    pub fn configure(
        &mut self,
        regs: &mut ClockRegisters,
        source: SourceId,
        source_freq: u32,
        target: u32,
        reference_freq: u32,
    ) -> (r: Result<(), ClockError>)
        requires
            old(regs).wf(),
        ensures
            final(regs).wf(),
            final(self).spec_id() == old(self).spec_id(),
            match configure_outcome(old(self).spec_id(), source, source_freq, target) {
                Ok(div) => {
                    let d = old(self).spec_id();
                    let plan = plan_of(
                        d,
                        source,
                        reg_divisor(d, old(regs).regs_of(d)),
                        div,
                        settle_cycles(reference_freq, old(self).spec_freq()),
                    );
                    &&& r is Ok
                    &&& div >= 1
                    &&& div == source_freq / target
                    &&& final(self).spec_freq() == source_freq / div
                    &&& reg_divisor(d, final(regs).regs_of(d)) == div
                    &&& final(regs).spec_domains() == old(regs).spec_domains().update(
                        domain_index(d),
                        configured_regs(d, source, old(regs).regs_of(d), div),
                    )
                    &&& final(regs).spec_trace() == old(regs).spec_trace() + tagged(d, plan)
                },
                Err(e) => {
                    &&& r == Err::<(), ClockError>(e)
                    &&& final(regs).spec_domains() == old(regs).spec_domains()
                    &&& final(regs).spec_trace() == old(regs).spec_trace()
                    &&& final(self).spec_freq() == old(self).spec_freq()
                },
            },
    {
        let d = self.id;
        let current_div = regs.get_div(d);
        let plan = match plan_configure(d, source, source_freq, target, current_div, self.frequency, reference_freq) {
            Ok(p) => p,
            Err(e) => return Err(e),
        };
        let ghost start_domains = regs.spec_domains();
        let ghost start_trace = regs.spec_trace();
        let ghost start = regs.regs_of(d);
        let mut i: usize = 0;
        while i < plan.len()
            invariant
                0 <= i <= plan@.len(),
                regs.wf(),
                regs.spec_domains() == start_domains.update(domain_index(d), run_ops(d, start, plan@.take(i as int))),
                regs.spec_trace() == start_trace + tagged(d, plan@.take(i as int)),
                start_domains.len() == DOMAIN_COUNT,
                start == start_domains[domain_index(d)],
            decreases plan@.len() - i,
        {
            let op = plan[i];
            regs.apply(d, op);
            proof {
                assert(plan@.take(i + 1).drop_last() =~= plan@.take(i as int));
                assert(tagged(d, plan@.take(i + 1)) =~= tagged(d, plan@.take(i as int)).push(ClockWrite { domain: d, op }));
                assert(regs.spec_domains() =~= start_domains.update(domain_index(d), run_ops(d, start, plan@.take(i + 1))));
            }
            i = i + 1;
        }
        proof {
            assert(plan@.take(plan@.len() as int) =~= plan@);
            let div = (source_freq / target) as u32;
            lemma_plan_result(d, source, start, current_div, div, settle_cycles(reference_freq, self.frequency));
            assert(regs.spec_domains() =~= start_domains.update(domain_index(d), configured_regs(d, source, start, div)));
        }
        proof {
            lemma_outcome_divisor(d, source, source_freq, target);
        }
        let div: u32 = source_freq / target;
        self.frequency = source_freq / div;
        Ok(())
    }

    /// Sets the enable bit (no effect on a glitchless domain).
    pub fn enable(&self, regs: &mut ClockRegisters)
        requires
            old(regs).wf(),
        ensures
            final(regs).wf(),
            final(regs).spec_domains() == old(regs).spec_domains().update(
                domain_index(self.spec_id()),
                apply_op(self.spec_id(), old(regs).regs_of(self.spec_id()), ClockOp::Enable),
            ),
            final(regs).spec_trace() == old(regs).spec_trace().push(ClockWrite { domain: self.spec_id(), op: ClockOp::Enable }),
    {
        regs.apply(self.id, ClockOp::Enable);
    }

    /// Clears the enable bit (no effect on a glitchless domain).
    pub fn disable(&self, regs: &mut ClockRegisters)
        requires
            old(regs).wf(),
        ensures
            final(regs).wf(),
            final(regs).spec_domains() == old(regs).spec_domains().update(
                domain_index(self.spec_id()),
                apply_op(self.spec_id(), old(regs).regs_of(self.spec_id()), ClockOp::Disable),
            ),
            final(regs).spec_trace() == old(regs).spec_trace().push(ClockWrite { domain: self.spec_id(), op: ClockOp::Disable }),
    {
        regs.apply(self.id, ClockOp::Disable);
    }

    /// Sets the kill bit.
    pub fn kill(&self, regs: &mut ClockRegisters)
        requires
            old(regs).wf(),
        ensures
            final(regs).wf(),
            final(regs).spec_domains() == old(regs).spec_domains().update(
                domain_index(self.spec_id()),
                DomainRegs { killed: true, ..old(regs).regs_of(self.spec_id()) },
            ),
            final(regs).spec_trace() == old(regs).spec_trace(),
    {
        regs.kill(self.id);
    }

    /// Writes the divisor (ignored by a domain without a divider).
    pub fn set_div(&self, regs: &mut ClockRegisters, div: u32)
        requires
            old(regs).wf(),
        ensures
            final(regs).wf(),
            final(regs).spec_domains() == old(regs).spec_domains().update(
                domain_index(self.spec_id()),
                apply_op(self.spec_id(), old(regs).regs_of(self.spec_id()), ClockOp::SetDiv(div)),
            ),
            final(regs).spec_trace() == old(regs).spec_trace().push(ClockWrite { domain: self.spec_id(), op: ClockOp::SetDiv(div) }),
    {
        regs.apply(self.id, ClockOp::SetDiv(div));
    }

    /// Reads the divisor: 1 on a domain without a divider.
    pub fn get_div(&self, regs: &ClockRegisters) -> (r: u32)
        requires
            regs.wf(),
        ensures
            r == reg_divisor(self.spec_id(), regs.regs_of(self.spec_id())),
    {
        regs.get_div(self.id)
    }
}

/// Configuring a domain twice with the same request yields the same divisor
/// (and so the same cached frequency) both times; the second run writes the
/// divisor only after the switch and leaves the registers exactly as the first
/// run left them.
pub proof fn lemma_configure_idempotent(
    d: DomainId,
    s: SourceId,
    source_freq: u32,
    target: u32,
    r: DomainRegs,
    settle1: Option<u32>,
    settle2: Option<u32>,
)
    requires
        configure_outcome(d, s, source_freq, target) is Ok,
    ensures
        ({
            let div = configure_outcome(d, s, source_freq, target)->Ok_0;
            let r1 = run_ops(d, r, plan_of(d, s, reg_divisor(d, r), div, settle1));
            let p2 = plan_of(d, s, reg_divisor(d, r1), div, settle2);
            let r2 = run_ops(d, r1, p2);
            &&& reg_divisor(d, r1) == div
            &&& reg_divisor(d, r2) == div
            &&& r2 == r1
            &&& p2.last() == ClockOp::SetDiv(div)
            &&& forall|i: int| 0 <= i < p2.len() - 1 ==> !(#[trigger] p2[i] is SetDiv)
        }),
{
    let div = configure_outcome(d, s, source_freq, target)->Ok_0;
    lemma_outcome_divisor(d, s, source_freq, target);
    lemma_plan_result(d, s, r, reg_divisor(d, r), div, settle1);
    let r1 = run_ops(d, r, plan_of(d, s, reg_divisor(d, r), div, settle1));
    lemma_plan_result(d, s, r1, reg_divisor(d, r1), div, settle2);
    lemma_divisor_order(d, s, reg_divisor(d, r1), div, settle2);
}

/// Seen on the registers: when the auxiliary mux of a stoppable domain is
/// written, its enable bit is clear, and the next operation sets it; when the
/// auxiliary mux of a glitchless domain is written, its primary mux is on the
/// default input and the status shows that input selected.
pub proof fn lemma_aux_write_state(d: DomainId, s: SourceId, r: DomainRegs, current_div: u32, div: u32, settle: Option<u32>)
    requires
        is_legal(d, s),
        !is_glitchless(d) || primary_code(d, s) is None,
    ensures
        ({
            let p = plan_of(d, s, current_div, div, settle);
            let o = pre_len(current_div, div);
            let k = if is_glitchless(d) {
                o + 2
            } else if settle is Some {
                o + 2
            } else {
                o + 1
            };
            &&& 0 <= k < p.len()
            &&& p[k] is SelectAux
            &&& !is_glitchless(d) ==> !run_ops(d, r, p.take(k)).enabled && run_ops(d, r, p.take(k + 2)).enabled
            &&& is_glitchless(d) ==> run_ops(d, r, p.take(k)).src == DEFAULT_SRC_CODE && run_ops(
                d,
                r,
                p.take(k),
            ).selected == DEFAULT_SRC_CODE
        }),
{
    broadcast use lemma_run_push, lemma_run_concat;
    let p = plan_of(d, s, current_div, div, settle);
    let pre = if div > current_div {
        seq![ClockOp::SetDiv(div)]
    } else {
        Seq::<ClockOp>::empty()
    };
    let r0 = run_ops(d, r, pre);
    assert(run_ops(d, r, Seq::<ClockOp>::empty()) == r);
    let a = aux_code(d, s).unwrap();
    if is_glitchless(d) {
        lemma_aux_passthrough(d, s, current_div, div, settle);
        let k = pre_len(current_div, div) + 2;
        assert(p.take(k) =~= pre + seq![ClockOp::SelectSrc(DEFAULT_SRC_CODE)].push(ClockOp::AwaitSelected(DEFAULT_SRC_CODE)));
        assert(run_ops(d, r0, seq![ClockOp::SelectSrc(DEFAULT_SRC_CODE)]) == apply_op(d, r0, ClockOp::SelectSrc(DEFAULT_SRC_CODE)));
    } else {
        lemma_stop_before_remux(d, s, current_div, div, settle);
        let mid = match settle {
            Some(n) => seq![ClockOp::Delay(n)],
            None => Seq::<ClockOp>::empty(),
        };
        let k = if settle is Some {
            pre_len(current_div, div) + 2
        } else {
            pre_len(current_div, div) + 1
        };
        assert(p.take(k) =~= pre + seq![ClockOp::Disable] + mid);
        assert(p.take(k + 2) =~= (pre + seq![ClockOp::Disable] + mid).push(ClockOp::SelectAux(a)).push(ClockOp::Enable));
        let rdis = run_ops(d, r0, seq![ClockOp::Disable]);
        assert(rdis == apply_op(d, r0, ClockOp::Disable));
        assert(run_ops(d, rdis, mid) == rdis);
        assert(run_ops(d, r, pre + seq![ClockOp::Disable]) == rdis);
    }
}

/// Hands out the record of each clock domain at most once, and holds the
/// register image that all domains share.
pub struct ClocksManager {
    regs: ClockRegisters,
    handed: Vec<bool>,
}

impl ClocksManager {
    pub closed spec fn spec_regs(&self) -> ClockRegisters {
        self.regs
    }

    /// Whether the record of `d` has been handed out.
    pub closed spec fn spec_handed(&self, d: DomainId) -> bool {
        self.handed@[domain_index(d)]
    }

    pub closed spec fn wf(&self) -> bool {
        self.regs.wf() && self.handed@.len() == DOMAIN_COUNT
    }

    /// A manager over a register block at its reset values, with no record handed out.
    pub fn new() -> (r: ClocksManager)
        ensures
            r.wf(),
            r.spec_regs().wf(),
            forall|d: DomainId| !r.spec_handed(d),
            forall|d: DomainId| r.spec_regs().regs_of(d) == reset_regs(),
            r.spec_regs().spec_trace().len() == 0,
    {
        let mut handed: Vec<bool> = Vec::new();
        let mut i: usize = 0;
        while i < DOMAIN_COUNT
            invariant
                i <= DOMAIN_COUNT,
                handed@.len() == i,
                forall|j: int| 0 <= j < i ==> !handed@[j],
            decreases DOMAIN_COUNT - i,
        {
            handed.push(false);
            i = i + 1;
        }
        ClocksManager { regs: ClockRegisters::new(), handed }
    }

    /// The record of `d`, unconfigured, on the first request; `None` on every later one.
    pub fn take(&mut self, d: DomainId) -> (r: Option<Clock>)
        requires
            old(self).wf(),
        ensures
            final(self).wf(),
            final(self).spec_regs() == old(self).spec_regs(),
            final(self).spec_regs().wf(),
            final(self).spec_handed(d),
            forall|e: DomainId| e != d ==> final(self).spec_handed(e) == old(self).spec_handed(e),
            old(self).spec_handed(d) ==> r is None,
            !old(self).spec_handed(d) ==> (r matches Some(c) && c.spec_id() == d && c.spec_freq() == 0),
    {
        let i = domain_slot(d);
        if self.handed[i] {
            None
        } else {
            self.handed.set(i, true);
            proof {
                assert forall|e: DomainId| e != d implies self.spec_handed(e) == old(self).spec_handed(e) by {
                    assert(domain_index(e) != domain_index(d));
                }
            }
            Some(Clock { id: d, frequency: 0 })
        }
    }

    /// The shared register image.
    pub fn registers(&self) -> (r: &ClockRegisters)
        ensures
            *r == self.spec_regs(),
    {
        &self.regs
    }

    /// Configures `clock` on the shared register image, as [`Clock::configure`] does.
    pub fn configure(
        &mut self,
        clock: &mut Clock,
        source: SourceId,
        source_freq: u32,
        target: u32,
        reference_freq: u32,
    ) -> (r: Result<(), ClockError>)
        requires
            old(self).wf(),
        ensures
            final(self).wf(),
            final(self).spec_regs().wf(),
            forall|e: DomainId| final(self).spec_handed(e) == old(self).spec_handed(e),
            final(clock).spec_id() == old(clock).spec_id(),
            match configure_outcome(old(clock).spec_id(), source, source_freq, target) {
                Ok(div) => {
                    let d = old(clock).spec_id();
                    &&& r is Ok
                    &&& final(clock).spec_freq() == source_freq / div
                    &&& reg_divisor(d, final(self).spec_regs().regs_of(d)) == div
                    &&& final(self).spec_regs().spec_domains() == old(self).spec_regs().spec_domains().update(
                        domain_index(d),
                        configured_regs(d, source, old(self).spec_regs().regs_of(d), div),
                    )
                    &&& final(self).spec_regs().spec_trace() == old(self).spec_regs().spec_trace() + tagged(
                        d,
                        plan_of(
                            d,
                            source,
                            reg_divisor(d, old(self).spec_regs().regs_of(d)),
                            div,
                            settle_cycles(reference_freq, old(clock).spec_freq()),
                        ),
                    )
                },
                Err(e) => {
                    &&& r == Err::<(), ClockError>(e)
                    &&& final(self).spec_regs().spec_domains() == old(self).spec_regs().spec_domains()
                    &&& final(self).spec_regs().spec_trace() == old(self).spec_regs().spec_trace()
                    &&& final(clock).spec_freq() == old(clock).spec_freq()
                },
            },
    {
        clock.configure(&mut self.regs, source, source_freq, target, reference_freq)
    }
}

} // verus!
