//! The scoring engine: turns raw municipal financial metrics into a weighted
//! 0-100 composite score with four named pillar scores.
//!
//! Every metric is optional; a pillar whose inputs are missing (or whose
//! denominator is not strictly positive) cannot be assessed and contributes 0
//! to the overall score — the weights are never renormalized.  All arithmetic
//! is exact fixed-point ([`crate::decimal`]); piecewise-linear normalization
//! curves are exact at their breakpoints and clamp outside their domain.

use vstd::prelude::*;
use vstd::arithmetic::div_mod::{
    lemma_basic_div, lemma_div_is_ordered, lemma_div_multiples_vanish, lemma_div_pos_is_pos,
    lemma_fundamental_div_mod, lemma_mod_division_less_than_divisor, lemma_multiply_divide_lt,
};
use crate::decimal::{FixedDec, SCALE, spec_clamp};
use crate::text::trimmed;
use crate::text::{region_matches, trim_bounds};

verus! {

// --- Aggregation weights (in 10^-6 units; they sum to exactly 1.0) ---

pub const WEIGHT_FIN_HEALTH_UNITS: i128 = 300_000;

pub const WEIGHT_INFRA_UNITS: i128 = 250_000;

pub const WEIGHT_EFFICIENCY_UNITS: i128 = 250_000;

pub const WEIGHT_ACCOUNTABILITY_UNITS: i128 = 200_000;

// --- Score scale ---

/// 100, the top of the score range, in 10^-6 units.
pub const SCORE_MAX_UNITS: i128 = 100_000_000;

/// 50, the midpoint score at the middle breakpoint of each curve.
pub const SCORE_MID_UNITS: i128 = 50_000_000;

// --- Normalization breakpoints (ratios and amounts in 10^-6 units) ---

/// Revenue per capita scoring 0 (currency units per person).
pub const REV_PER_CAPITA_MIN_UNITS: i128 = 0;

/// Revenue per capita at or above which the sub-score saturates at 100.
pub const REV_PER_CAPITA_MAX_UNITS: i128 = 14_000_000_000;

/// Debt-to-revenue ratio at or below which the sub-score is 100 (0.10).
pub const DEBT_RATIO_MIN_UNITS: i128 = 100_000;

/// Debt-to-revenue ratio at or above which the sub-score is 0 (1.00).
pub const DEBT_RATIO_MAX_UNITS: i128 = 1_000_000;

/// Expenditure-to-revenue ratio at or below which efficiency scores 100 (0.85).
pub const EFFICIENCY_RATIO_BEST_UNITS: i128 = 850_000;

/// Expenditure-to-revenue ratio scoring exactly 50 (1.10).
pub const EFFICIENCY_RATIO_MID_UNITS: i128 = 1_100_000;

/// Expenditure-to-revenue ratio at or above which efficiency scores 0 (1.15).
pub const EFFICIENCY_RATIO_WORST_UNITS: i128 = 1_150_000;

/// Capital-expenditure ratio at or below which infrastructure scores 0 (0.00).
pub const INFRA_RATIO_WORST_UNITS: i128 = 0;

/// Capital-expenditure ratio scoring exactly 50 (0.10).
pub const INFRA_RATIO_MID_UNITS: i128 = 100_000;

/// Capital-expenditure ratio at or above which infrastructure scores 100 (0.30).
pub const INFRA_RATIO_BEST_UNITS: i128 = 300_000;

// --- Accountability scores per audit category ---

pub const ACCOUNTABILITY_CLEAN_UNITS: i128 = 100_000_000;

pub const ACCOUNTABILITY_UNQUALIFIED_UNITS: i128 = 75_000_000;

pub const ACCOUNTABILITY_QUALIFIED_UNITS: i128 = 50_000_000;

pub const ACCOUNTABILITY_ADVERSE_UNITS: i128 = 25_000_000;

pub const ACCOUNTABILITY_DISCLAIMER_UNITS: i128 = 25_000_000;

// --- Data transfer shapes ---

/// The raw metrics of one municipality-year, as far as they are known.
/// Any field may be absent; the engine never fails on absence.
#[derive(Debug, Clone, PartialEq)]
pub struct ScoringInput {
    pub revenue: Option<FixedDec>,
    pub operating_expenditure: Option<FixedDec>,
    pub capital_expenditure: Option<FixedDec>,
    pub debt: Option<FixedDec>,
    pub audit_outcome: Option<String>,
    pub population: Option<u32>,
}

/// The computed scores of one municipality-year; every field lies in [0, 100].
#[derive(Debug, Clone, Copy, PartialEq)]
pub struct ScoreBreakdown {
    pub overall_score: FixedDec,
    pub financial_health_score: FixedDec,
    pub infrastructure_score: FixedDec,
    pub efficiency_score: FixedDec,
    pub accountability_score: FixedDec,
}

/// The closed set of audit-opinion categories, with an explicit catch-all for
/// labels that do not match the upstream taxonomy (kept verbatim so that
/// label drift stays observable).
#[derive(Debug, Clone, PartialEq, Eq)]
pub enum AuditOutcome {
    Clean,
    FinanciallyUnqualified,
    Qualified,
    Adverse,
    Disclaimer,
    Unrecognized(String),
}

// --- Specification: pillar scores over raw 10^-6 units ---

/// Units of the decimals of an optional metric.
pub open spec fn o_units(o: Option<FixedDec>) -> Option<int> {
    match o {
        Some(d) => Some(d@),
        None => None,
    }
}

/// Characters of an optional label.
pub open spec fn o_chars(o: Option<String>) -> Option<Seq<char>> {
    match o {
        Some(s) => Some(s@),
        None => None,
    }
}

/// Revenue-per-capita sub-score: the revenue-per-capita ratio scaled linearly
/// from the floor (score 0) to the ceiling (score 100), saturating outside.
pub open spec fn rev_per_cap_subscore_units(rv: int, pop: int) -> int
    recommends
        pop > 0,
{
    let lo = (REV_PER_CAPITA_MIN_UNITS as int) * pop;
    let hi = (REV_PER_CAPITA_MAX_UNITS as int) * pop;
    if rv <= lo {
        0
    } else if rv >= hi {
        SCORE_MAX_UNITS as int
    } else {
        (SCORE_MAX_UNITS as int) * (rv - lo) / (hi - lo)
    }
}

/// Debt-ratio sub-score: the debt-to-revenue ratio scaled linearly and
/// inverted between the floor (score 100) and the ceiling (score 0).
pub open spec fn debt_ratio_subscore_units(d: int, rv: int) -> int
    recommends
        rv > 0,
{
    let n = (SCALE as int) * d;
    let lo = (DEBT_RATIO_MIN_UNITS as int) * rv;
    let hi = (DEBT_RATIO_MAX_UNITS as int) * rv;
    if n <= lo {
        SCORE_MAX_UNITS as int
    } else if n >= hi {
        0
    } else {
        (SCORE_MAX_UNITS as int) - (SCORE_MAX_UNITS as int) * (n - lo) / (hi - lo)
    }
}

/// Financial health: the equal-weighted average of the two sub-scores.
pub open spec fn fin_health_units(rev_sub: int, debt_sub: int) -> int {
    (rev_sub + debt_sub) / 2
}

/// Infrastructure score: capital expenditure over total expenditure through
/// a three-point piecewise-linear curve; 0 when total expenditure is not
/// strictly positive (scored, not skipped).
pub open spec fn infra_score_units(o: int, c: int) -> int {
    let t = o + c;
    if t <= 0 {
        0
    } else {
        let n = (SCALE as int) * c;
        let worst = (INFRA_RATIO_WORST_UNITS as int) * t;
        let mid = (INFRA_RATIO_MID_UNITS as int) * t;
        let best = (INFRA_RATIO_BEST_UNITS as int) * t;
        if n <= worst {
            0
        } else if n < mid {
            (SCORE_MID_UNITS as int) * (n - worst) / (mid - worst)
        } else if n < best {
            (SCORE_MID_UNITS as int) + ((SCORE_MAX_UNITS - SCORE_MID_UNITS) as int) * (n - mid)
                / (best - mid)
        } else {
            SCORE_MAX_UNITS as int
        }
    }
}

/// Efficiency score: operating expenditure over revenue through a three-point
/// piecewise-linear curve centered on breakeven.
pub open spec fn efficiency_score_units(o: int, rv: int) -> int
    recommends
        rv > 0,
{
    let n = (SCALE as int) * o;
    let best = (EFFICIENCY_RATIO_BEST_UNITS as int) * rv;
    let mid = (EFFICIENCY_RATIO_MID_UNITS as int) * rv;
    let worst = (EFFICIENCY_RATIO_WORST_UNITS as int) * rv;
    if n <= best {
        SCORE_MAX_UNITS as int
    } else if n <= mid {
        (SCORE_MAX_UNITS as int) - ((SCORE_MAX_UNITS - SCORE_MID_UNITS) as int) * (n - best) / (
        mid - best)
    } else if n < worst {
        (SCORE_MID_UNITS as int) - (SCORE_MID_UNITS as int) * (n - mid) / (worst - mid)
    } else {
        0
    }
}

/// Accountability score of an optional audit-outcome label: an exact match of
/// the trimmed text against the upstream taxonomy; anything else, including
/// an absent label, scores 0.
pub open spec fn audit_score_units(label: Option<Seq<char>>) -> int {
    match label {
        None => 0,
        Some(s) => {
            let t = trimmed(s);
            if t == "Clean Audit"@ {
                ACCOUNTABILITY_CLEAN_UNITS as int
            } else if t == "Financially Unqualified"@ {
                ACCOUNTABILITY_UNQUALIFIED_UNITS as int
            } else if t == "Qualified Audit Opinion"@ {
                ACCOUNTABILITY_QUALIFIED_UNITS as int
            } else if t == "Adverse Audit Opinion"@ {
                ACCOUNTABILITY_ADVERSE_UNITS as int
            } else if t == "Disclaimer Of Audit Opinion"@ {
                ACCOUNTABILITY_DISCLAIMER_UNITS as int
            } else {
                0
            }
        },
    }
}

// --- Specification: optional pillar scores ---

/// Revenue-per-capita sub-score; `None` without revenue or a positive population.
pub open spec fn rev_per_cap_subscore_opt(rv: Option<int>, pop: Option<u32>) -> Option<int> {
    if rv is Some && pop is Some && pop->0 > 0 {
        Some(rev_per_cap_subscore_units(rv->0, pop->0 as int))
    } else {
        None
    }
}

/// Debt-ratio sub-score; `None` without debt or a strictly positive revenue.
pub open spec fn debt_ratio_subscore_opt(d: Option<int>, rv: Option<int>) -> Option<int> {
    if d is Some && rv is Some && rv->0 > 0 {
        Some(debt_ratio_subscore_units(d->0, rv->0))
    } else {
        None
    }
}

/// Financial-health pillar; `None` when either sub-score is `None`.
pub open spec fn fin_health_opt(rv: Option<int>, d: Option<int>, pop: Option<u32>) -> Option<
    int,
> {
    let a = rev_per_cap_subscore_opt(rv, pop);
    let b = debt_ratio_subscore_opt(d, rv);
    if a is Some && b is Some {
        Some(fin_health_units(a->0, b->0))
    } else {
        None
    }
}

/// Infrastructure pillar; `None` when either expenditure figure is absent.
pub open spec fn infra_score_opt(o: Option<int>, c: Option<int>) -> Option<int> {
    if o is Some && c is Some {
        Some(infra_score_units(o->0, c->0))
    } else {
        None
    }
}

/// Efficiency pillar; `None` without operating expenditure or positive revenue.
pub open spec fn efficiency_score_opt(o: Option<int>, rv: Option<int>) -> Option<int> {
    if o is Some && rv is Some && rv->0 > 0 {
        Some(efficiency_score_units(o->0, rv->0))
    } else {
        None
    }
}

/// The missing-pillar policy: a pillar that cannot be assessed contributes 0.
pub open spec fn pillar_or_zero(p: Option<int>) -> int {
    match p {
        Some(v) => v,
        None => 0,
    }
}

/// Overall score: the fixed-weight sum of the four pillar scores, clamped
/// into [0, 100] as a defensive invariant.
pub open spec fn overall_score_units(fh: int, inf: int, eff: int, acc: int) -> int {
    spec_clamp(
        ((WEIGHT_FIN_HEALTH_UNITS as int) * fh + (WEIGHT_INFRA_UNITS as int) * inf
            + (WEIGHT_EFFICIENCY_UNITS as int) * eff + (WEIGHT_ACCOUNTABILITY_UNITS as int)
            * acc) / (SCALE as int),
        0,
        SCORE_MAX_UNITS as int,
    )
}

/// What [`calculate_financial_score`] promises of its result: every pillar
/// field equals its pillar's score (or 0 where the pillar is `None`), and the
/// overall field is the fixed-weight sum of the four.
pub open spec fn breakdown_matches(input: ScoringInput, b: ScoreBreakdown) -> bool {
    let fh = pillar_or_zero(
        fin_health_opt(o_units(input.revenue), o_units(input.debt), input.population),
    );
    let inf = pillar_or_zero(
        infra_score_opt(
            o_units(input.operating_expenditure),
            o_units(input.capital_expenditure),
        ),
    );
    let eff = pillar_or_zero(
        efficiency_score_opt(o_units(input.operating_expenditure), o_units(input.revenue)),
    );
    let acc = audit_score_units(o_chars(input.audit_outcome));
    &&& b.financial_health_score@ == fh
    &&& b.infrastructure_score@ == inf
    &&& b.efficiency_score@ == eff
    &&& b.accountability_score@ == acc
    &&& b.overall_score@ == overall_score_units(fh, inf, eff, acc)
}

// --- Executable code ---

/// Floor of `a * b / c` computed without overflow.
fn mul_div_u128(a: u128, b: u128, c: u128) -> (r: u128)
    requires
        c > 0,
        a as int * b as int <= u128::MAX as int,
    ensures
        r as int == a as int * b as int / c as int,
{
    (a * b) / c
}

/// Clamps a score into [0, 100].
pub fn clamp_score(score: FixedDec) -> (r: FixedDec)
    ensures
        r@ == spec_clamp(score@, 0, SCORE_MAX_UNITS as int),
{
    let zero = FixedDec::zero();
    let top = FixedDec::from_units(SCORE_MAX_UNITS).unwrap();
    score.clamp_to(zero, top)
}

impl AuditOutcome {
    /// Classifies a free-text audit-outcome label by exact, case-sensitive
    /// match of its trimmed text against the upstream taxonomy.
    pub fn classify(label: &str) -> (r: AuditOutcome)
        ensures
            ({
                let t = trimmed(label@);
                &&& t == "Clean Audit"@ ==> r == AuditOutcome::Clean
                &&& t != "Clean Audit"@ && t == "Financially Unqualified"@ ==> r
                    == AuditOutcome::FinanciallyUnqualified
                &&& t != "Clean Audit"@ && t != "Financially Unqualified"@ && t
                    == "Qualified Audit Opinion"@ ==> r == AuditOutcome::Qualified
                &&& t != "Clean Audit"@ && t != "Financially Unqualified"@ && t
                    != "Qualified Audit Opinion"@ && t == "Adverse Audit Opinion"@ ==> r
                    == AuditOutcome::Adverse
                &&& t != "Clean Audit"@ && t != "Financially Unqualified"@ && t
                    != "Qualified Audit Opinion"@ && t != "Adverse Audit Opinion"@ && t
                    == "Disclaimer Of Audit Opinion"@ ==> r == AuditOutcome::Disclaimer
                &&& t != "Clean Audit"@ && t != "Financially Unqualified"@ && t
                    != "Qualified Audit Opinion"@ && t != "Adverse Audit Opinion"@ && t
                    != "Disclaimer Of Audit Opinion"@ ==> (r matches AuditOutcome::Unrecognized(
                    orig,
                ) && orig@ == label@)
            }),
    {
        let bounds = trim_bounds(label);
        let lo = bounds.0;
        let hi = bounds.1;
        if region_matches(label, lo, hi, "Clean Audit") {
            AuditOutcome::Clean
        } else if region_matches(label, lo, hi, "Financially Unqualified") {
            AuditOutcome::FinanciallyUnqualified
        } else if region_matches(label, lo, hi, "Qualified Audit Opinion") {
            AuditOutcome::Qualified
        } else if region_matches(label, lo, hi, "Adverse Audit Opinion") {
            AuditOutcome::Adverse
        } else if region_matches(label, lo, hi, "Disclaimer Of Audit Opinion") {
            AuditOutcome::Disclaimer
        } else {
            AuditOutcome::Unrecognized(label.to_owned())
        }
    }
}

/// Revenue-per-capita sub-score (0-100); `None` when revenue is absent or the
/// population is absent or zero.
pub fn calculate_rev_per_cap_subscore(
    revenue_opt: Option<FixedDec>,
    population_opt: Option<u32>,
) -> (r: Option<FixedDec>)
    ensures
        o_units(r) == rev_per_cap_subscore_opt(o_units(revenue_opt), population_opt),
        r is Some ==> 0 <= r->0@ <= SCORE_MAX_UNITS as int,
{
    let revenue = match revenue_opt {
        Some(v) => v,
        None => {
            return None;
        },
    };
    let population = match population_opt {
        Some(p) => p,
        None => {
            return None;
        },
    };
    if population == 0 {
        return None;
    }
    let rv: i128 = revenue.units();
    let pop: i128 = population as i128;
    let lo: i128 = REV_PER_CAPITA_MIN_UNITS * pop;
    let hi: i128 = REV_PER_CAPITA_MAX_UNITS * pop;
    let score_u: i128;
    if rv <= lo {
        score_u = 0;
    } else if rv >= hi {
        score_u = SCORE_MAX_UNITS;
    } else {
        let q = mul_div_u128(SCORE_MAX_UNITS as u128, (rv - lo) as u128, (hi - lo) as u128);
        proof {
            lemma_multiply_divide_lt(
                (SCORE_MAX_UNITS as int) * (rv - lo) as int,
                (hi - lo) as int,
                SCORE_MAX_UNITS as int,
            );
        }
        score_u = q as i128;
    }
    Some(FixedDec::from_units(score_u).unwrap())
}

/// Debt-ratio sub-score (0-100); `None` when debt is absent or revenue is
/// absent or not strictly positive.
pub fn calculate_debt_ratio_subscore(
    debt_opt: Option<FixedDec>,
    revenue_opt: Option<FixedDec>,
) -> (r: Option<FixedDec>)
    ensures
        o_units(r) == debt_ratio_subscore_opt(o_units(debt_opt), o_units(revenue_opt)),
        r is Some ==> 0 <= r->0@ <= SCORE_MAX_UNITS as int,
{
    let debt = match debt_opt {
        Some(v) => v,
        None => {
            return None;
        },
    };
    let revenue = match revenue_opt {
        Some(v) => v,
        None => {
            return None;
        },
    };
    let ru: i128 = revenue.units();
    if ru <= 0 {
        return None;
    }
    let du: i128 = debt.units();
    let n: i128 = SCALE * du;
    let lo: i128 = DEBT_RATIO_MIN_UNITS * ru;
    let hi: i128 = DEBT_RATIO_MAX_UNITS * ru;
    let score_u: i128;
    if n <= lo {
        score_u = SCORE_MAX_UNITS;
    } else if n >= hi {
        score_u = 0;
    } else {
        let q = mul_div_u128(SCORE_MAX_UNITS as u128, (n - lo) as u128, (hi - lo) as u128);
        proof {
            lemma_multiply_divide_lt(
                (SCORE_MAX_UNITS as int) * (n - lo) as int,
                (hi - lo) as int,
                SCORE_MAX_UNITS as int,
            );
            lemma_div_pos_is_pos(
                (SCORE_MAX_UNITS as int) * (n - lo) as int,
                (hi - lo) as int,
            );
        }
        score_u = SCORE_MAX_UNITS - (q as i128);
    }
    Some(FixedDec::from_units(score_u).unwrap())
}

/// Financial-health pillar (0-100): the equal-weighted average of the
/// revenue-per-capita and debt-ratio sub-scores; `None` when either is.
pub fn calculate_fin_health_score(
    revenue_opt: Option<FixedDec>,
    debt_opt: Option<FixedDec>,
    population_opt: Option<u32>,
) -> (r: Option<FixedDec>)
    ensures
        o_units(r) == fin_health_opt(o_units(revenue_opt), o_units(debt_opt), population_opt),
        r is Some ==> 0 <= r->0@ <= SCORE_MAX_UNITS as int,
{
    let rev_sub = match calculate_rev_per_cap_subscore(revenue_opt, population_opt) {
        Some(v) => v,
        None => {
            return None;
        },
    };
    let debt_sub = match calculate_debt_ratio_subscore(debt_opt, revenue_opt) {
        Some(v) => v,
        None => {
            return None;
        },
    };
    let au = rev_sub.units();
    let bu = debt_sub.units();
    let su: u128 = ((au as u128) + (bu as u128)) / 2;
    Some(FixedDec::from_units(su as i128).unwrap())
}

/// Infrastructure pillar (0-100): capital expenditure as a share of total
/// expenditure; `None` when either figure is absent, 0 when the total is not
/// strictly positive.
pub fn calculate_infra_score(
    operating_expenditure_opt: Option<FixedDec>,
    capex_opt: Option<FixedDec>,
) -> (r: Option<FixedDec>)
    ensures
        o_units(r) == infra_score_opt(o_units(operating_expenditure_opt), o_units(capex_opt)),
        r is Some ==> 0 <= r->0@ <= SCORE_MAX_UNITS as int,
{
    let opex = match operating_expenditure_opt {
        Some(v) => v,
        None => {
            return None;
        },
    };
    let capex = match capex_opt {
        Some(v) => v,
        None => {
            return None;
        },
    };
    let ou: i128 = opex.units();
    let cu: i128 = capex.units();
    let t: i128 = ou + cu;
    if t <= 0 {
        return Some(FixedDec::zero());
    }
    let n: i128 = SCALE * cu;
    let mid: i128 = INFRA_RATIO_MID_UNITS * t;
    let best: i128 = INFRA_RATIO_BEST_UNITS * t;
    let score_u: i128;
    if n <= 0 {
        score_u = 0;
    } else if n < mid {
        let q = mul_div_u128(SCORE_MID_UNITS as u128, n as u128, mid as u128);
        proof {
            lemma_multiply_divide_lt(
                (SCORE_MID_UNITS as int) * n as int,
                mid as int,
                SCORE_MID_UNITS as int,
            );
        }
        score_u = q as i128;
    } else if n < best {
        let q = mul_div_u128(
            (SCORE_MAX_UNITS - SCORE_MID_UNITS) as u128,
            (n - mid) as u128,
            (best - mid) as u128,
        );
        proof {
            lemma_multiply_divide_lt(
                ((SCORE_MAX_UNITS - SCORE_MID_UNITS) as int) * (n - mid) as int,
                (best - mid) as int,
                (SCORE_MAX_UNITS - SCORE_MID_UNITS) as int,
            );
        }
        score_u = SCORE_MID_UNITS + (q as i128);
    } else {
        score_u = SCORE_MAX_UNITS;
    }
    Some(FixedDec::from_units(score_u).unwrap())
}

/// Efficiency pillar (0-100): operating expenditure as a share of revenue;
/// `None` when expenditure is absent or revenue absent or not positive.
pub fn calculate_efficiency_score(
    operating_expenditure_opt: Option<FixedDec>,
    revenue_opt: Option<FixedDec>,
) -> (r: Option<FixedDec>)
    ensures
        o_units(r) == efficiency_score_opt(
            o_units(operating_expenditure_opt),
            o_units(revenue_opt),
        ),
        r is Some ==> 0 <= r->0@ <= SCORE_MAX_UNITS as int,
{
    let opex = match operating_expenditure_opt {
        Some(v) => v,
        None => {
            return None;
        },
    };
    let revenue = match revenue_opt {
        Some(v) => v,
        None => {
            return None;
        },
    };
    let ru: i128 = revenue.units();
    if ru <= 0 {
        return None;
    }
    let ou: i128 = opex.units();
    let n: i128 = SCALE * ou;
    let best: i128 = EFFICIENCY_RATIO_BEST_UNITS * ru;
    let mid: i128 = EFFICIENCY_RATIO_MID_UNITS * ru;
    let worst: i128 = EFFICIENCY_RATIO_WORST_UNITS * ru;
    let score_u: i128;
    if n <= best {
        score_u = SCORE_MAX_UNITS;
    } else if n <= mid {
        let q = mul_div_u128(
            (SCORE_MAX_UNITS - SCORE_MID_UNITS) as u128,
            (n - best) as u128,
            (mid - best) as u128,
        );
        proof {
            lemma_div_is_ordered(
                0,
                ((SCORE_MAX_UNITS - SCORE_MID_UNITS) as int) * (n - best) as int,
                (mid - best) as int,
            );
            lemma_div_is_ordered(
                ((SCORE_MAX_UNITS - SCORE_MID_UNITS) as int) * (n - best) as int,
                ((SCORE_MAX_UNITS - SCORE_MID_UNITS) as int) * (mid - best) as int,
                (mid - best) as int,
            );
            lemma_div_multiples_vanish(
                (SCORE_MAX_UNITS - SCORE_MID_UNITS) as int,
                (mid - best) as int,
            );
        }
        score_u = SCORE_MAX_UNITS - (q as i128);
    } else if n < worst {
        let q = mul_div_u128(
            SCORE_MID_UNITS as u128,
            (n - mid) as u128,
            (worst - mid) as u128,
        );
        proof {
            lemma_multiply_divide_lt(
                (SCORE_MID_UNITS as int) * (n - mid) as int,
                (worst - mid) as int,
                SCORE_MID_UNITS as int,
            );
            lemma_div_pos_is_pos(
                (SCORE_MID_UNITS as int) * (n - mid) as int,
                (worst - mid) as int,
            );
        }
        score_u = SCORE_MID_UNITS - (q as i128);
    } else {
        score_u = 0;
    }
    Some(FixedDec::from_units(score_u).unwrap())
}

/// Accountability score: classifies the label and maps the category to its
/// documented score; an absent or unrecognized label scores 0, never `None`.
pub fn calculate_accountability_score(outcome_str_opt: Option<&str>) -> (r: FixedDec)
    ensures
        r@ == audit_score_units(
            match outcome_str_opt {
                Some(s) => Some(s@),
                None => None,
            },
        ),
        0 <= r@ <= SCORE_MAX_UNITS as int,
{
    match outcome_str_opt {
        None => FixedDec::zero(),
        Some(s) => {
            match AuditOutcome::classify(s) {
                AuditOutcome::Clean => FixedDec::from_units(ACCOUNTABILITY_CLEAN_UNITS).unwrap(),
                AuditOutcome::FinanciallyUnqualified => FixedDec::from_units(
                    ACCOUNTABILITY_UNQUALIFIED_UNITS,
                ).unwrap(),
                AuditOutcome::Qualified => FixedDec::from_units(
                    ACCOUNTABILITY_QUALIFIED_UNITS,
                ).unwrap(),
                AuditOutcome::Adverse => FixedDec::from_units(
                    ACCOUNTABILITY_ADVERSE_UNITS,
                ).unwrap(),
                AuditOutcome::Disclaimer => FixedDec::from_units(
                    ACCOUNTABILITY_DISCLAIMER_UNITS,
                ).unwrap(),
                AuditOutcome::Unrecognized(_) => FixedDec::zero(),
            }
        },
    }
}

/// Computes the full score breakdown.  Always returns a result: a pillar that
/// cannot be assessed contributes 0, and every field lies in [0, 100].
pub fn calculate_financial_score(input: &ScoringInput) -> (r: Option<ScoreBreakdown>)
    ensures
        r is Some,
        breakdown_matches(*input, r->0),
        0 <= r->0.overall_score@ <= SCORE_MAX_UNITS as int,
        0 <= r->0.financial_health_score@ <= SCORE_MAX_UNITS as int,
        0 <= r->0.infrastructure_score@ <= SCORE_MAX_UNITS as int,
        0 <= r->0.efficiency_score@ <= SCORE_MAX_UNITS as int,
        0 <= r->0.accountability_score@ <= SCORE_MAX_UNITS as int,
{
    let fin_health = match calculate_fin_health_score(input.revenue, input.debt, input.population) {
        Some(v) => v,
        None => FixedDec::zero(),
    };
    let infra = match calculate_infra_score(input.operating_expenditure, input.capital_expenditure) {
        Some(v) => v,
        None => FixedDec::zero(),
    };
    let efficiency = match calculate_efficiency_score(input.operating_expenditure, input.revenue) {
        Some(v) => v,
        None => FixedDec::zero(),
    };
    let accountability = calculate_accountability_score(
        match &input.audit_outcome {
            Some(s) => Some(s.as_str()),
            None => None,
        },
    );
    let fh_u = fin_health.units();
    let inf_u = infra.units();
    let eff_u = efficiency.units();
    let acc_u = accountability.units();
    let sum: u128 = (WEIGHT_FIN_HEALTH_UNITS as u128) * (fh_u as u128) + (WEIGHT_INFRA_UNITS
        as u128) * (inf_u as u128) + (WEIGHT_EFFICIENCY_UNITS as u128) * (eff_u as u128) + (
    WEIGHT_ACCOUNTABILITY_UNITS as u128) * (acc_u as u128);
    let ov: u128 = sum / (SCALE as u128);
    proof {
        lemma_div_is_ordered(0, sum as int, SCALE as int);
        lemma_div_is_ordered(sum as int, 100_000_000_000_000, SCALE as int);
    }
    let overall = clamp_score(FixedDec::from_units(ov as i128).unwrap());
    Some(
        ScoreBreakdown {
            overall_score: overall,
            financial_health_score: fin_health,
            infrastructure_score: infra,
            efficiency_score: efficiency,
            accountability_score: accountability,
        },
    )
}

// --- Laws ---

/// The four aggregation weights sum to exactly 1.00.
pub proof fn lemma_weights_sum_to_one()
    ensures
        WEIGHT_FIN_HEALTH_UNITS + WEIGHT_INFRA_UNITS + WEIGHT_EFFICIENCY_UNITS
            + WEIGHT_ACCOUNTABILITY_UNITS == SCALE,
{
}

/// For a fixed positive population, increasing revenue never decreases the
/// revenue-per-capita sub-score.
pub proof fn lemma_rev_per_cap_subscore_monotone(rv1: int, rv2: int, pop: int)
    requires
        pop > 0,
        rv1 <= rv2,
    ensures
        rev_per_cap_subscore_units(rv1, pop) <= rev_per_cap_subscore_units(rv2, pop),
{
    let sm = SCORE_MAX_UNITS as int;
    let lo = (REV_PER_CAPITA_MIN_UNITS as int) * pop;
    let hi = (REV_PER_CAPITA_MAX_UNITS as int) * pop;
    if lo < rv1 && rv1 < hi {
        if rv2 < hi {
            lemma_div_is_ordered(sm * (rv1 - lo), sm * (rv2 - lo), hi - lo);
        } else {
            lemma_multiply_divide_lt(sm * (rv1 - lo), hi - lo, sm);
        }
    } else if rv1 <= lo {
        if lo < rv2 && rv2 < hi {
            lemma_div_pos_is_pos(sm * (rv2 - lo), hi - lo);
        }
    }
}

/// For a fixed strictly positive revenue, increasing debt never increases the
/// debt-ratio sub-score.
pub proof fn lemma_debt_ratio_subscore_antitone(d1: int, d2: int, rv: int)
    requires
        rv > 0,
        d1 <= d2,
    ensures
        debt_ratio_subscore_units(d2, rv) <= debt_ratio_subscore_units(d1, rv),
{
    let sm = SCORE_MAX_UNITS as int;
    let n1 = (SCALE as int) * d1;
    let n2 = (SCALE as int) * d2;
    let lo = (DEBT_RATIO_MIN_UNITS as int) * rv;
    let hi = (DEBT_RATIO_MAX_UNITS as int) * rv;
    if lo < n1 && n1 < hi {
        if n2 < hi {
            lemma_div_is_ordered(sm * (n1 - lo), sm * (n2 - lo), hi - lo);
        } else {
            lemma_multiply_divide_lt(sm * (n1 - lo), hi - lo, sm);
        }
    } else if n1 <= lo {
        if lo < n2 && n2 < hi {
            lemma_div_pos_is_pos(sm * (n2 - lo), hi - lo);
        }
    }
}

/// Floor division respects the ordering of exact fractions: when the
/// cross-multiplication says `a2/b2 <= a1/b1` as rationals, the floored
/// quotients are ordered the same way.
proof fn lemma_div_cross_le(a1: int, b1: int, a2: int, b2: int)
    requires
        b1 > 0,
        b2 > 0,
        a2 * b1 <= a1 * b2,
    ensures
        a2 / b2 <= a1 / b1,
{
    let q2 = a2 / b2;
    lemma_fundamental_div_mod(a2, b2);
    lemma_mod_division_less_than_divisor(a2, b2);
    assert(b2 * q2 <= a2);
    assert((q2 * b1) * b2 <= a1 * b2) by (nonlinear_arith)
        requires
            b2 * q2 <= a2,
            a2 * b1 <= a1 * b2,
            b1 > 0,
            b2 > 0;
    assert(q2 * b1 <= a1) by (nonlinear_arith)
        requires
            (q2 * b1) * b2 <= a1 * b2,
            b2 > 0;
    lemma_div_is_ordered(q2 * b1, a1, b1);
    lemma_div_multiples_vanish(q2, b1);
    assert(q2 * b1 == b1 * q2) by (nonlinear_arith);
}

/// For a fixed debt, increasing strictly positive revenue never decreases
/// the debt-ratio sub-score: the debt-to-revenue ratio only falls.
pub proof fn lemma_debt_ratio_subscore_monotone_in_revenue(d: int, rv1: int, rv2: int)
    requires
        0 < rv1 <= rv2,
    ensures
        debt_ratio_subscore_units(d, rv1) <= debt_ratio_subscore_units(d, rv2),
{
    let sm = SCORE_MAX_UNITS as int;
    let n = (SCALE as int) * d;
    let lo1 = (DEBT_RATIO_MIN_UNITS as int) * rv1;
    let hi1 = (DEBT_RATIO_MAX_UNITS as int) * rv1;
    let lo2 = (DEBT_RATIO_MIN_UNITS as int) * rv2;
    let hi2 = (DEBT_RATIO_MAX_UNITS as int) * rv2;
    if n <= lo1 {
        // saturated at 100 for rv1, and the band floor only rises with rv2
    } else if n >= hi1 {
        // 0 for rv1; any score for rv2 is at least 0
        if lo2 < n && n < hi2 {
            lemma_multiply_divide_lt(sm * (n - lo2), hi2 - lo2, sm);
        }
    } else {
        if n <= lo2 {
            lemma_div_pos_is_pos(sm * (n - lo1), hi1 - lo1);
        } else {
            assert((sm * (n - lo2)) * (hi1 - lo1) <= (sm * (n - lo1)) * (hi2 - lo2))
                by (nonlinear_arith)
                requires
                    n > 0,
                    0 < rv1 <= rv2,
                    lo1 == 100_000 * rv1,
                    lo2 == 100_000 * rv2,
                    hi1 == 1_000_000 * rv1,
                    hi2 == 1_000_000 * rv2,
                    sm == 100_000_000;
            lemma_div_cross_le(sm * (n - lo1), hi1 - lo1, sm * (n - lo2), hi2 - lo2);
        }
    }
}

/// For a fixed positive population and fixed debt, increasing strictly
/// positive revenue never decreases the financial-health pillar score: both
/// of its sub-scores are monotone in revenue.
pub proof fn lemma_fin_health_monotone_in_revenue(rv1: int, rv2: int, d: int, pop: int)
    requires
        pop > 0,
        0 < rv1 <= rv2,
    ensures
        fin_health_units(
            rev_per_cap_subscore_units(rv1, pop),
            debt_ratio_subscore_units(d, rv1),
        ) <= fin_health_units(
            rev_per_cap_subscore_units(rv2, pop),
            debt_ratio_subscore_units(d, rv2),
        ),
{
    lemma_rev_per_cap_subscore_monotone(rv1, rv2, pop);
    lemma_debt_ratio_subscore_monotone_in_revenue(d, rv1, rv2);
    lemma_div_is_ordered(
        rev_per_cap_subscore_units(rv1, pop) + debt_ratio_subscore_units(d, rv1),
        rev_per_cap_subscore_units(rv2, pop) + debt_ratio_subscore_units(d, rv2),
        2,
    );
}

/// The infrastructure curve is exact at its breakpoints: a capital-expenditure
/// ratio at or below 0.00 scores 0, exactly 0.10 scores exactly 50, and at or
/// above 0.30 scores 100.
pub proof fn lemma_infra_score_breakpoints(o: int, c: int)
    requires
        o + c > 0,
    ensures
        (SCALE as int) * c <= (INFRA_RATIO_WORST_UNITS as int) * (o + c)
            ==> infra_score_units(o, c) == 0,
        (SCALE as int) * c == (INFRA_RATIO_MID_UNITS as int) * (o + c)
            ==> infra_score_units(o, c) == SCORE_MID_UNITS as int,
        (SCALE as int) * c >= (INFRA_RATIO_BEST_UNITS as int) * (o + c)
            ==> infra_score_units(o, c) == SCORE_MAX_UNITS as int,
{
    let t = o + c;
    let n = (SCALE as int) * c;
    let mid = (INFRA_RATIO_MID_UNITS as int) * t;
    let best = (INFRA_RATIO_BEST_UNITS as int) * t;
    if n == mid {
        lemma_basic_div(0, best - mid);
    }
}

/// The efficiency curve is exact at its breakpoints: an expenditure ratio at
/// or below 0.85 scores 100, exactly 1.10 scores exactly 50, and at or above
/// 1.15 scores 0.
pub proof fn lemma_efficiency_score_breakpoints(o: int, rv: int)
    requires
        rv > 0,
    ensures
        (SCALE as int) * o <= (EFFICIENCY_RATIO_BEST_UNITS as int) * rv
            ==> efficiency_score_units(o, rv) == SCORE_MAX_UNITS as int,
        (SCALE as int) * o == (EFFICIENCY_RATIO_MID_UNITS as int) * rv
            ==> efficiency_score_units(o, rv) == SCORE_MID_UNITS as int,
        (SCALE as int) * o >= (EFFICIENCY_RATIO_WORST_UNITS as int) * rv
            ==> efficiency_score_units(o, rv) == 0,
{
    let n = (SCALE as int) * o;
    let best = (EFFICIENCY_RATIO_BEST_UNITS as int) * rv;
    let mid = (EFFICIENCY_RATIO_MID_UNITS as int) * rv;
    if n == mid {
        lemma_div_multiples_vanish((SCORE_MAX_UNITS - SCORE_MID_UNITS) as int, mid - best);
    }
}

/// Each audit label of the upstream taxonomy maps to its documented score,
/// and an absent label maps to 0.
pub proof fn lemma_audit_label_scores()
    ensures
        audit_score_units(Some("Clean Audit"@)) == ACCOUNTABILITY_CLEAN_UNITS as int,
        audit_score_units(Some("Financially Unqualified"@)) == ACCOUNTABILITY_UNQUALIFIED_UNITS
            as int,
        audit_score_units(Some("Qualified Audit Opinion"@)) == ACCOUNTABILITY_QUALIFIED_UNITS
            as int,
        audit_score_units(Some("Adverse Audit Opinion"@)) == ACCOUNTABILITY_ADVERSE_UNITS as int,
        audit_score_units(Some("Disclaimer Of Audit Opinion"@)) == ACCOUNTABILITY_DISCLAIMER_UNITS
            as int,
        audit_score_units(None) == 0,
{
    reveal_strlit("Clean Audit");
    reveal_strlit("Financially Unqualified");
    reveal_strlit("Qualified Audit Opinion");
    reveal_strlit("Adverse Audit Opinion");
    reveal_strlit("Disclaimer Of Audit Opinion");
}

/// A label whose trimmed text is none of the five taxonomy labels scores 0,
/// exactly like an absent label.
pub proof fn lemma_unlisted_audit_label_scores_zero(s: Seq<char>)
    requires
        trimmed(s) != "Clean Audit"@,
        trimmed(s) != "Financially Unqualified"@,
        trimmed(s) != "Qualified Audit Opinion"@,
        trimmed(s) != "Adverse Audit Opinion"@,
        trimmed(s) != "Disclaimer Of Audit Opinion"@,
    ensures
        audit_score_units(Some(s)) == 0,
{
}

/// An input with every field absent yields a breakdown of five zeros: every
/// pillar is unassessable, defaults to 0, and the weighted sum of zeros is 0.
pub proof fn lemma_all_absent_scores_zero()
    ensures
        fin_health_opt(None, None, None) is None,
        infra_score_opt(None, None) is None,
        efficiency_score_opt(None, None) is None,
        audit_score_units(None) == 0,
        overall_score_units(0, 0, 0, 0) == 0,
{
    lemma_basic_div(0, SCALE as int);
}

} // verus!
