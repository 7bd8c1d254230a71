//! Record shapes shared with the surrounding service, and the decision logic
//! of the request path: choosing the cached record for a year, filling the
//! gaps with freshly fetched metrics, and writing computed scores back.
//!
//! The surrounding service does the fetching and the persistence; every
//! decision about which value wins lives here.

use vstd::prelude::*;
use crate::decimal::FixedDec;
use crate::scoring::{ScoreBreakdown, ScoringInput};

verus! {

/// The identifying facts of a municipality.
#[derive(Debug, Clone)]
pub struct MunicipalityBasicInfo {
    pub id: String,
    pub name: String,
    pub province: String,
}

/// Query parameters of the list endpoint.
#[derive(Debug, Clone, Copy)]
pub struct ListQuery {
    pub limit: Option<i64>,
}

/// One municipality-year of financial data, metrics and computed scores,
/// each as far as it is known.
#[derive(Debug, Clone)]
pub struct FinancialYearData {
    pub year: i32,
    pub revenue: Option<FixedDec>,
    pub operating_expenditure: Option<FixedDec>,
    pub capital_expenditure: Option<FixedDec>,
    pub debt: Option<FixedDec>,
    pub audit_outcome: Option<String>,
    pub overall_score: Option<FixedDec>,
    pub financial_health_score: Option<FixedDec>,
    pub infrastructure_score: Option<FixedDec>,
    pub efficiency_score: Option<FixedDec>,
    pub accountability_score: Option<FixedDec>,
}

/// A record with nothing known yet for the given year.
pub fn empty_year_record(year: i32) -> (r: FinancialYearData)
    ensures
        r.year == year,
        r.revenue is None,
        r.operating_expenditure is None,
        r.capital_expenditure is None,
        r.debt is None,
        r.audit_outcome is None,
        r.overall_score is None,
        r.financial_health_score is None,
        r.infrastructure_score is None,
        r.efficiency_score is None,
        r.accountability_score is None,
{
    FinancialYearData {
        year,
        revenue: None,
        operating_expenditure: None,
        capital_expenditure: None,
        debt: None,
        audit_outcome: None,
        overall_score: None,
        financial_health_score: None,
        infrastructure_score: None,
        efficiency_score: None,
        accountability_score: None,
    }
}

/// Finds the first record of the given year: its index, or `None` when no
/// record has that year.
pub fn find_year_index(records: &Vec<FinancialYearData>, year: i32) -> (r: Option<usize>)
    ensures
        r is Some ==> r->0 < records@.len() && records@[r->0 as int].year == year && (forall|
            k: int,
        |
            0 <= k < r->0 ==> records@[k].year != year),
        r is None ==> forall|k: int| 0 <= k < records@.len() ==> records@[k].year != year,
{
    let n = records.len();
    let mut i: usize = 0;
    loop
        invariant
            i <= n,
            n == records@.len(),
            forall|k: int| 0 <= k < i ==> records@[k].year != year,
        ensures
            i <= n,
            forall|k: int| 0 <= k < i ==> records@[k].year != year,
            i < n ==> records@[i as int].year == year,
            i == n || records@[i as int].year == year,
        decreases n - i,
    {
        if i < n {
            if records[i].year == year {
                break;
            }
            i = i + 1;
        } else {
            break;
        }
    }
    if i < n {
        Some(i)
    } else {
        None
    }
}

/// The cache-or-fetch policy for one metric: the cached value wins; a fresh
/// value is used only to fill a gap.
pub fn merge_metric(cached: Option<FixedDec>, fetched: Option<FixedDec>) -> (r: Option<FixedDec>)
    ensures
        cached is Some ==> r == cached,
        cached is None ==> r == fetched,
{
    match cached {
        Some(v) => Some(v),
        None => fetched,
    }
}

/// The cache-or-fetch policy for the audit-outcome label.
pub fn merge_label(cached: Option<String>, fetched: Option<String>) -> (r: Option<String>)
    ensures
        cached is Some ==> r == cached,
        cached is None ==> r == fetched,
{
    match cached {
        Some(v) => Some(v),
        None => fetched,
    }
}

/// Assembles the scoring input of a record: its five metrics, with the
/// population supplied by the caller.
pub fn scoring_input_from(record: &FinancialYearData, population: Option<u32>) -> (r:
    ScoringInput)
    ensures
        r.revenue == record.revenue,
        r.operating_expenditure == record.operating_expenditure,
        r.capital_expenditure == record.capital_expenditure,
        r.debt == record.debt,
        r.audit_outcome == record.audit_outcome,
        r.population == population,
{
    ScoringInput {
        revenue: record.revenue,
        operating_expenditure: record.operating_expenditure,
        capital_expenditure: record.capital_expenditure,
        debt: record.debt,
        audit_outcome: match &record.audit_outcome {
            Some(s) => Some(s.clone()),
            None => None,
        },
        population,
    }
}

/// Writes a computed breakdown into the record; the metrics stay untouched.
pub fn apply_scores(record: &mut FinancialYearData, breakdown: &ScoreBreakdown)
    ensures
        final(record).overall_score == Some(breakdown.overall_score),
        final(record).financial_health_score == Some(breakdown.financial_health_score),
        final(record).infrastructure_score == Some(breakdown.infrastructure_score),
        final(record).efficiency_score == Some(breakdown.efficiency_score),
        final(record).accountability_score == Some(breakdown.accountability_score),
        final(record).year == old(record).year,
        final(record).revenue == old(record).revenue,
        final(record).operating_expenditure == old(record).operating_expenditure,
        final(record).capital_expenditure == old(record).capital_expenditure,
        final(record).debt == old(record).debt,
        final(record).audit_outcome == old(record).audit_outcome,
{
    record.overall_score = Some(breakdown.overall_score);
    record.financial_health_score = Some(breakdown.financial_health_score);
    record.infrastructure_score = Some(breakdown.infrastructure_score);
    record.efficiency_score = Some(breakdown.efficiency_score);
    record.accountability_score = Some(breakdown.accountability_score);
}

} // verus!
