//! Typed facts of the upstream statistical cube API, and the verified
//! selection and summing that turns them into single metric values.
//!
//! The surrounding service fetches and decodes the cube responses; this
//! module owns the logic: which item codes count toward each metric, and the
//! exact sum of the selected amounts.

use vstd::prelude::*;
use crate::decimal::{FixedDec, MAX_UNITS, in_range};
use crate::text::{all_digits, digits_val, parse_u32_spec};
use crate::text::parse_u32;

verus! {

/// One financial line item of an aggregate cube response.
#[derive(Debug, Clone)]
pub struct FinancialItemFact {
    pub demarcation_code: String,
    pub demarcation_label: String,
    pub item_code: String,
    pub item_label: String,
    pub amount: Option<FixedDec>,
}

/// One audit-opinion fact.
#[derive(Debug, Clone)]
pub struct AuditOpinionFact {
    pub demarcation_code: String,
    pub demarcation_label: String,
    pub opinion_label: String,
    pub financial_year: i32,
    pub opinion_code: String,
    pub amount: Option<FixedDec>,
}

/// The shape of a cube response: a cell count and the cells themselves.
#[derive(Debug, Clone)]
pub struct FactsApiResponse<T> {
    pub total_cell_count: u32,
    pub cells: Vec<T>,
}

/// The shape of an audit-opinions cube response.
#[derive(Debug, Clone)]
pub struct AuditApiResponse {
    pub total_cell_count: u32,
    pub cells: Vec<AuditOpinionFact>,
}

/// Which metric a sum is taken for; each selects its own item codes.
#[derive(Debug, Clone, Copy, PartialEq, Eq)]
pub enum ItemSelector {
    /// Revenue items: the four-digit codes 0200, 0300, ... 2500.
    Revenue,
    /// Expenditure items: the four-digit codes 3000, 3100, ... 4000.
    Expenditure,
    /// Liability items: codes that parse to a number in [310, 500].
    Debt,
    /// Capital items: every cell of the capital cube counts.
    Capital,
}

/// Revenue item codes: exactly four digits, a multiple of 100 from 0200 to 2500.
pub open spec fn is_revenue_item_code(s: Seq<char>) -> bool {
    &&& s.len() == 4
    &&& all_digits(s)
    &&& 200 <= digits_val(s) <= 2500
    &&& digits_val(s) % 100 == 0
}

/// Expenditure item codes: exactly four digits, a multiple of 100 from 3000 to 4000.
pub open spec fn is_expenditure_item_code(s: Seq<char>) -> bool {
    &&& s.len() == 4
    &&& all_digits(s)
    &&& 3000 <= digits_val(s) <= 4000
    &&& digits_val(s) % 100 == 0
}

/// Liability item codes: any text that parses as a number in [310, 500].
pub open spec fn is_debt_item_code(s: Seq<char>) -> bool {
    match parse_u32_spec(s) {
        Some(v) => 310 <= v <= 500,
        None => false,
    }
}

/// Whether a selector takes the given item code.
pub open spec fn selects(sel: ItemSelector, code: Seq<char>) -> bool {
    match sel {
        ItemSelector::Revenue => is_revenue_item_code(code),
        ItemSelector::Expenditure => is_expenditure_item_code(code),
        ItemSelector::Debt => is_debt_item_code(code),
        ItemSelector::Capital => true,
    }
}

/// What one cell contributes to a metric: its amount, when the cell is
/// selected and carries one; otherwise nothing.
pub open spec fn contribution(f: FinancialItemFact, sel: ItemSelector) -> int {
    if selects(sel, f.item_code@) && f.amount is Some {
        f.amount->0@
    } else {
        0
    }
}

/// The exact sum of the selected amounts.
pub open spec fn selected_sum(cells: Seq<FinancialItemFact>, sel: ItemSelector) -> int
    decreases cells.len(),
{
    if cells.len() == 0 {
        0
    } else {
        selected_sum(cells.drop_last(), sel) + contribution(cells.last(), sel)
    }
}

/// Whether any cell contributes: only then was the metric reported at all.
pub open spec fn any_selected(cells: Seq<FinancialItemFact>, sel: ItemSelector) -> bool {
    exists|k: int|
        0 <= k < cells.len() && selects(sel, cells[k].item_code@) && cells[k].amount is Some
}

/// The value of exactly four digits; `None` otherwise.
fn four_digit_value(s: &str) -> (r: Option<u32>)
    ensures
        r is Some <==> s@.len() == 4 && all_digits(s@),
        r is Some ==> r->0 as int == digits_val(s@),
{
    let n = s.unicode_len();
    if n != 4 {
        return None;
    }
    let mut acc: u32 = 0;
    let mut i: usize = 0;
    loop
        invariant
            i <= 4,
            n == 4,
            s@.len() == 4,
            all_digits(s@.subrange(0, i as int)),
            acc as int == digits_val(s@.subrange(0, i as int)),
            acc as int <= (if i == 0 {
                0int
            } else if i == 1 {
                9int
            } else if i == 2 {
                99int
            } else if i == 3 {
                999int
            } else {
                9999int
            }),
        ensures
            i == 4,
            all_digits(s@.subrange(0, 4)),
            acc as int == digits_val(s@.subrange(0, 4)),
            acc < 10000,
        decreases 4 - i,
    {
        if i < 4 {
            let c = s.get_char(i);
            if !('0' <= c && c <= '9') {
                proof {
                    assert(!crate::text::is_digit(s@[i as int]));
                }
                return None;
            }
            proof {
                let p = s@.subrange(0, i as int);
                let q = s@.subrange(0, i + 1);
                assert(q.drop_last() =~= p);
                assert(q[q.len() - 1] == s@[i as int]);
            }
            acc = acc * 10 + (c as u32 - '0' as u32);
            i = i + 1;
        } else {
            break;
        }
    }
    proof {
        assert(s@.subrange(0, 4) =~= s@);
    }
    Some(acc)
}

/// Whether the selector takes this item code.
pub fn code_selected(sel: ItemSelector, code: &str) -> (r: bool)
    ensures
        r == selects(sel, code@),
{
    match sel {
        ItemSelector::Revenue => {
            match four_digit_value(code) {
                Some(v) => 200 <= v && v <= 2500 && v % 100 == 0,
                None => false,
            }
        },
        ItemSelector::Expenditure => {
            match four_digit_value(code) {
                Some(v) => 3000 <= v && v <= 4000 && v % 100 == 0,
                None => false,
            }
        },
        ItemSelector::Debt => {
            match parse_u32(code) {
                Some(v) => 310 <= v && v <= 500,
                None => false,
            }
        },
        ItemSelector::Capital => true,
    }
}

/// Sums the amounts of the cells the selector takes.  `Some` exactly when at
/// least one selected cell carries an amount and the exact sum is
/// representable; the upstream cubes report far fewer cells and far smaller
/// totals than either bound.
pub fn sum_selected_amounts(cells: &Vec<FinancialItemFact>, sel: ItemSelector) -> (r: Option<
    FixedDec,
>)
    requires
        cells@.len() <= 1_000_000_000_000,
    ensures
        r is Some <==> any_selected(cells@, sel) && in_range(selected_sum(cells@, sel)),
        r is Some ==> r->0@ == selected_sum(cells@, sel),
{
    let n = cells.len();
    let mut acc: i128 = 0;
    let mut found = false;
    let mut i: usize = 0;
    loop
        invariant
            i <= n,
            n == cells@.len(),
            n <= 1_000_000_000_000,
            acc as int == selected_sum(cells@.subrange(0, i as int), sel),
            found == any_selected(cells@.subrange(0, i as int), sel),
            -10_000_000_000_000_000_000 * (i as int) <= acc as int <= 10_000_000_000_000_000_000
                * (i as int),
        ensures
            i == n,
            acc as int == selected_sum(cells@.subrange(0, i as int), sel),
            found == any_selected(cells@.subrange(0, i as int), sel),
        decreases n - i,
    {
        if i < n {
            let cell = &cells[i];
            proof {
                let p = cells@.subrange(0, i as int);
                let q = cells@.subrange(0, i + 1);
                assert(q.drop_last() =~= p);
                assert(q.last() == cells@[i as int]);
            }
            if code_selected(sel, cell.item_code.as_str()) {
                match cell.amount {
                    Some(amount) => {
                        let au = amount.units();
                        acc = acc + au;
                        found = true;
                        proof {
                            let q = cells@.subrange(0, i + 1);
                            assert(any_selected(q, sel)) by {
                                assert(selects(sel, q[i as int].item_code@) && q[i as int].amount
                                    is Some);
                            }
                        }
                    },
                    None => {
                        proof {
                            lemma_any_selected_extend(cells@, sel, i as int);
                        }
                    },
                }
            } else {
                proof {
                    lemma_any_selected_extend(cells@, sel, i as int);
                }
            }
            i = i + 1;
        } else {
            break;
        }
    }
    proof {
        assert(cells@.subrange(0, n as int) =~= cells@);
    }
    if !found {
        return None;
    }
    match FixedDec::from_units(acc) {
        Some(total) => Some(total),
        None => None,
    }
}

/// A cell that contributes nothing leaves "was anything selected" unchanged.
proof fn lemma_any_selected_extend(cells: Seq<FinancialItemFact>, sel: ItemSelector, i: int)
    requires
        0 <= i < cells.len(),
        !(selects(sel, cells[i].item_code@) && cells[i].amount is Some),
    ensures
        any_selected(cells.subrange(0, i + 1), sel) == any_selected(cells.subrange(0, i), sel),
{
    let p = cells.subrange(0, i);
    let q = cells.subrange(0, i + 1);
    if any_selected(q, sel) {
        let k = choose|k: int|
            0 <= k < q.len() && selects(sel, q[k].item_code@) && q[k].amount is Some;
        assert(k < i);
        assert(selects(sel, p[k].item_code@) && p[k].amount is Some);
    }
    if any_selected(p, sel) {
        let k = choose|k: int|
            0 <= k < p.len() && selects(sel, p[k].item_code@) && p[k].amount is Some;
        assert(selects(sel, q[k].item_code@) && q[k].amount is Some);
    }
}

/// Total revenue reported by an income-and-expenditure cube response.
pub fn total_revenue_from_facts(cells: &Vec<FinancialItemFact>) -> (r: Option<FixedDec>)
    requires
        cells@.len() <= 1_000_000_000_000,
    ensures
        r is Some <==> any_selected(cells@, ItemSelector::Revenue) && in_range(
            selected_sum(cells@, ItemSelector::Revenue),
        ),
        r is Some ==> r->0@ == selected_sum(cells@, ItemSelector::Revenue),
{
    sum_selected_amounts(cells, ItemSelector::Revenue)
}

/// Total operating expenditure reported by an income-and-expenditure cube response.
pub fn total_expenditure_from_facts(cells: &Vec<FinancialItemFact>) -> (r: Option<FixedDec>)
    requires
        cells@.len() <= 1_000_000_000_000,
    ensures
        r is Some <==> any_selected(cells@, ItemSelector::Expenditure) && in_range(
            selected_sum(cells@, ItemSelector::Expenditure),
        ),
        r is Some ==> r->0@ == selected_sum(cells@, ItemSelector::Expenditure),
{
    sum_selected_amounts(cells, ItemSelector::Expenditure)
}

/// Total outstanding liabilities reported by a financial-position cube response.
pub fn total_debt_from_facts(cells: &Vec<FinancialItemFact>) -> (r: Option<FixedDec>)
    requires
        cells@.len() <= 1_000_000_000_000,
    ensures
        r is Some <==> any_selected(cells@, ItemSelector::Debt) && in_range(
            selected_sum(cells@, ItemSelector::Debt),
        ),
        r is Some ==> r->0@ == selected_sum(cells@, ItemSelector::Debt),
{
    sum_selected_amounts(cells, ItemSelector::Debt)
}

/// Total capital expenditure reported by a capital cube response.
pub fn total_capital_from_facts(cells: &Vec<FinancialItemFact>) -> (r: Option<FixedDec>)
    requires
        cells@.len() <= 1_000_000_000_000,
    ensures
        r is Some <==> any_selected(cells@, ItemSelector::Capital) && in_range(
            selected_sum(cells@, ItemSelector::Capital),
        ),
        r is Some ==> r->0@ == selected_sum(cells@, ItemSelector::Capital),
{
    sum_selected_amounts(cells, ItemSelector::Capital)
}

/// The audit-outcome label of a response: the first fact's opinion label,
/// when there is one.
pub fn first_opinion_label(cells: &Vec<AuditOpinionFact>) -> (r: Option<String>)
    ensures
        r is Some <==> cells@.len() > 0,
        r is Some ==> r->0@ == cells@[0].opinion_label@,
{
    if cells.len() > 0 {
        Some(cells[0].opinion_label.clone())
    } else {
        None
    }
}

} // verus!
