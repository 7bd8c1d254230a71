use seemycity_backend::config::{config_from_env_values, ConfigError};
use seemycity_backend::decimal::FixedDec;
use seemycity_backend::facts::{
    first_opinion_label, total_capital_from_facts, total_debt_from_facts,
    total_expenditure_from_facts, total_revenue_from_facts, AuditOpinionFact, FinancialItemFact,
};
use seemycity_backend::records::{
    apply_scores, empty_year_record, find_year_index, merge_label, merge_metric,
    scoring_input_from,
};
use seemycity_backend::scoring::calculate_financial_score;

fn d(v: i64) -> FixedDec {
    FixedDec::from_int(v).unwrap()
}

fn item(code: &str, amount: Option<FixedDec>) -> FinancialItemFact {
    FinancialItemFact {
        demarcation_code: "CPT".to_string(),
        demarcation_label: "City of Cape Town".to_string(),
        item_code: code.to_string(),
        item_label: String::new(),
        amount,
    }
}

#[test]
fn revenue_sums_only_listed_codes() {
    let cells = vec![
        item("0200", Some(d(100))),
        item("0300", Some(d(50))),
        item("3000", Some(d(999))), // an expenditure code does not count
        item("0250", Some(d(7))),   // not a multiple of 100
        item("200", Some(d(7))),    // three characters, not a revenue code
        item("2500", None),         // no amount reported
    ];
    assert_eq!(total_revenue_from_facts(&cells).unwrap(), d(150));
}

#[test]
fn revenue_none_when_no_fact_matches() {
    assert!(total_revenue_from_facts(&vec![]).is_none());
    let cells = vec![item("9999", Some(d(5))), item("0200", None)];
    assert!(total_revenue_from_facts(&cells).is_none());
}

#[test]
fn expenditure_sums_its_code_range() {
    let cells = vec![
        item("3000", Some(d(10))),
        item("4000", Some(d(20))),
        item("4100", Some(d(99))), // above the range
        item("0200", Some(d(99))), // a revenue code
    ];
    assert_eq!(total_expenditure_from_facts(&cells).unwrap(), d(30));
}

#[test]
fn debt_sums_parsed_code_range() {
    let cells = vec![
        item("310", Some(d(1))),
        item("500", Some(d(2))),
        item("+400", Some(d(4))), // numeric parsing accepts a leading plus
        item("0450", Some(d(8))), // leading zeros still parse to 450
        item("309", Some(d(99))),
        item("501", Some(d(99))),
        item("a400", Some(d(99))),
    ];
    assert_eq!(total_debt_from_facts(&cells).unwrap(), d(15));
}

#[test]
fn capital_sums_every_amount() {
    let cells = vec![
        item("whatever", Some(d(3))),
        item("", Some(d(4))),
        item("x", None),
    ];
    assert_eq!(total_capital_from_facts(&cells).unwrap(), d(7));
    assert!(total_capital_from_facts(&vec![item("x", None)]).is_none());
}

#[test]
fn negative_amounts_are_summed_exactly() {
    let cells = vec![item("0200", Some(d(100))), item("0300", Some(d(-30)))];
    assert_eq!(total_revenue_from_facts(&cells).unwrap(), d(70));
}

#[test]
fn first_opinion_label_takes_the_first_fact() {
    assert!(first_opinion_label(&vec![]).is_none());
    let facts = vec![
        AuditOpinionFact {
            demarcation_code: "CPT".to_string(),
            demarcation_label: "City of Cape Town".to_string(),
            opinion_label: "Clean Audit".to_string(),
            financial_year: 2022,
            opinion_code: "unqualified".to_string(),
            amount: None,
        },
        AuditOpinionFact {
            demarcation_code: "CPT".to_string(),
            demarcation_label: "City of Cape Town".to_string(),
            opinion_label: "Qualified Audit Opinion".to_string(),
            financial_year: 2021,
            opinion_code: "qualified".to_string(),
            amount: None,
        },
    ];
    assert_eq!(first_opinion_label(&facts).unwrap(), "Clean Audit");
}

fn all_vars() -> (Option<String>, Option<String>, Option<String>, Option<String>, Option<String>) {
    (
        Some("localhost".to_string()),
        Some("5432".to_string()),
        Some("app".to_string()),
        Some("pw".to_string()),
        Some("seemycity".to_string()),
    )
}

#[test]
fn config_builds_from_complete_values() {
    let (h, p, us, pw, n) = all_vars();
    let c = config_from_env_values(h, p, us, pw, n).unwrap();
    assert_eq!(c.db_host, "localhost");
    assert_eq!(c.db_port, 5432);
    assert_eq!(c.db_user, "app");
    assert_eq!(c.db_name, "seemycity");
}

#[test]
fn config_reports_first_missing_variable() {
    let (_, p, us, pw, n) = all_vars();
    match config_from_env_values(None, p, us, pw, n) {
        Err(ConfigError::MissingVar(v)) => assert_eq!(v, "DB_HOST"),
        other => panic!("expected MissingVar, got {:?}", other),
    }
    let (h, _, us, pw, n) = all_vars();
    match config_from_env_values(h, None, us, pw, n) {
        Err(ConfigError::MissingVar(v)) => assert_eq!(v, "DB_PORT"),
        other => panic!("expected MissingVar, got {:?}", other),
    }
    let (h, p, _, pw, n) = all_vars();
    match config_from_env_values(h, p, None, pw, n) {
        Err(ConfigError::MissingVar(v)) => assert_eq!(v, "DB_USER"),
        other => panic!("expected MissingVar, got {:?}", other),
    }
}

#[test]
fn config_rejects_bad_ports() {
    for bad in ["abc", "", "70000", "-1", "54 32"] {
        let (h, _, us, pw, n) = all_vars();
        match config_from_env_values(h, Some(bad.to_string()), us, pw, n) {
            Err(ConfigError::InvalidPort(v)) => assert_eq!(v, bad),
            other => panic!("expected InvalidPort for {:?}, got {:?}", bad, other),
        }
    }
}

#[test]
fn year_record_selection_and_merge() {
    let mut r2022 = empty_year_record(2022);
    r2022.revenue = Some(d(500));
    let r2023 = empty_year_record(2023);
    let records = vec![r2023.clone(), r2022.clone()];
    assert_eq!(find_year_index(&records, 2022), Some(1));
    assert_eq!(find_year_index(&records, 2023), Some(0));
    assert_eq!(find_year_index(&records, 2019), None);

    // the cached value wins; a fetch only fills a gap
    assert_eq!(merge_metric(Some(d(1)), Some(d(2))), Some(d(1)));
    assert_eq!(merge_metric(None, Some(d(2))), Some(d(2)));
    assert_eq!(merge_metric(None, None), None);
    assert_eq!(
        merge_label(Some("a".to_string()), Some("b".to_string())),
        Some("a".to_string())
    );
    assert_eq!(merge_label(None, Some("b".to_string())), Some("b".to_string()));
}

#[test]
fn scores_written_back_into_record() {
    let mut record = empty_year_record(2023);
    record.revenue = Some(d(1000));
    record.operating_expenditure = Some(d(800));
    record.capital_expenditure = Some(d(200));
    record.debt = Some(d(500));
    record.audit_outcome = Some("Clean Audit".to_string());
    let input = scoring_input_from(&record, Some(100));
    assert_eq!(input.revenue, Some(d(1000)));
    assert_eq!(input.population, Some(100));
    assert_eq!(input.audit_outcome, Some("Clean Audit".to_string()));
    let breakdown = calculate_financial_score(&input).unwrap();
    apply_scores(&mut record, &breakdown);
    assert_eq!(record.overall_score, Some(breakdown.overall_score));
    assert_eq!(record.accountability_score, Some(breakdown.accountability_score));
    assert_eq!(record.revenue, Some(d(1000)));
    assert_eq!(record.year, 2023);
}
