use seemycity_backend::decimal::{FixedDec, SCALE};
use seemycity_backend::scoring::{
    calculate_accountability_score, calculate_debt_ratio_subscore, calculate_efficiency_score,
    calculate_fin_health_score, calculate_financial_score, calculate_infra_score,
    calculate_rev_per_cap_subscore, AuditOutcome, ScoringInput, WEIGHT_ACCOUNTABILITY_UNITS,
    WEIGHT_EFFICIENCY_UNITS, WEIGHT_FIN_HEALTH_UNITS, WEIGHT_INFRA_UNITS,
};

fn d(v: i64) -> FixedDec {
    FixedDec::from_int(v).unwrap()
}

fn u(x: i128) -> FixedDec {
    FixedDec::from_units(x).unwrap()
}

fn input_all_absent() -> ScoringInput {
    ScoringInput {
        revenue: None,
        operating_expenditure: None,
        capital_expenditure: None,
        debt: None,
        audit_outcome: None,
        population: None,
    }
}

#[test]
fn scenario_full_pipeline() {
    let input = ScoringInput {
        revenue: Some(d(1000)),
        operating_expenditure: Some(d(800)),
        capital_expenditure: Some(d(200)),
        debt: Some(d(500)),
        audit_outcome: Some("Clean Audit".to_string()),
        population: Some(100),
    };
    let b = calculate_financial_score(&input).unwrap();
    // capex ratio 200/1000 = 0.20 interpolates to 75; opex ratio 0.80 <= 0.85
    // scores 100; a clean audit scores 100; revenue per capita 10 is barely
    // above 0 on the 0..14000 scale and the debt ratio 0.5 lands near 55.6.
    assert_eq!(b.infrastructure_score, u(75_000_000));
    assert_eq!(b.efficiency_score, u(100_000_000));
    assert_eq!(b.accountability_score, u(100_000_000));
    assert_eq!(b.financial_health_score, u(27_813_492));
    assert_eq!(b.overall_score, u(72_094_047));
}

#[test]
fn scenario_all_fields_absent() {
    let b = calculate_financial_score(&input_all_absent()).unwrap();
    assert_eq!(b.overall_score, u(0));
    assert_eq!(b.financial_health_score, u(0));
    assert_eq!(b.infrastructure_score, u(0));
    assert_eq!(b.efficiency_score, u(0));
    assert_eq!(b.accountability_score, u(0));
}

#[test]
fn scenario_zero_revenue_with_debt() {
    // revenue present but zero: the division guard makes the debt-ratio
    // sub-score None, so the financial-health pillar contributes 0.
    let mut input = input_all_absent();
    input.revenue = Some(d(0));
    input.debt = Some(d(100));
    assert!(calculate_debt_ratio_subscore(Some(d(100)), Some(d(0))).is_none());
    let b = calculate_financial_score(&input).unwrap();
    assert_eq!(b.financial_health_score, u(0));
    assert_eq!(b.overall_score, u(0));
}

#[test]
fn scenario_unmapped_audit_text() {
    // An unmapped label scores 0, exactly like an absent one, through a
    // different code path.
    let mut with_text = input_all_absent();
    with_text.audit_outcome = Some("Some Unmapped Text".to_string());
    let b_text = calculate_financial_score(&with_text).unwrap();
    let b_absent = calculate_financial_score(&input_all_absent()).unwrap();
    assert_eq!(b_text.accountability_score, u(0));
    assert_eq!(b_absent.accountability_score, u(0));
    assert_eq!(b_text.overall_score, b_absent.overall_score);
    match AuditOutcome::classify("Some Unmapped Text") {
        AuditOutcome::Unrecognized(orig) => assert_eq!(orig, "Some Unmapped Text"),
        other => panic!("expected Unrecognized, got {:?}", other),
    }
}

#[test]
fn weights_sum_to_one() {
    assert_eq!(
        WEIGHT_FIN_HEALTH_UNITS + WEIGHT_INFRA_UNITS + WEIGHT_EFFICIENCY_UNITS
            + WEIGHT_ACCOUNTABILITY_UNITS,
        SCALE
    );
}

#[test]
fn totality_over_all_presence_combinations() {
    for mask in 0..64u32 {
        let input = ScoringInput {
            revenue: if mask & 1 != 0 { Some(d(1000)) } else { None },
            operating_expenditure: if mask & 2 != 0 { Some(d(800)) } else { None },
            capital_expenditure: if mask & 4 != 0 { Some(d(200)) } else { None },
            debt: if mask & 8 != 0 { Some(d(500)) } else { None },
            audit_outcome: if mask & 16 != 0 {
                Some("Qualified Audit Opinion".to_string())
            } else {
                None
            },
            population: if mask & 32 != 0 { Some(100) } else { None },
        };
        let b = calculate_financial_score(&input).unwrap();
        for score in [
            b.overall_score,
            b.financial_health_score,
            b.infrastructure_score,
            b.efficiency_score,
            b.accountability_score,
        ] {
            assert!(u(0).le(&score) && score.le(&u(100_000_000)));
        }
    }
}

#[test]
fn infrastructure_breakpoints_exact() {
    // ratio 0.10 -> exactly 50
    assert_eq!(
        calculate_infra_score(Some(d(900)), Some(d(100))).unwrap(),
        u(50_000_000)
    );
    // ratio 0.30 -> 100
    assert_eq!(
        calculate_infra_score(Some(d(700)), Some(d(300))).unwrap(),
        u(100_000_000)
    );
    // ratio 0 -> 0
    assert_eq!(calculate_infra_score(Some(d(1000)), Some(d(0))).unwrap(), u(0));
    // negative capital expenditure -> ratio below 0 -> 0
    assert_eq!(calculate_infra_score(Some(d(1000)), Some(d(-5))).unwrap(), u(0));
    // zero total expenditure is scored 0, not skipped
    assert_eq!(calculate_infra_score(Some(d(0)), Some(d(0))).unwrap(), u(0));
    // a missing figure cannot be assessed
    assert!(calculate_infra_score(None, Some(d(200))).is_none());
    assert!(calculate_infra_score(Some(d(800)), None).is_none());
}

#[test]
fn efficiency_breakpoints_exact() {
    assert_eq!(
        calculate_efficiency_score(Some(d(850)), Some(d(1000))).unwrap(),
        u(100_000_000)
    );
    assert_eq!(
        calculate_efficiency_score(Some(d(1100)), Some(d(1000))).unwrap(),
        u(50_000_000)
    );
    assert_eq!(
        calculate_efficiency_score(Some(d(1150)), Some(d(1000))).unwrap(),
        u(0)
    );
    assert_eq!(
        calculate_efficiency_score(Some(d(2000)), Some(d(1000))).unwrap(),
        u(0)
    );
    assert!(calculate_efficiency_score(Some(d(800)), Some(d(0))).is_none());
    assert!(calculate_efficiency_score(None, Some(d(1000))).is_none());
}

#[test]
fn accountability_table() {
    let score = |label: &str| calculate_accountability_score(Some(label));
    assert_eq!(score("Clean Audit"), u(100_000_000));
    assert_eq!(score("Financially Unqualified"), u(75_000_000));
    assert_eq!(score("Qualified Audit Opinion"), u(50_000_000));
    assert_eq!(score("Adverse Audit Opinion"), u(25_000_000));
    assert_eq!(score("Disclaimer Of Audit Opinion"), u(25_000_000));
    assert_eq!(score(""), u(0));
    assert_eq!(score("Outstanding"), u(0));
    assert_eq!(calculate_accountability_score(None), u(0));
    // matching is on trimmed text
    assert_eq!(score("  Clean Audit \n"), u(100_000_000));
    // but case-sensitive and exact
    assert_eq!(score("clean audit"), u(0));
    assert_eq!(score("Clean  Audit"), u(0));
}

#[test]
fn revenue_per_capita_monotone_and_saturating() {
    let sub = |rev: i64, pop: u32| {
        calculate_rev_per_cap_subscore(Some(d(rev)), Some(pop)).unwrap()
    };
    assert_eq!(sub(1000, 100), u(71_428));
    assert_eq!(sub(2000, 100), u(142_857));
    assert!(sub(1000, 100).le(&sub(2000, 100)));
    // at or above the ceiling of 14000 per person the score saturates
    assert_eq!(sub(1_400_000, 100), u(100_000_000));
    assert_eq!(sub(2_000_000, 100), u(100_000_000));
    // at or below zero it is zero
    assert_eq!(sub(0, 100), u(0));
    assert_eq!(sub(-5, 100), u(0));
    // population zero or absent cannot be assessed
    assert!(calculate_rev_per_cap_subscore(Some(d(1000)), Some(0)).is_none());
    assert!(calculate_rev_per_cap_subscore(Some(d(1000)), None).is_none());
    assert!(calculate_rev_per_cap_subscore(None, Some(100)).is_none());
}

#[test]
fn debt_ratio_antitone_and_saturating() {
    let sub = |debt: i64, rev: i64| {
        calculate_debt_ratio_subscore(Some(d(debt)), Some(d(rev))).unwrap()
    };
    assert_eq!(sub(500, 1000), u(55_555_556));
    assert_eq!(sub(600, 1000), u(44_444_445));
    assert!(sub(600, 1000).le(&sub(500, 1000)));
    // at or below a ratio of 0.10 the score is 100
    assert_eq!(sub(100, 1000), u(100_000_000));
    assert_eq!(sub(0, 1000), u(100_000_000));
    assert_eq!(sub(-50, 1000), u(100_000_000));
    // at or above a ratio of 1.00 the score is 0
    assert_eq!(sub(1000, 1000), u(0));
    assert_eq!(sub(5000, 1000), u(0));
    // a non-positive revenue cannot be assessed
    assert!(calculate_debt_ratio_subscore(Some(d(500)), Some(d(-10))).is_none());
}

#[test]
fn fin_health_is_average_of_subscores() {
    let fh = calculate_fin_health_score(Some(d(1000)), Some(d(500)), Some(100)).unwrap();
    assert_eq!(fh, u((71_428 + 55_555_556) / 2));
    // more revenue at the same debt and population never lowers the pillar
    let fh_higher = calculate_fin_health_score(Some(d(1100)), Some(d(500)), Some(100)).unwrap();
    assert!(fh.le(&fh_higher));
    // either sub-score missing makes the pillar missing
    assert!(calculate_fin_health_score(None, Some(d(500)), Some(100)).is_none());
    assert!(calculate_fin_health_score(Some(d(1000)), None, Some(100)).is_none());
    assert!(calculate_fin_health_score(Some(d(1000)), Some(d(500)), None).is_none());
}

#[test]
fn classify_taxonomy_labels() {
    assert_eq!(AuditOutcome::classify("Clean Audit"), AuditOutcome::Clean);
    assert_eq!(
        AuditOutcome::classify(" Financially Unqualified "),
        AuditOutcome::FinanciallyUnqualified
    );
    assert_eq!(
        AuditOutcome::classify("Qualified Audit Opinion"),
        AuditOutcome::Qualified
    );
    assert_eq!(AuditOutcome::classify("Adverse Audit Opinion"), AuditOutcome::Adverse);
    assert_eq!(
        AuditOutcome::classify("Disclaimer Of Audit Opinion"),
        AuditOutcome::Disclaimer
    );
    // the unrecognized payload keeps the original, untrimmed text
    match AuditOutcome::classify("  Outstanding ") {
        AuditOutcome::Unrecognized(orig) => assert_eq!(orig, "  Outstanding "),
        other => panic!("expected Unrecognized, got {:?}", other),
    }
}
