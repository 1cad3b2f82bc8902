use tax_calculator::amount::ExactAmount;
use tax_calculator::brackets::{
    brackets_are_ordered, calculate_income_tax, income_after_tax, standard_brackets, TaxBracket,
    UNBOUNDED,
};

fn rupiah(whole: u128) -> ExactAmount {
    ExactAmount { parts: whole * 10_000 }
}

#[test]
fn standard_schedule_is_the_table_of_2023() {
    let brackets = standard_brackets();
    assert_eq!(
        brackets,
        vec![
            TaxBracket { lower_bound: 0, upper_bound: 50_000_000, rate: 500 },
            TaxBracket { lower_bound: 50_000_000, upper_bound: 250_000_000, rate: 1_500 },
            TaxBracket { lower_bound: 250_000_000, upper_bound: 500_000_000, rate: 2_500 },
            TaxBracket { lower_bound: 500_000_000, upper_bound: u64::MAX, rate: 3_000 },
        ]
    );
    assert_eq!(UNBOUNDED, u64::MAX);
    assert!(brackets_are_ordered(&brackets));
}

#[test]
fn no_income_no_tax() {
    let brackets = standard_brackets();
    assert_eq!(calculate_income_tax(0, &brackets), rupiah(0));
    assert_eq!(calculate_income_tax(0, &[]), rupiah(0));
    let late = [TaxBracket { lower_bound: 10, upper_bound: 20, rate: 10_000 }];
    assert_eq!(calculate_income_tax(0, &late), rupiah(0));
}

#[test]
fn empty_schedule_taxes_nothing() {
    assert_eq!(calculate_income_tax(1_000_000, &[]), rupiah(0));
    assert_eq!(calculate_income_tax(u64::MAX, &[]), rupiah(0));
}

#[test]
fn income_within_the_first_bracket() {
    let brackets = standard_brackets();
    // 5% of 30,000,000
    assert_eq!(calculate_income_tax(30_000_000, &brackets), rupiah(1_500_000));
    // 5% of 1 rupiah is 0.05 rupiah, kept exactly
    assert_eq!(calculate_income_tax(1, &brackets), ExactAmount { parts: 500 });
}

#[test]
fn income_across_brackets() {
    let brackets = standard_brackets();
    // 5% of 50,000,000 + 15% of 10,000,000
    assert_eq!(calculate_income_tax(60_000_000, &brackets), rupiah(4_000_000));
    // 2,500,000 + 15% of 200,000,000 + 25% of 50,000,000
    assert_eq!(calculate_income_tax(300_000_000, &brackets), rupiah(45_000_000));
    // 2,500,000 + 30,000,000 + 62,500,000 + 30% of 500,000,000
    assert_eq!(calculate_income_tax(1_000_000_000, &brackets), rupiah(245_000_000));
}

#[test]
fn income_at_a_boundary_fills_the_lower_bracket_only() {
    let brackets = standard_brackets();
    // Full span of the first bracket, nothing of the second.
    assert_eq!(calculate_income_tax(50_000_000, &brackets), rupiah(2_500_000));
    assert_eq!(calculate_income_tax(50_000_000, &brackets[..1]), rupiah(2_500_000));
    // One rupiah more is taxed at 15%.
    assert_eq!(
        calculate_income_tax(50_000_001, &brackets),
        ExactAmount { parts: 2_500_000 * 10_000 + 1_500 }
    );
    assert_eq!(calculate_income_tax(250_000_000, &brackets), rupiah(32_500_000));
    assert_eq!(calculate_income_tax(250_000_000, &brackets[..2]), rupiah(32_500_000));
    assert_eq!(calculate_income_tax(500_000_000, &brackets), rupiah(95_000_000));
    assert_eq!(calculate_income_tax(500_000_000, &brackets[..3]), rupiah(95_000_000));
}

#[test]
fn largest_income_under_the_standard_schedule() {
    let brackets = standard_brackets();
    let above: u128 = u64::MAX as u128 - 500_000_000;
    assert_eq!(
        calculate_income_tax(u64::MAX, &brackets),
        ExactAmount { parts: 95_000_000 * 10_000 + above * 3_000 }
    );
}

#[test]
fn largest_rate_on_the_largest_income() {
    let all = [TaxBracket { lower_bound: 0, upper_bound: u64::MAX, rate: u32::MAX }];
    assert_eq!(
        calculate_income_tax(u64::MAX, &all),
        ExactAmount { parts: (u64::MAX as u128) * (u32::MAX as u128) }
    );
}

#[test]
fn schedule_with_gaps_taxes_only_what_lies_in_a_bracket() {
    let gapped = [
        TaxBracket { lower_bound: 100, upper_bound: 200, rate: 1_000 },
        TaxBracket { lower_bound: 300, upper_bound: 400, rate: 2_000 },
    ];
    assert!(brackets_are_ordered(&gapped));
    assert_eq!(calculate_income_tax(100, &gapped), rupiah(0));
    assert_eq!(calculate_income_tax(150, &gapped), rupiah(5));
    assert_eq!(calculate_income_tax(250, &gapped), rupiah(10));
    assert_eq!(calculate_income_tax(350, &gapped), rupiah(20));
    assert_eq!(calculate_income_tax(1_000, &gapped), rupiah(30));
}

#[test]
fn empty_bracket_adds_nothing() {
    let brackets = [
        TaxBracket { lower_bound: 0, upper_bound: 100, rate: 1_000 },
        TaxBracket { lower_bound: 100, upper_bound: 100, rate: 5_000 },
        TaxBracket { lower_bound: 100, upper_bound: 200, rate: 2_000 },
    ];
    assert!(brackets_are_ordered(&brackets));
    assert_eq!(calculate_income_tax(100, &brackets), rupiah(10));
    assert_eq!(calculate_income_tax(150, &brackets), rupiah(20));
}

#[test]
fn ordered_schedules_are_told_from_others() {
    assert!(brackets_are_ordered(&[]));
    assert!(brackets_are_ordered(&[TaxBracket { lower_bound: 5, upper_bound: 5, rate: 1 }]));
    // ends before it begins
    assert!(!brackets_are_ordered(&[TaxBracket { lower_bound: 6, upper_bound: 5, rate: 1 }]));
    // overlap
    assert!(!brackets_are_ordered(&[
        TaxBracket { lower_bound: 0, upper_bound: 10, rate: 1 },
        TaxBracket { lower_bound: 9, upper_bound: 20, rate: 1 },
    ]));
    // descending
    assert!(!brackets_are_ordered(&[
        TaxBracket { lower_bound: 10, upper_bound: 20, rate: 1 },
        TaxBracket { lower_bound: 0, upper_bound: 10, rate: 1 },
    ]));
    // the last one ends before it begins
    assert!(!brackets_are_ordered(&[
        TaxBracket { lower_bound: 0, upper_bound: 10, rate: 1 },
        TaxBracket { lower_bound: 10, upper_bound: 9, rate: 1 },
    ]));
}

#[test]
fn income_left_after_tax() {
    let brackets = standard_brackets();
    assert_eq!(income_after_tax(0, &brackets), Some(rupiah(0)));
    assert_eq!(income_after_tax(60_000_000, &brackets), Some(rupiah(56_000_000)));
    assert_eq!(income_after_tax(1_000_000_000, &brackets), Some(rupiah(755_000_000)));
    assert_eq!(income_after_tax(1, &brackets), Some(ExactAmount { parts: 9_500 }));
    assert_eq!(income_after_tax(500, &[]), Some(rupiah(500)));
    // A rate of 100 % leaves nothing, a higher one less than nothing.
    let all = [TaxBracket { lower_bound: 0, upper_bound: u64::MAX, rate: 10_000 }];
    assert_eq!(income_after_tax(500, &all), Some(rupiah(0)));
    let more = [TaxBracket { lower_bound: 0, upper_bound: u64::MAX, rate: 10_001 }];
    assert_eq!(income_after_tax(500, &more), None);
    assert_eq!(income_after_tax(0, &more), Some(rupiah(0)));
}
