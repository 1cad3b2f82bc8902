use tax_calculator::amount::{ExactAmount, PARTS_PER_RUPIAH};

#[test]
fn whole_rupiah_have_no_fraction() {
    assert_eq!(PARTS_PER_RUPIAH, 10_000);
    let amount = ExactAmount::from_rupiah(12);
    assert_eq!(amount, ExactAmount { parts: 120_000 });
    assert_eq!(amount.whole(), 12);
    assert_eq!(amount.fraction(), 0);
    assert_eq!(ExactAmount::from_rupiah(0), ExactAmount { parts: 0 });
    assert_eq!(
        ExactAmount::from_rupiah(u64::MAX),
        ExactAmount { parts: 184_467_440_737_095_516_150_000 }
    );
}

#[test]
fn whole_and_fraction_split_the_parts() {
    let amount = ExactAmount { parts: 1_234_567 };
    assert_eq!(amount.whole(), 123);
    assert_eq!(amount.fraction(), 4_567);
    let amount = ExactAmount { parts: 9_999 };
    assert_eq!(amount.whole(), 0);
    assert_eq!(amount.fraction(), 9_999);
    let amount = ExactAmount { parts: u128::MAX };
    assert_eq!(amount.whole(), u128::MAX / 10_000);
    assert_eq!(amount.fraction(), 1_455);
}

#[test]
fn sum_of_amounts() {
    let a = ExactAmount { parts: 15_000 };
    let b = ExactAmount { parts: 27_500 };
    assert_eq!(a.checked_add(b), Some(ExactAmount { parts: 42_500 }));
    assert_eq!(a.checked_add(ExactAmount { parts: 0 }), Some(a));
    let top = ExactAmount { parts: u128::MAX };
    assert_eq!(top.checked_add(ExactAmount { parts: 0 }), Some(top));
    assert_eq!(top.checked_add(ExactAmount { parts: 1 }), None);
    assert_eq!(ExactAmount { parts: u128::MAX - 1 }.checked_add(ExactAmount { parts: 1 }), Some(top));
}

#[test]
fn difference_of_amounts() {
    let a = ExactAmount { parts: 42_500 };
    let b = ExactAmount { parts: 27_500 };
    assert_eq!(a.checked_sub(b), Some(ExactAmount { parts: 15_000 }));
    assert_eq!(a.checked_sub(a), Some(ExactAmount { parts: 0 }));
    assert_eq!(b.checked_sub(a), None);
    assert_eq!(ExactAmount { parts: 0 }.checked_sub(ExactAmount { parts: 1 }), None);
}
