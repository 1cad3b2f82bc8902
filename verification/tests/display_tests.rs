use tax_calculator::amount::ExactAmount;
use tax_calculator::decimal::{decimal_string, digit_text};
use tax_calculator::display::{
    align_right, format_exact_rupiah, format_rupiah, fraction_text, AMOUNT_WIDTH,
};

#[test]
fn digits_one_by_one() {
    let all = ["0", "1", "2", "3", "4", "5", "6", "7", "8", "9"];
    for digit in 0..10u8 {
        assert_eq!(digit_text(digit), all[digit as usize]);
    }
}

#[test]
fn decimal_notation() {
    assert_eq!(decimal_string(0), "0");
    assert_eq!(decimal_string(7), "7");
    assert_eq!(decimal_string(10), "10");
    assert_eq!(decimal_string(907), "907");
    assert_eq!(decimal_string(1_000), "1000");
    assert_eq!(decimal_string(18_446_744_073_709_551_615), "18446744073709551615");
    assert_eq!(decimal_string(u128::MAX), "340282366920938463463374607431768211455");
}

#[test]
fn amounts_are_grouped_by_three_digits() {
    assert_eq!(AMOUNT_WIDTH, 15);
    assert_eq!(format_rupiah(0), "Rp              0");
    assert_eq!(format_rupiah(7), "Rp              7");
    assert_eq!(format_rupiah(999), "Rp            999");
    assert_eq!(format_rupiah(1_000), "Rp          1,000");
    assert_eq!(format_rupiah(1_001), "Rp          1,001");
    assert_eq!(format_rupiah(12_345), "Rp         12,345");
    assert_eq!(format_rupiah(100_000), "Rp        100,000");
    assert_eq!(format_rupiah(6_045_340), "Rp      6,045,340");
    assert_eq!(format_rupiah(54_000_000), "Rp     54,000,000");
    assert_eq!(format_rupiah(1_000_000_000), "Rp  1,000,000,000");
}

#[test]
fn amounts_wider_than_the_column_are_not_cut() {
    assert_eq!(format_rupiah(999_999_999_999), "Rp999,999,999,999");
    assert_eq!(format_rupiah(1_000_000_000_000), "Rp1,000,000,000,000");
    assert_eq!(format_rupiah(u64::MAX), "Rp18,446,744,073,709,551,615");
}

#[test]
fn exact_amounts_show_their_fraction() {
    assert_eq!(format_exact_rupiah(&ExactAmount { parts: 0 }), "Rp              0");
    assert_eq!(format_exact_rupiah(&ExactAmount { parts: 110_000 }), "Rp             11");
    assert_eq!(format_exact_rupiah(&ExactAmount { parts: 165_000 }), "Rp           16.5");
    assert_eq!(format_exact_rupiah(&ExactAmount { parts: 1_100 }), "Rp           0.11");
    assert_eq!(format_exact_rupiah(&ExactAmount { parts: 500 }), "Rp           0.05");
    assert_eq!(format_exact_rupiah(&ExactAmount { parts: 5 }), "Rp         0.0005");
    assert_eq!(format_exact_rupiah(&ExactAmount { parts: 12_345_678_901 }), "Rp 1,234,567.8901");
    assert_eq!(format_exact_rupiah(&ExactAmount { parts: 40_000_000_000 }), "Rp      4,000,000");
    assert_eq!(
        format_exact_rupiah(&ExactAmount { parts: u128::MAX }),
        "Rp34,028,236,692,093,846,346,337,460,743,176,821.1455"
    );
}

#[test]
fn fractions_lose_the_zeros_at_their_end() {
    assert_eq!(fraction_text(0), "");
    assert_eq!(fraction_text(5_000), ".5");
    assert_eq!(fraction_text(1_000), ".1");
    assert_eq!(fraction_text(2_500), ".25");
    assert_eq!(fraction_text(100), ".01");
    assert_eq!(fraction_text(1_230), ".123");
    assert_eq!(fraction_text(10), ".001");
    assert_eq!(fraction_text(9_999), ".9999");
    assert_eq!(fraction_text(1), ".0001");
    assert_eq!(fraction_text(1_001), ".1001");
}

#[test]
fn text_is_aligned_to_the_right() {
    assert_eq!(align_right(String::from("abc"), 5), "  abc");
    assert_eq!(align_right(String::from("abc"), 3), "abc");
    assert_eq!(align_right(String::from("abc"), 2), "abc");
    assert_eq!(align_right(String::from("abc"), 0), "abc");
    assert_eq!(align_right(String::new(), 3), "   ");
    assert_eq!(align_right(String::new(), 0), "");
    // The width counts characters, not bytes.
    assert_eq!(align_right(String::from("é"), 3), "  é");
}
