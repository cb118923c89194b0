use fin_engine::amount::{checked_sum, sum};
use fin_engine::Amount;
use rust_decimal::Decimal;

fn as_decimal(a: Amount) -> Decimal {
    Decimal::from_i128_with_scale(a.mantissa(), a.scale())
}

const LARGEST: i128 = 79_228_162_514_264_337_593_543_950_335;

#[test]
fn amounts_are_compared_by_value() {
    assert_eq!(Amount::new(1000, 3), Amount::from_i64(1));
    assert_ne!(Amount::new(1001, 3), Amount::from_i64(1));
    assert!(Amount::new(-1, 28).is_negative());
    assert!(Amount::new(1, 28).is_positive());
    assert!(Amount::new(0, 5).is_zero());
    assert!(Amount::new(5, 1).lt(&Amount::from_i64(1)));
    assert!(Amount::new(5, 1).le(&Amount::new(50, 2)));
    assert!(Amount::from_i64(1).gt(&Amount::new(99, 2)));
    assert!(Amount::from_i64(1).ge(&Amount::new(100, 2)));
    assert!(!Amount::from_i64(-3).ge(&Amount::from_i64(-2)));
}

#[test]
fn parts_beyond_the_range_make_no_amount() {
    assert!(Amount::from_parts(LARGEST, 28).is_some());
    assert!(Amount::from_parts(-LARGEST, 0).is_some());
    assert!(Amount::from_parts(LARGEST + 1, 0).is_none());
    assert!(Amount::from_parts(-LARGEST - 1, 0).is_none());
    assert!(Amount::from_parts(1, 29).is_none());
    let a = Amount::from_parts(-12345, 3).unwrap();
    assert_eq!(a.mantissa(), -12345);
    assert_eq!(a.scale(), 3);
}

#[test]
fn sums_and_differences_are_exact_and_keep_the_larger_number_of_places() {
    let a = Amount::new(15, 1);
    let b = Amount::new(25, 2);
    let s = a.plus(b);
    assert_eq!((s.mantissa(), s.scale()), (175, 2));
    let d = a.minus(b);
    assert_eq!((d.mantissa(), d.scale()), (125, 2));
    let n = b.minus(a);
    assert_eq!((n.mantissa(), n.scale()), (-125, 2));
    let z = a.minus(Amount::new(150, 2));
    assert_eq!((z.mantissa(), z.scale()), (0, 2));
    assert_eq!(as_decimal(s), as_decimal(a) + as_decimal(b));
}

#[test]
fn adding_to_zero_hands_back_the_other_operand() {
    let zero = Amount::new(0, 4);
    let a = Amount::new(15, 1);
    let left = zero.plus(a);
    assert_eq!((left.mantissa(), left.scale()), (15, 1));
    let right = a.plus(zero);
    assert_eq!((right.mantissa(), right.scale()), (15, 1));
    let negated = zero.minus(a);
    assert_eq!((negated.mantissa(), negated.scale()), (-15, 1));
    let kept = a.minus(zero);
    assert_eq!((kept.mantissa(), kept.scale()), (15, 1));
    let both = Amount::new(0, 4).plus(Amount::new(0, 2));
    assert_eq!((both.mantissa(), both.scale()), (0, 2));
    let big = Amount::from_parts(LARGEST, 3).unwrap();
    let sum_big = Amount::new(0, 7).plus(big);
    assert_eq!((sum_big.mantissa(), sum_big.scale()), (LARGEST, 3));
    let diff_big = Amount::new(0, 7).minus(big);
    assert_eq!((diff_big.mantissa(), diff_big.scale()), (-LARGEST, 3));
}

#[test]
fn products_are_exact_and_have_the_places_of_both_operands() {
    let p = Amount::new(15, 1).times(Amount::new(-25, 2));
    assert_eq!((p.mantissa(), p.scale()), (-375, 3));
    let z = Amount::new(0, 5).times(Amount::new(25, 2));
    assert_eq!((z.mantissa(), z.scale()), (0, 0));
    let w = Amount::new(125, 2).times_whole(12);
    assert_eq!((w.mantissa(), w.scale()), (1500, 2));
    let wide = Amount::from_parts(4_000_000_000_000, 10)
        .unwrap()
        .times(Amount::from_parts(5_000_000_000_000, 10).unwrap());
    assert_eq!((wide.mantissa(), wide.scale()), (20_000_000_000_000_000_000_000_000, 20));
}

#[test]
fn what_cannot_be_written_exactly_is_not_computed() {
    let largest = Amount::from_parts(LARGEST, 0).unwrap();
    let one = Amount::from_i64(1);
    assert!(!largest.can_add(&one));
    assert_eq!(largest.checked_add(one), None);
    assert!(largest.can_subtract(&one));
    assert_eq!(largest.checked_sub(one), Amount::from_parts(LARGEST - 1, 0));
    assert!(!Amount::from_parts(-LARGEST, 0).unwrap().can_subtract(&one));
    // A tenth cannot be added to a number that fills the mantissa.
    assert!(!largest.can_add(&Amount::new(1, 1)));
    assert!(!largest.can_subtract(&Amount::new(1, 1)));
    // Opposite signs that cancel stay within the range.
    assert!(largest.can_add(&Amount::from_parts(-LARGEST, 0).unwrap()));
    assert_eq!(
        largest.checked_add(Amount::from_parts(-LARGEST, 0).unwrap()),
        Some(Amount::zero())
    );
    assert!(!largest.can_multiply(&Amount::from_i64(2)));
    assert_eq!(largest.checked_mul(Amount::from_i64(2)), None);
    assert!(largest.can_multiply(&one));
    // More than 28 places together cannot be written.
    assert!(!Amount::new(1, 15).can_multiply(&Amount::new(1, 14)));
    assert!(Amount::new(1, 14).can_multiply(&Amount::new(1, 14)));
    assert_eq!(
        Amount::new(1, 14).checked_mul(Amount::new(1, 14)),
        Amount::from_parts(1, 28)
    );
    // Aligning the places may itself leave the range.
    let tiny = Amount::new(1, 28);
    assert!(!Amount::from_i64(8).can_add(&tiny));
    assert!(Amount::from_i64(7).can_add(&tiny));
    let s = Amount::from_i64(7).plus(tiny);
    assert_eq!((s.mantissa(), s.scale()), (70_000_000_000_000_000_000_000_000_001, 28));
}

#[test]
fn checked_results_agree_with_the_decimals_they_stand_for() {
    let samples = [
        Amount::zero(),
        Amount::new(0, 9),
        Amount::from_i64(1),
        Amount::from_i64(-7),
        Amount::new(123456789, 4),
        Amount::new(-5, 28),
        Amount::new(i64::MAX, 0),
        Amount::new(i64::MIN, 19),
        Amount::from_parts(LARGEST, 0).unwrap(),
        Amount::from_parts(-LARGEST, 28).unwrap(),
        Amount::from_parts(4_294_967_296, 9).unwrap(),
        Amount::from_parts(18_446_744_073_709_551_616, 20).unwrap(),
    ];
    for a in samples {
        for b in samples {
            if let Some(s) = a.checked_add(b) {
                let d = as_decimal(a) + as_decimal(b);
                assert_eq!((s.mantissa(), s.scale()), (d.mantissa(), d.scale()));
                assert!(a.can_add(&b));
            }
            if let Some(s) = a.checked_sub(b) {
                let d = as_decimal(a) - as_decimal(b);
                assert_eq!((s.mantissa(), s.scale()), (d.mantissa(), d.scale()));
            }
            if let Some(p) = a.checked_mul(b) {
                let d = as_decimal(a) * as_decimal(b);
                assert_eq!((p.mantissa(), p.scale()), (d.mantissa(), d.scale()));
            }
            assert_eq!(a.lt(&b), as_decimal(a) < as_decimal(b));
            assert_eq!(a == b, as_decimal(a) == as_decimal(b));
        }
    }
}

#[test]
fn quotients_are_those_of_the_decimals() {
    assert_eq!(Amount::from_i64(1).checked_div(Amount::from_i64(4)), Some(Amount::new(25, 2)));
    assert_eq!(Amount::from_i64(7).checked_div(Amount::zero()), None);
    let third = Amount::from_i64(1).checked_div(Amount::from_i64(3)).unwrap();
    assert_eq!(third.scale(), 28);
    assert_eq!(third.mantissa(), 3_333_333_333_333_333_333_333_333_333);
    assert_eq!(
        Amount::from_i64(1).percent_of(Amount::from_i64(8)),
        Amount::new(125, 1)
    );
    assert_eq!(
        Amount::from_i64(1).checked_percent_of(Amount::from_i64(8)),
        Some(Amount::new(125, 1))
    );
    assert_eq!(Amount::from_i64(1).checked_percent_of(Amount::zero()), None);
    assert_eq!(Amount::as_percent(Amount::new(5, 1)), Amount::from_i64(50));
    // A quotient that fills the mantissa has no percentage.
    let full = Amount::from_parts(LARGEST, 0).unwrap();
    assert_eq!(full.checked_div(Amount::from_i64(1)), Some(full));
    assert_eq!(full.checked_percent_of(Amount::from_i64(1)), None);
}

#[test]
fn a_vector_is_added_from_the_front() {
    let amounts = vec![Amount::new(15, 1), Amount::from_i64(2), Amount::new(-125, 2)];
    assert_eq!(sum(&amounts), Amount::new(225, 2));
    assert_eq!(checked_sum(&amounts), Some(Amount::new(225, 2)));
    assert_eq!(sum(&Vec::new()), Amount::zero());
    let first = sum(&vec![Amount::new(15, 1)]);
    assert_eq!((first.mantissa(), first.scale()), (15, 1));
    let overflowing = vec![
        Amount::from_parts(LARGEST, 0).unwrap(),
        Amount::from_i64(1),
        Amount::from_i64(-5),
    ];
    assert_eq!(checked_sum(&overflowing), None);
    let fitting = vec![
        Amount::from_parts(LARGEST, 0).unwrap(),
        Amount::from_i64(-5),
        Amount::from_i64(1),
    ];
    assert_eq!(checked_sum(&fitting), Amount::from_parts(LARGEST - 4, 0));
}

#[test]
fn amounts_are_written_without_decimal_places() {
    assert_eq!(Amount::from_i64(21500).to_whole_text(), "21500");
    assert_eq!(Amount::new(1799999, 2).to_whole_text(), "17999");
    assert_eq!(Amount::new(-14, 1).to_whole_text(), "-1");
}

fn sample_amounts() -> Vec<Amount> {
    let mantissas: [i128; 14] = [
        0,
        1,
        -1,
        9,
        4_294_967_295,
        4_294_967_296,
        -123_456_789_012,
        18_446_744_073_709_551_615,
        18_446_744_073_709_551_616,
        -99_999_999_999_999_999_999,
        39_614_081_257_132_168_796_771_975_168,
        LARGEST / 10,
        LARGEST,
        -LARGEST,
    ];
    let scales = [0u32, 1, 2, 9, 10, 19, 20, 27, 28];
    let mut out = Vec::new();
    for m in mantissas {
        for s in scales {
            out.push(Amount::from_parts(m, s).unwrap());
        }
    }
    out
}

fn aligned(a: Amount, places: u32) -> Option<i128> {
    a.mantissa().checked_mul(10i128.checked_pow(places - a.scale())?)
}

#[test]
fn exact_sums_and_differences_have_the_digits_that_the_rules_give() {
    let samples = sample_amounts();
    let mut exact = 0;
    for &a in &samples {
        for &b in &samples {
            let places = a.scale().max(b.scale());
            let wanted = match (aligned(a, places), aligned(b, places)) {
                (Some(x), Some(y)) => x.checked_add(y).filter(|t| t.abs() <= LARGEST),
                _ => None,
            };
            assert_eq!(a.can_add(&b), wanted.is_some());
            if let (Some(t), Some(s)) = (wanted, a.checked_add(b)) {
                exact += 1;
                let kept = if a.mantissa() == 0 {
                    b.scale()
                } else if b.mantissa() == 0 {
                    a.scale()
                } else {
                    places
                };
                assert_eq!(s.scale(), kept);
                assert_eq!(aligned(s, places), Some(t));
            }
            let wanted = match (aligned(a, places), aligned(b, places)) {
                (Some(x), Some(y)) => x.checked_sub(y).filter(|t| t.abs() <= LARGEST),
                _ => None,
            };
            assert_eq!(a.can_subtract(&b), wanted.is_some());
            if let (Some(t), Some(d)) = (wanted, a.checked_sub(b)) {
                let kept = if a.mantissa() == 0 {
                    b.scale()
                } else if b.mantissa() == 0 {
                    a.scale()
                } else {
                    places
                };
                assert_eq!(d.scale(), kept);
                assert_eq!(aligned(d, places), Some(t));
            }
        }
    }
    assert!(exact > 1000);
}

#[test]
fn exact_products_have_the_digits_that_the_rules_give() {
    let samples = sample_amounts();
    let mut exact = 0;
    for &a in &samples {
        for &b in &samples {
            let wanted = if a.scale() + b.scale() <= 28 {
                a.mantissa().checked_mul(b.mantissa()).filter(|t| t.abs() <= LARGEST)
            } else {
                None
            };
            assert_eq!(a.can_multiply(&b), wanted.is_some());
            assert_eq!(a.checked_mul(b).is_some(), wanted.is_some());
            if let (Some(t), Some(p)) = (wanted, a.checked_mul(b)) {
                exact += 1;
                if t == 0 {
                    assert_eq!((p.mantissa(), p.scale()), (0, 0));
                } else {
                    assert_eq!((p.mantissa(), p.scale()), (t, a.scale() + b.scale()));
                }
            }
        }
    }
    assert!(exact > 1000);
}

#[test]
fn comparisons_follow_the_values() {
    let samples = sample_amounts();
    for &a in &samples {
        for &b in &samples {
            let places = a.scale().max(b.scale());
            match (aligned(a, places), aligned(b, places)) {
                (Some(x), Some(y)) => {
                    assert_eq!(a.lt(&b), x < y);
                    assert_eq!(a == b, x == y);
                    assert_eq!(a.le(&b), x <= y);
                }
                _ => {}
            }
        }
    }
}

#[test]
fn a_product_that_cannot_be_written_exactly_is_rounded() {
    let third = Amount::from_i64(1).checked_div(Amount::from_i64(3)).unwrap();
    assert_eq!(third.checked_mul(Amount::from_i64(100)), None);
    let percent = third.rounded_mul(Amount::from_i64(100)).unwrap();
    assert_eq!(
        (percent.mantissa(), percent.scale()),
        (33_333_333_333_333_333_333_333_333_330, 27)
    );
    let two_thirds = Amount::from_i64(2).checked_div(Amount::from_i64(3)).unwrap();
    let rounded = two_thirds.rounded_mul(Amount::from_i64(100)).unwrap();
    assert_eq!(as_decimal(rounded), as_decimal(two_thirds) * Decimal::from(100));
    assert_eq!(
        (rounded.mantissa(), rounded.scale()),
        (66_666_666_666_666_666_666_666_666_670, 27)
    );
    // More than 28 places together are rounded away.
    let tiny = Amount::new(15, 15).rounded_mul(Amount::new(1, 14)).unwrap();
    assert_eq!(as_decimal(tiny), as_decimal(Amount::new(15, 15)) * as_decimal(Amount::new(1, 14)));
    // Where the product can be written exactly, it is exact.
    let exact = Amount::new(15, 1).rounded_mul(Amount::new(-25, 2)).unwrap();
    assert_eq!((exact.mantissa(), exact.scale()), (-375, 3));
    // A product beyond the range is none.
    let largest = Amount::from_parts(LARGEST, 0).unwrap();
    assert_eq!(largest.rounded_mul(Amount::from_i64(2)), None);
    assert!(largest.rounded_mul(Amount::new(5, 1)).is_some());
}

#[test]
fn rounded_products_are_those_of_the_decimals() {
    let samples = sample_amounts();
    for &a in &samples {
        for &b in &samples {
            let wanted = as_decimal(a).checked_mul(as_decimal(b));
            let got = a.rounded_mul(b);
            assert_eq!(got.is_some(), wanted.is_some());
            if let (Some(p), Some(d)) = (got, wanted) {
                assert_eq!((p.mantissa(), p.scale()), (d.mantissa(), d.scale()));
            }
        }
    }
}

#[test]
fn a_ratio_that_does_not_end_has_a_rounded_percentage() {
    let one = Amount::from_i64(1);
    let three = Amount::from_i64(3);
    let percent = one.percent_of(three);
    assert_eq!(as_decimal(percent), Decimal::from(1) / Decimal::from(3) * Decimal::from(100));
    assert_eq!(one.checked_percent_of(three), Some(percent));
    assert_eq!(Amount::zero().percent_of(three), Amount::zero());
    assert_eq!(Amount::zero().checked_div(three), Some(Amount::zero()));
    assert_eq!(Amount::new(0, 7).checked_div(three).unwrap().scale(), 0);
}
