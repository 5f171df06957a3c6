use bitwuzla::solution::{bits_nonzero, bits_to_u64, BVSolution};

#[test]
fn as_01x_str_returns_the_assignment() {
    let sol = BVSolution::from_01x_str("0x1x");
    assert_eq!(sol.as_01x_str(), "0x1x");
}

#[test]
fn disambiguate_replaces_free_bits_with_zero() {
    let sol = BVSolution::from_01x_str("x1x0");
    assert_eq!(sol.disambiguate().as_01x_str(), "0100");
}

#[test]
fn disambiguate_keeps_determined_solution() {
    let sol = BVSolution::from_01x_str("1011");
    assert_eq!(sol.disambiguate(), sol);
}

#[test]
fn disambiguate_is_idempotent() {
    let sol = BVSolution::from_01x_str("xx1x");
    let once = sol.disambiguate();
    assert_eq!(once.disambiguate(), once);
}

#[test]
fn deterministic_chooses_one_value() {
    let chosen = BVSolution::from_01x_str("1x").deterministic().unwrap();
    assert_eq!(chosen.as_01x_str(), "10");
    let chosen = BVSolution::from_01x_str("x0x1").deterministic().unwrap();
    assert_eq!(chosen.as_01x_str(), "0001");
}

#[test]
fn deterministic_keeps_exact_solution() {
    let sol = BVSolution::from_01x_str("101");
    assert_eq!(sol.clone().deterministic(), Some(sol));
}

#[test]
fn deterministic_after_disambiguate_is_some() {
    let sol = BVSolution::from_01x_str("x0x");
    assert_eq!(sol.disambiguate().deterministic().unwrap().as_01x_str(), "000");
}

#[test]
fn as_u64_reads_binary() {
    assert_eq!(BVSolution::from_01x_str("00000101").as_u64(), Some(5));
    assert_eq!(BVSolution::from_01x_str("11111111").as_u64(), Some(255));
}

#[test]
fn as_u64_chooses_zero_for_free_bits() {
    assert_eq!(BVSolution::from_01x_str("1x1").as_u64(), Some(5));
    assert_eq!(BVSolution::from_01x_str("xxxx").as_u64(), Some(0));
}

#[test]
fn as_u64_accepts_64_bits() {
    let all_ones = "1".repeat(64);
    assert_eq!(BVSolution::from_01x_str(&all_ones).as_u64(), Some(u64::MAX));
    let top = format!("1{}", "0".repeat(63));
    assert_eq!(BVSolution::from_01x_str(&top).as_u64(), Some(1u64 << 63));
}

#[test]
fn as_u64_rejects_values_of_64_bits_and_more() {
    let wide = "1".repeat(65);
    assert_eq!(BVSolution::from_01x_str(&wide).as_u64(), None);
    let two_to_64 = format!("1{}", "0".repeat(64));
    assert_eq!(BVSolution::from_01x_str(&two_to_64).as_u64(), None);
    let high_x = format!("x1{}", "0".repeat(64));
    assert_eq!(BVSolution::from_01x_str(&high_x).as_u64(), None);
}

#[test]
fn as_u64_accepts_wide_solutions_with_small_values() {
    let five = format!("{}101", "0".repeat(62));
    assert_eq!(BVSolution::from_01x_str(&five).as_u64(), Some(5));
    let wide_zero = "0".repeat(100);
    assert_eq!(BVSolution::from_01x_str(&wide_zero).as_u64(), Some(0));
    let max = format!("{}{}", "x".repeat(10), "1".repeat(64));
    assert_eq!(BVSolution::from_01x_str(&max).as_u64(), Some(u64::MAX));
}

#[test]
fn as_u64_skips_leading_plus() {
    assert_eq!(BVSolution::from_01x_str("+101").as_u64(), Some(5));
}

#[test]
fn as_bool_of_one_bit() {
    assert_eq!(BVSolution::from_01x_str("1").as_bool(), Some(true));
    assert_eq!(BVSolution::from_01x_str("0").as_bool(), Some(false));
    assert_eq!(BVSolution::from_01x_str("x").as_bool(), Some(false));
}

#[test]
fn as_bool_of_wider_solution_is_none() {
    assert_eq!(BVSolution::from_01x_str("10").as_bool(), None);
    assert_eq!(BVSolution::from_01x_str("").as_bool(), None);
}

#[test]
fn clone_keeps_bits() {
    let sol = BVSolution::from_01x_str("01x");
    assert_eq!(sol.clone().as_01x_str(), "01x");
}

#[test]
fn same_bits_compares_strings() {
    let a = BVSolution::from_01x_str("01x");
    assert!(a.same_bits(&BVSolution::from_01x_str("01x")));
    assert!(!a.same_bits(&BVSolution::from_01x_str("010")));
}

#[test]
fn bits_nonzero_detects_set_bits() {
    assert!(!bits_nonzero("0000"));
    assert!(bits_nonzero("0010"));
    assert!(!bits_nonzero(""));
}

#[test]
fn bits_to_u64_reads_values_that_fit() {
    assert_eq!(bits_to_u64("00000101"), Some(5));
    assert_eq!(bits_to_u64(&format!("{}1", "0".repeat(80))), Some(1));
    assert_eq!(bits_to_u64(&"1".repeat(64)), Some(u64::MAX));
    assert_eq!(bits_to_u64(&format!("1{}", "0".repeat(64))), None);
    assert_eq!(bits_to_u64("01x"), None);
    assert_eq!(bits_to_u64(""), None);
}
