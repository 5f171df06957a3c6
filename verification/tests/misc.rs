use bitwuzla::capture::{capture_plan, placeholder_text, CapturePlan, MAX_DISPLAY_LENGTH};
use bitwuzla::fp::{check_symbol, FPError, Formats};
use bitwuzla::lambda::{apply_operands, lambda_operands};
use bitwuzla::slice::{check_slice, SliceError};
use bitwuzla::sort::{check_bv_width, check_fp_widths, SortError};
use bitwuzla::{BitWuzlaError};

#[test]
fn format_widths() {
    assert_eq!((Formats::F16.exponent(), Formats::F16.fraction()), (5, 11));
    assert_eq!((Formats::F32.exponent(), Formats::F32.fraction()), (8, 24));
    assert_eq!((Formats::F64.exponent(), Formats::F64.fraction()), (11, 53));
    assert_eq!((Formats::F128.exponent(), Formats::F128.fraction()), (14, 114));
}

#[test]
fn format_widths_fill_the_format() {
    for (f, bits) in [(Formats::F16, 16), (Formats::F32, 32), (Formats::F64, 64), (Formats::F128, 128)] {
        assert!(f.exponent() > 0 && f.fraction() > 0);
        assert_eq!(f.exponent() + f.fraction(), bits);
    }
}

#[test]
fn symbols_without_nul_are_accepted() {
    assert_eq!(check_symbol(None), Ok(()));
    assert_eq!(check_symbol(Some("foo")), Ok(()));
    assert_eq!(check_symbol(Some("")), Ok(()));
}

#[test]
fn symbols_with_nul_are_invalid_identifiers() {
    assert_eq!(check_symbol(Some("fo\0o")), Err(FPError::InvalidIdentifier));
    let err = BitWuzlaError::FPError(FPError::InvalidIdentifier);
    assert_eq!(err, BitWuzlaError::FPError(FPError::InvalidIdentifier));
}

#[test]
fn short_output_is_read_whole() {
    assert_eq!(capture_plan(0, true), CapturePlan::ReadAll(0));
    assert_eq!(capture_plan(2000, true), CapturePlan::ReadAll(2000));
    assert_eq!(MAX_DISPLAY_LENGTH, 2000);
}

#[test]
fn long_output_is_replaced_when_limited() {
    assert_eq!(capture_plan(2001, true), CapturePlan::Placeholder);
    assert_eq!(capture_plan(2001, false), CapturePlan::ReadAll(2001));
    assert_eq!(placeholder_text(), "<output too large to display>");
}

#[test]
fn lambda_operands_put_body_last() {
    assert_eq!(lambda_operands(&[3, 5], 9), vec![3, 5, 9]);
    assert_eq!(lambda_operands(&[], 9), vec![9]);
}

#[test]
fn apply_operands_put_function_first() {
    assert_eq!(apply_operands(7, &[3, 5]), vec![7, 3, 5]);
    assert_eq!(apply_operands(7, &[]), vec![7]);
}

#[test]
fn slice_ranges() {
    assert_eq!(check_slice(4, 1, 8), Ok(()));
    assert_eq!(check_slice(7, 0, 8), Ok(()));
    assert_eq!(check_slice(3, 3, 8), Ok(()));
    assert_eq!(check_slice(1, 4, 8), Err(SliceError::LowAboveHigh));
    assert_eq!(check_slice(8, 0, 8), Err(SliceError::HighNotBelowWidth));
    assert_eq!(check_slice(2, 9, 8), Err(SliceError::LowAboveHigh));
}

#[test]
fn sort_width_checks() {
    assert_eq!(check_bv_width(8), Ok(()));
    assert_eq!(check_bv_width(0), Err(SortError::ZeroWidth));
    assert_eq!(check_fp_widths(8, 24), Ok(()));
    assert_eq!(check_fp_widths(0, 24), Err(SortError::ZeroExpWidth));
    assert_eq!(check_fp_widths(8, 0), Err(SortError::ZeroSigWidth));
    assert_eq!(check_fp_widths(0, 0), Err(SortError::ZeroExpWidth));
}
