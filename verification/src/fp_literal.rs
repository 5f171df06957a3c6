//! Decoding of the text the solver gives for a constant floating-point term,
//! `(fp #b<sign> #b<exponent> #b<significand>)`, into IEEE 754 bit patterns.

use vstd::prelude::*;

use crate::solution::{
    binary_value, lemma_binary_value_bound, lemma_binary_value_concat, parse_binary_u64,
    parses_as_binary, radix2_digits,
};
use vstd::arithmetic::power2::{lemma2_to64, lemma2_to64_rest, pow2};

verus! {

/// The IEEE 754 bit pattern of a constant in one of the two interchange
/// formats that `f32` and `f64` hold.
#[derive(PartialEq, Eq, Structural, Clone, Copy, Debug)]
pub enum FpBits {
    /// binary32: 1 sign, 8 exponent and 23 significand bits.
    Binary32(u32),
    /// binary64: 1 sign, 11 exponent and 52 significand bits.
    Binary64(u64),
}

/// `(fp #b`
pub open spec fn literal_open() -> Seq<char> {
    seq!['(', 'f', 'p', ' ', '#', 'b']
}

/// ` #b`
pub open spec fn literal_sep() -> Seq<char> {
    seq![' ', '#', 'b']
}

/// The text of a constant with the given sign, exponent and significand bits.
pub open spec fn fp_literal(sign: Seq<char>, exponent: Seq<char>, significand: Seq<char>) -> Seq<char> {
    literal_open() + sign + literal_sep() + exponent + literal_sep() + significand + seq![')']
}

/// Every character is a binary digit.
pub open spec fn binary_digits(s: Seq<char>) -> bool {
    forall|i: int| 0 <= i < s.len() ==> (#[trigger] s[i] == '0' || s[i] == '1')
}

/// The sign field of a literal.
pub open spec fn literal_sign(s: Seq<char>) -> Seq<char> {
    s.subrange(6, 7)
}

/// The exponent field of a literal with `ew` exponent bits.
pub open spec fn literal_exponent(s: Seq<char>, ew: int) -> Seq<char> {
    s.subrange(10, 10 + ew)
}

/// The significand field of a literal with `ew` exponent and `mw` significand bits.
pub open spec fn literal_significand(s: Seq<char>, ew: int, mw: int) -> Seq<char> {
    s.subrange(13 + ew, 13 + ew + mw)
}

/// `s` is the text of a constant with one sign bit, `ew` exponent bits and
/// `mw` significand bits.
pub open spec fn is_fp_literal(s: Seq<char>, ew: int, mw: int) -> bool {
    let sign = literal_sign(s);
    let exponent = literal_exponent(s, ew);
    let significand = literal_significand(s, ew, mw);
    &&& s.len() == 14 + ew + mw
    &&& s == fp_literal(sign, exponent, significand)
    &&& binary_digits(sign)
    &&& binary_digits(exponent)
    &&& binary_digits(significand)
}

/// The bit pattern of a literal: its sign, exponent and significand bits
/// read together as one binary number.
pub open spec fn literal_value(s: Seq<char>, ew: int, mw: int) -> nat {
    binary_value(literal_sign(s) + literal_exponent(s, ew) + literal_significand(s, ew, mw))
}

/// What the text of a constant decodes to.
pub open spec fn decode_fp_literal(s: Seq<char>) -> Option<FpBits> {
    if is_fp_literal(s, 8, 23) {
        Some(FpBits::Binary32(literal_value(s, 8, 23) as u32))
    } else if is_fp_literal(s, 11, 52) {
        Some(FpBits::Binary64(literal_value(s, 11, 52) as u64))
    } else {
        None
    }
}

/// The fields read from a literal are the fields it was written with.
proof fn lemma_literal_fields(sign: Seq<char>, exponent: Seq<char>, significand: Seq<char>)
    requires
        sign.len() == 1,
    ensures
        fp_literal(sign, exponent, significand).len() == 14 + exponent.len() + significand.len(),
        literal_sign(fp_literal(sign, exponent, significand)) == sign,
        literal_exponent(fp_literal(sign, exponent, significand), exponent.len() as int) == exponent,
        literal_significand(
            fp_literal(sign, exponent, significand),
            exponent.len() as int,
            significand.len() as int,
        ) == significand,
{
    let lit = fp_literal(sign, exponent, significand);
    let ew = exponent.len() as int;
    let mw = significand.len() as int;
    assert(literal_sign(lit) =~= sign);
    assert(literal_exponent(lit, ew) =~= exponent);
    assert(literal_significand(lit, ew, mw) =~= significand);
}

/// Binary value of a sign bit followed by exponent and significand bits:
/// the sign is the top bit, the exponent the bits below it.
proof fn lemma_fields_value(sign: Seq<char>, exponent: Seq<char>, significand: Seq<char>)
    requires
        sign.len() == 1,
    ensures
        binary_value(sign + exponent + significand) == binary_value(sign) * pow2(
            (exponent.len() + significand.len()) as nat,
        ) + binary_value(exponent) * pow2(significand.len()) + binary_value(significand),
{
    lemma_binary_value_concat(sign + exponent, significand);
    lemma_binary_value_concat(sign, exponent);
    vstd::arithmetic::power2::lemma_pow2_adds(exponent.len(), significand.len());
    let s = binary_value(sign);
    let e = binary_value(exponent);
    let a = pow2(exponent.len());
    let b = pow2(significand.len());
    assert((s * a + e) * b == s * (a * b) + e * b) by (nonlinear_arith);
}

/// A binary64 literal (1 sign, 11 exponent and 52 significand binary digits)
/// decodes to the bit pattern whose top bit is its sign, whose next 11 bits
/// are its exponent and whose low 52 bits are its significand.
pub proof fn law_binary64_literal(sign: Seq<char>, exponent: Seq<char>, significand: Seq<char>)
    requires
        sign.len() == 1,
        exponent.len() == 11,
        significand.len() == 52,
        binary_digits(sign),
        binary_digits(exponent),
        binary_digits(significand),
    ensures
        binary_value(sign) * 0x8000000000000000 + binary_value(exponent) * 0x10000000000000
            + binary_value(significand) < 0x10000000000000000,
        decode_fp_literal(fp_literal(sign, exponent, significand)) == Some(
            FpBits::Binary64(
                (binary_value(sign) * 0x8000000000000000 + binary_value(exponent) * 0x10000000000000
                    + binary_value(significand)) as u64,
            ),
        ),
        (sign[0] == '1') == (binary_value(sign) == 1),
        binary_value(sign) <= 1,
{
    let lit = fp_literal(sign, exponent, significand);
    lemma_literal_fields(sign, exponent, significand);
    assert(lit.len() != 14 + 8 + 23);
    assert(is_fp_literal(lit, 11, 52));
    lemma_fields_value(sign, exponent, significand);
    lemma2_to64();
    lemma2_to64_rest();
    lemma_binary_value_bound(exponent);
    lemma_binary_value_bound(significand);
    assert(sign.drop_last() =~= Seq::<char>::empty());
    assert(binary_value(sign.drop_last()) == 0);
    assert(sign.last() == sign[0]);
}

/// A binary32 literal (1 sign, 8 exponent and 23 significand binary digits)
/// decodes to the bit pattern whose top bit is its sign, whose next 8 bits
/// are its exponent and whose low 23 bits are its significand.
pub proof fn law_binary32_literal(sign: Seq<char>, exponent: Seq<char>, significand: Seq<char>)
    requires
        sign.len() == 1,
        exponent.len() == 8,
        significand.len() == 23,
        binary_digits(sign),
        binary_digits(exponent),
        binary_digits(significand),
    ensures
        binary_value(sign) * 0x80000000 + binary_value(exponent) * 0x800000 + binary_value(
            significand,
        ) < 0x100000000,
        decode_fp_literal(fp_literal(sign, exponent, significand)) == Some(
            FpBits::Binary32(
                (binary_value(sign) * 0x80000000 + binary_value(exponent) * 0x800000
                    + binary_value(significand)) as u32,
            ),
        ),
        (sign[0] == '1') == (binary_value(sign) == 1),
        binary_value(sign) <= 1,
{
    let lit = fp_literal(sign, exponent, significand);
    lemma_literal_fields(sign, exponent, significand);
    assert(is_fp_literal(lit, 8, 23));
    lemma_fields_value(sign, exponent, significand);
    lemma2_to64();
    lemma_binary_value_bound(exponent);
    lemma_binary_value_bound(significand);
    assert(sign.drop_last() =~= Seq::<char>::empty());
    assert(binary_value(sign.drop_last()) == 0);
    assert(sign.last() == sign[0]);
}

fn chars_of(s: &str) -> (r: Vec<char>)
    ensures
        r@ == s@,
{
    let mut out: Vec<char> = Vec::new();
    for c in it: s.chars()
        invariant
            it.seq() == s@,
            out@ == s@.take(it.index()),
    {
        assert(s@.take(it.index() + 1) =~= s@.take(it.index()).push(c));
        out.push(c);
    }
    assert(s@.take(s@.len() as int) =~= s@);
    out
}

/// Append `c[from..to]` to `bits`, if every one of those characters is a
/// binary digit.
fn append_bits(c: &Vec<char>, from: usize, to: usize, bits: &mut String) -> (ok: bool)
    requires
        from <= to <= c@.len(),
    ensures
        ok == binary_digits(c@.subrange(from as int, to as int)),
        ok ==> final(bits)@ == old(bits)@ + c@.subrange(from as int, to as int),
{
    let mut i = from;
    while i < to
        invariant
            from <= i <= to <= c@.len(),
            binary_digits(c@.subrange(from as int, i as int)),
            bits@ == old(bits)@ + c@.subrange(from as int, i as int),
        decreases to - i,
    {
        let ch = c[i];
        if ch != '0' && ch != '1' {
            assert(c@.subrange(from as int, to as int)[i - from] == ch);
            return false;
        }
        crate::solution::push_char(bits, ch);
        assert(c@.subrange(from as int, i + 1) =~= c@.subrange(from as int, i as int).push(ch));
        i = i + 1;
    }
    true
}

fn decode_with_widths(c: &Vec<char>, ew: usize, mw: usize) -> (r: Option<u64>)
    requires
        c@.len() == 14 + ew + mw,
        1 <= ew,
        1 <= mw,
        1 + ew + mw <= 64,
    ensures
        r == (if is_fp_literal(c@, ew as int, mw as int) {
            Some(literal_value(c@, ew as int, mw as int) as u64)
        } else {
            None
        }),
{
    let ghost s = c@;
    let ghost sign = literal_sign(s);
    let ghost exponent = literal_exponent(s, ew as int);
    let ghost significand = literal_significand(s, ew as int, mw as int);
    let ghost lit = fp_literal(sign, exponent, significand);
    assert(lit.len() == s.len());
    let shape_ok = c[0] == '(' && c[1] == 'f' && c[2] == 'p' && c[3] == ' ' && c[4] == '#' && c[5]
        == 'b' && c[7] == ' ' && c[8] == '#' && c[9] == 'b' && c[10 + ew] == ' ' && c[11 + ew]
        == '#' && c[12 + ew] == 'b' && c[13 + ew + mw] == ')';
    proof {
        assert(lit[0] == '(' && lit[1] == 'f' && lit[2] == 'p' && lit[3] == ' ' && lit[4] == '#'
            && lit[5] == 'b');
        assert(lit[7] == ' ' && lit[8] == '#' && lit[9] == 'b');
        assert(lit[10 + ew] == ' ' && lit[11 + ew] == '#' && lit[12 + ew] == 'b');
        assert(lit[13 + ew + mw] == ')');
        if shape_ok {
            assert(s =~= lit);
        }
    }
    if !shape_ok {
        return None;
    }
    let mut bits = String::new();
    if !append_bits(c, 6, 7, &mut bits) {
        return None;
    }
    if !append_bits(c, 10, 10 + ew, &mut bits) {
        return None;
    }
    if !append_bits(c, 13 + ew, 13 + ew + mw, &mut bits) {
        return None;
    }
    proof {
        let all = sign + exponent + significand;
        assert(bits@ =~= all);
        assert(all.len() == 1 + ew + mw);
        assert(all[0] == sign[0]);
        assert(radix2_digits(all) == all);
        assert forall|i: int| 0 <= i < all.len() implies (#[trigger] all[i] == '0' || all[i] == '1') by {
            if i < 1 {
                assert(all[i] == sign[i]);
            } else if i < 1 + ew {
                assert(all[i] == exponent[i - 1]);
            } else {
                assert(all[i] == significand[i - 1 - ew]);
            }
        }
        assert(parses_as_binary(all));
    }
    Some(parse_binary_u64(bits.as_str()))
}

/// Decode the text the solver gives for a constant floating-point term into
/// the bit pattern of a binary32 or binary64 value; `None` for any other
/// text (another format, or not a constant).
pub fn fp_literal_bits(s: &str) -> (r: Option<FpBits>)
    ensures
        r == decode_fp_literal(s@),
        forall|sign: Seq<char>, exponent: Seq<char>, significand: Seq<char>|
            sign.len() == 1 && exponent.len() == 11 && significand.len() == 52 && binary_digits(sign)
                && binary_digits(exponent) && binary_digits(significand) && s@ == #[trigger] fp_literal(
                sign,
                exponent,
                significand,
            ) ==> r == Some(
                FpBits::Binary64(
                    (binary_value(sign) * 0x8000000000000000 + binary_value(exponent)
                        * 0x10000000000000 + binary_value(significand)) as u64,
                ),
            ),
        forall|sign: Seq<char>, exponent: Seq<char>, significand: Seq<char>|
            sign.len() == 1 && exponent.len() == 8 && significand.len() == 23 && binary_digits(sign)
                && binary_digits(exponent) && binary_digits(significand) && s@ == #[trigger] fp_literal(
                sign,
                exponent,
                significand,
            ) ==> r == Some(
                FpBits::Binary32(
                    (binary_value(sign) * 0x80000000 + binary_value(exponent) * 0x800000
                        + binary_value(significand)) as u32,
                ),
            ),
        r is Some ==> exists|sign: Seq<char>, exponent: Seq<char>, significand: Seq<char>|
            sign.len() == 1 && binary_digits(sign) && binary_digits(exponent) && binary_digits(
                significand,
            ) && ((exponent.len() == 11 && significand.len() == 52) || (exponent.len() == 8
                && significand.len() == 23)) && s@ == #[trigger] fp_literal(sign, exponent, significand),
{
    proof {
        assert forall|sign: Seq<char>, exponent: Seq<char>, significand: Seq<char>|
            sign.len() == 1 && exponent.len() == 11 && significand.len() == 52 && binary_digits(sign)
                && binary_digits(exponent) && binary_digits(significand) && s@ == #[trigger] fp_literal(
                sign,
                exponent,
                significand,
            ) implies decode_fp_literal(s@) == Some(
                FpBits::Binary64(
                    (binary_value(sign) * 0x8000000000000000 + binary_value(exponent)
                        * 0x10000000000000 + binary_value(significand)) as u64,
                ),
            ) by {
            law_binary64_literal(sign, exponent, significand);
        }
        assert forall|sign: Seq<char>, exponent: Seq<char>, significand: Seq<char>|
            sign.len() == 1 && exponent.len() == 8 && significand.len() == 23 && binary_digits(sign)
                && binary_digits(exponent) && binary_digits(significand) && s@ == #[trigger] fp_literal(
                sign,
                exponent,
                significand,
            ) implies decode_fp_literal(s@) == Some(
                FpBits::Binary32(
                    (binary_value(sign) * 0x80000000 + binary_value(exponent) * 0x800000
                        + binary_value(significand)) as u32,
                ),
            ) by {
            law_binary32_literal(sign, exponent, significand);
        }
        if is_fp_literal(s@, 8, 23) {
            let w = fp_literal(literal_sign(s@), literal_exponent(s@, 8), literal_significand(s@, 8, 23));
            assert(literal_sign(s@).len() == 1);
        } else if is_fp_literal(s@, 11, 52) {
            let w = fp_literal(literal_sign(s@), literal_exponent(s@, 11), literal_significand(s@, 11, 52));
            assert(literal_sign(s@).len() == 1);
        }
    }
    let c = chars_of(s);
    let n = c.len();
    if n == 45 {
        proof {
            vstd::arithmetic::power2::lemma2_to64();
            crate::solution::lemma_binary_value_bound(
                literal_sign(c@) + literal_exponent(c@, 8) + literal_significand(c@, 8, 23),
            );
        }
        match decode_with_widths(&c, 8, 23) {
            Some(v) => Some(FpBits::Binary32(v as u32)),
            None => None,
        }
    } else if n == 77 {
        match decode_with_widths(&c, 11, 52) {
            Some(v) => Some(FpBits::Binary64(v)),
            None => None,
        }
    } else {
        None
    }
}

} // verus!
