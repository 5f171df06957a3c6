use vstd::prelude::*;
use vstd::arithmetic::power2::{lemma2_to64, lemma_pow2_unfold, pow2};
use vstd::string::StrSliceExecFns;
use vstd::utf8::encode_utf8;

verus! {

/// A model value is a bit string whose characters are `0`, `1` or `x` (a bit
/// that the model leaves free); this is the string with every `x` made `0`.
pub open spec fn disambiguated(bits: Seq<char>) -> Seq<char> {
    bits.map_values(|c: char| if c == 'x' { '0' } else { c })
}

/// Number of bytes of the UTF-8 encoding of `s` (what `str::len` returns).
pub open spec fn utf8_len(s: Seq<char>) -> nat {
    encode_utf8(s).len()
}

/// The digits that a radix-2 parse of `s` reads: a leading `+` is skipped.
pub open spec fn radix2_digits(s: Seq<char>) -> Seq<char> {
    if s.len() > 0 && s[0] == '+' {
        s.drop_first()
    } else {
        s
    }
}

/// `s` is accepted by an unsigned radix-2 parse: after an optional `+`,
/// at least one digit, and every digit is `0` or `1`.
pub open spec fn parses_as_binary(s: Seq<char>) -> bool {
    let d = radix2_digits(s);
    &&& d.len() > 0
    &&& forall|i: int| 0 <= i < d.len() ==> (#[trigger] d[i] == '0' || d[i] == '1')
}

/// The number that a big-endian sequence of binary digits denotes.
pub open spec fn binary_value(d: Seq<char>) -> nat
    decreases d.len(),
{
    if d.len() == 0 {
        0
    } else {
        2 * binary_value(d.drop_last()) + (if d.last() == '1' { 1nat } else { 0nat })
    }
}

/// Disambiguation keeps the length, leaves no `x`, keeps every other
/// character, and doing it twice is the same as doing it once.
pub proof fn law_disambiguate(bits: Seq<char>)
    ensures
        disambiguated(bits).len() == bits.len(),
        !disambiguated(bits).contains('x'),
        forall|i: int| 0 <= i < bits.len() && bits[i] != 'x' ==> #[trigger] disambiguated(bits)[i] == bits[i],
        disambiguated(disambiguated(bits)) == disambiguated(bits),
{
    assert(disambiguated(disambiguated(bits)) =~= disambiguated(bits));
}

/// Disambiguation leaves a bit string unchanged exactly when it holds no `x`.
pub proof fn lemma_disambiguated_fixed_point(bits: Seq<char>)
    ensures
        (disambiguated(bits) == bits) <==> !bits.contains('x'),
{
    if bits.contains('x') {
        let i = choose|i: int| 0 <= i < bits.len() && bits[i] == 'x';
        assert(disambiguated(bits)[i] == '0');
    } else {
        assert(disambiguated(bits) =~= bits);
    }
}

/// A binary digit sequence denotes a number below two to the power of its length.
pub proof fn lemma_binary_value_bound(d: Seq<char>)
    ensures
        binary_value(d) < pow2(d.len()),
    decreases d.len(),
{
    if d.len() == 0 {
        lemma2_to64();
    } else {
        lemma_binary_value_bound(d.drop_last());
        lemma_pow2_unfold(d.len());
    }
}

/// Reading two digit sequences one after the other: the first is shifted
/// left by the length of the second.
pub proof fn lemma_binary_value_concat(a: Seq<char>, b: Seq<char>)
    ensures
        binary_value(a + b) == binary_value(a) * pow2(b.len()) + binary_value(b),
    decreases b.len(),
{
    if b.len() == 0 {
        assert(a + b =~= a);
        lemma2_to64();
        assert(binary_value(b) == 0);
        assert(binary_value(a) * pow2(b.len()) == binary_value(a) * 1);
    } else {
        let bd = b.drop_last();
        assert((a + b).drop_last() =~= a + bd);
        assert((a + b).last() == b.last());
        lemma_binary_value_concat(a, bd);
        lemma_pow2_unfold(b.len());
        let x = binary_value(a);
        let p = pow2(bd.len());
        let bit: nat = if b.last() == '1' { 1 } else { 0 };
        assert(binary_value(a + b) == 2 * binary_value(a + bd) + bit);
        assert(binary_value(b) == 2 * binary_value(bd) + bit);
        assert(binary_value(a + bd) == x * p + binary_value(bd));
        assert(pow2(b.len()) == 2 * p);
        assert(2 * (x * p) == x * (2 * p)) by (nonlinear_arith);
        assert(binary_value(a) * pow2(b.len()) == x * (2 * p));
    }
}

/// Whether `s` is accepted by an unsigned radix-2 parse.
fn is_binary(s: &str) -> (r: bool)
    ensures
        r == parses_as_binary(s@),
{
    let ghost d = radix2_digits(s@);
    let mut first = true;
    let mut plus = false;
    let mut any_digit = false;
    for c in it: s.chars()
        invariant
            it.seq() == s@,
            d == radix2_digits(s@),
            first == (it.index() == 0),
            plus == (it.index() > 0 && s@[0] == '+'),
            any_digit == (it.index() - (if plus { 1int } else { 0int }) > 0),
            forall|j: int|
                0 <= j < it.index() - (if plus { 1int } else { 0int }) ==> (#[trigger] d[j] == '0'
                    || d[j] == '1'),
    {
        if first && c == '+' {
            first = false;
            plus = true;
        } else {
            first = false;
            let ghost k = it.index() - (if plus { 1int } else { 0int });
            assert(d[k] == c);
            if c != '0' && c != '1' {
                return false;
            }
            any_digit = true;
        }
    }
    proof {
        if plus {
            assert(d.len() == s@.len() - 1);
        } else {
            assert(d == s@);
        }
    }
    any_digit
}

/// The number that a string of binary digits (after an optional `+`)
/// denotes, where it is below 2^64 (leading zeros are allowed); `None` where
/// it does not fit in 64 bits or the string is not binary.
pub fn bits_to_u64(bits: &str) -> (r: Option<u64>)
    ensures
        r == (if parses_as_binary(bits@) && binary_value(radix2_digits(bits@)) < pow2(64) {
            Some(binary_value(radix2_digits(bits@)) as u64)
        } else {
            None
        }),
{
    if !is_binary(bits) {
        return None;
    }
    parse_binary_checked(bits)
}

/// Unsigned radix-2 parse of `s`: its value where it fits in a `u64`.
fn parse_binary_checked(s: &str) -> (r: Option<u64>)
    requires
        parses_as_binary(s@),
    ensures
        r == (if binary_value(radix2_digits(s@)) < pow2(64) {
            Some(binary_value(radix2_digits(s@)) as u64)
        } else {
            None
        }),
{
    let ghost d = radix2_digits(s@);
    let ghost off: int = if s@[0] == '+' { 1 } else { 0 };
    let mut v: u64 = 0;
    let mut overflow = false;
    let mut first = true;
    proof {
        lemma2_to64();
    }
    for c in it: s.chars()
        invariant
            it.seq() == s@,
            parses_as_binary(s@),
            d == radix2_digits(s@),
            off == (if s@[0] == '+' { 1int } else { 0int }),
            d.len() == s@.len() - off,
            first == (it.index() == 0),
            pow2(64) == 0x10000000000000000,
            it.index() == 0 ==> v == 0 && !overflow,
            it.index() > 0 ==> overflow == (binary_value(d.take(it.index() - off)) >= pow2(64)),
            it.index() > 0 && !overflow ==> v == binary_value(d.take(it.index() - off)),
    {
        let ghost i = it.index();
        if first && c == '+' {
            first = false;
            proof {
                assert(d.take(0) =~= Seq::<char>::empty());
                assert(binary_value(d.take(0)) == 0);
            }
        } else {
            first = false;
            assert(c == d[i - off]);
            proof {
                let k = i - off;
                assert(d.take(k + 1).drop_last() =~= d.take(k));
                assert(d.take(k + 1).last() == c);
                if k == 0 {
                    assert(d.take(0) =~= Seq::<char>::empty());
                    assert(binary_value(d.take(0)) == 0);
                }
                assert(binary_value(d.take(k + 1)) == 2 * binary_value(d.take(k)) + (if c == '1' {
                    1nat
                } else {
                    0nat
                }));
            }
            if !overflow {
                if v >= 0x8000000000000000 {
                    overflow = true;
                } else if c == '1' {
                    v = v * 2 + 1;
                } else {
                    v = v * 2;
                }
            }
        }
    }
    assert(d.take(s@.len() - off) =~= d);
    if overflow {
        None
    } else {
        Some(v)
    }
}

/// Whether a bit string holds a character other than `0`: the value of a
/// constant term whose bits these are is nonzero.
pub fn bits_nonzero(bits: &str) -> (r: bool)
    ensures
        r == exists|i: int| 0 <= i < bits@.len() && bits@[i] != '0',
{
    for c in it: bits.chars()
        invariant
            it.seq() == bits@,
            forall|j: int| 0 <= j < it.index() ==> bits@[j] == '0',
    {
        if c != '0' {
            assert(bits@[it.index()] != '0');
            return true;
        }
    }
    false
}

/// Unsigned radix-2 parse of `s` into a `u64`.
pub(crate) fn parse_binary_u64(s: &str) -> (v: u64)
    requires
        parses_as_binary(s@),
        radix2_digits(s@).len() <= 64,
    ensures
        v == binary_value(radix2_digits(s@)),
{
    let ghost d = radix2_digits(s@);
    let ghost off: int = if s@[0] == '+' { 1 } else { 0 };
    let mut v: u64 = 0;
    let mut first = true;
    for c in it: s.chars()
        invariant
            it.seq() == s@,
            parses_as_binary(s@),
            d == radix2_digits(s@),
            d.len() <= 64,
            off == (if s@[0] == '+' { 1int } else { 0int }),
            d.len() == s@.len() - off,
            first == (it.index() == 0),
            it.index() == 0 ==> v == 0,
            it.index() > 0 ==> v == binary_value(d.take(it.index() - off)),
    {
        let ghost i = it.index();
        if first && c == '+' {
            first = false;
        } else {
            first = false;
            assert(c == d[i - off]);
            proof {
                let k = i - off;
                assert(d.take(k + 1).drop_last() =~= d.take(k));
                lemma_binary_value_bound(d.take(k));
                lemma_pow2_unfold((k + 1) as nat);
                lemma_binary_value_bound(d.take(k + 1));
                if k + 1 < 64 {
                    vstd::arithmetic::power2::lemma_pow2_strictly_increases((k + 1) as nat, 64);
                }
                lemma2_to64();
                if k == 0 {
                    assert(d.take(0) =~= Seq::<char>::empty());
                }
            }
            if c == '1' {
                v = v * 2 + 1;
            } else {
                v = v * 2;
            }
        }
    }
    assert(d.take(s@.len() - off) =~= d);
    v
}

/// Calls `String::push` of std, which vstd gives no specification: the
/// contract claims that the string afterwards is the old one with `c`
/// appended.
#[verifier::external_body]
pub(crate) fn push_char(s: &mut String, c: char)
    ensures
        final(s)@ == old(s)@.push(c),
{
    s.push(c);
}

/// A `BVSolution` represents a possible solution for one `BV` in a given model.
#[derive(PartialEq, Eq, Debug, Hash)]
pub struct BVSolution {
    assignment: String,
}

impl View for BVSolution {
    type V = Seq<char>;

    closed spec fn view(&self) -> Seq<char> {
        self.assignment@
    }
}

impl Clone for BVSolution {
    fn clone(&self) -> (r: Self)
        ensures
            r@ == self@,
    {
        BVSolution { assignment: self.assignment.clone() }
    }
}

impl BVSolution {
    /// Get a string of length equal to the bitwidth, where each character in the
    /// string is either `0`, `1`, or `x`.
    pub fn as_01x_str(&self) -> (s: &str)
        ensures
            s@ == self@,
    {
        self.assignment.as_str()
    }

    /// Whether `self` and `other` hold the same bit string.
    pub fn same_bits(&self, other: &Self) -> (r: bool)
        ensures
            r == (self@ == other@),
    {
        self.assignment == other.assignment
    }

    /// Turn a string of `0`, `1`, and/or `x` characters into a `BVSolution`.
    pub fn from_01x_str(s: &str) -> (r: Self)
        ensures
            r@ == s@,
    {
        BVSolution { assignment: s.to_owned() }
    }

    /// A version of this solution in which every `x` is replaced by `0`.
    pub fn disambiguate(&self) -> (r: Self)
        ensures
            r@ == disambiguated(self@),
    {
        let mut out = String::new();
        let ghost src = self@;
        for c in it: self.assignment.as_str().chars()
            invariant
                it.seq() == src,
                out@ == disambiguated(src.take(it.index())),
        {
            proof {
                assert(src.take(it.index() + 1) == src.take(it.index()).push(src[it.index()]));
            }
            if c == 'x' {
                push_char(&mut out, '0');
            } else {
                push_char(&mut out, c);
            }
            assert(out@ =~= disambiguated(src.take(it.index() + 1)));
        }
        assert(src.take(src.len() as int) =~= src);
        BVSolution { assignment: out }
    }

    /// Get a version of this solution that is guaranteed to correspond to
    /// exactly one possible value (it holds no `x`). Where the solution
    /// represents several values, one of them is chosen: the one with `0` for
    /// every `x`.
    pub fn deterministic(self) -> (r: Option<Self>)
        ensures
            r matches Some(t) && t@ == disambiguated(self@),
    {
        Some(self.disambiguate())
    }

    /// Get a `u64` value for the solution, choosing `0` for every `x`.
    /// Returns `None` if the value does not fit in 64 bits.
    pub fn as_u64(&self) -> (r: Option<u64>)
        requires
            utf8_len(disambiguated(self@)) > 64 || parses_as_binary(disambiguated(self@)),
        ensures
            r == (if parses_as_binary(disambiguated(self@))
                && binary_value(radix2_digits(disambiguated(self@))) < pow2(64) {
                Some(binary_value(radix2_digits(disambiguated(self@))) as u64)
            } else {
                None
            }),
    {
        let disambiguated = self.disambiguate();
        bits_to_u64(disambiguated.as_01x_str())
    }

    /// Get a `bool` value for a one-bit solution: `1` is `true`, `0` and `x`
    /// are `false`. Returns `None` if the solution is not one bit wide.
    pub fn as_bool(&self) -> (r: Option<bool>)
        requires
            utf8_len(self@) == 1 ==> (self@[0] == '0' || self@[0] == '1' || self@[0] == 'x'),
        ensures
            r == (if utf8_len(self@) == 1 { Some(self@[0] == '1') } else { None }),
    {
        let binary_string = self.as_01x_str();
        if binary_string.as_bytes().len() == 1 {
            proof {
                assert(binary_string@.len() > 0) by {
                    if binary_string@.len() == 0 {
                        assert(encode_utf8(binary_string@) =~= Seq::<u8>::empty());
                    }
                }
            }
            let c = binary_string.get_char(0);
            if c == '1' {
                Some(true)
            } else {
                Some(false)
            }
        } else {
            None
        }
    }
}

} // verus!
