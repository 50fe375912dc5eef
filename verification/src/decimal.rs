//! Fixed-point decimal values (prices and quantities) parsed from decimal strings.

use vstd::prelude::*;
use vstd::string::StrSliceExecFns;

use crate::text::{decimal, push_char, push_decimal};

verus! {

/// Whether a character is an ASCII decimal digit.
pub open spec fn is_digit(c: char) -> bool {
    '0' <= c <= '9'
}

/// The value of a decimal digit character.
pub open spec fn digit_value(c: char) -> int {
    c as int - '0' as int
}

/// Whether every character of a sequence is a decimal digit.
pub open spec fn all_digits(s: Seq<char>) -> bool {
    forall|i: int| 0 <= i < s.len() ==> is_digit(#[trigger] s[i])
}

/// The value of a string of decimal digits (0 for the empty string).
pub open spec fn digits_value(s: Seq<char>) -> int
    decreases s.len(),
{
    if s.len() == 0 {
        0
    } else {
        digits_value(s.drop_last()) * 10 + digit_value(s.last())
    }
}

/// A fixed-point decimal value: `(-1 if negative) * mantissa / 10^precision`.
#[derive(Copy, Clone, Debug, PartialEq, Eq, Structural)]
pub struct DecimalValue {
    /// Whether the value is negative.
    pub negative: bool,
    /// The digits of the value, without the decimal point.
    pub mantissa: u64,
    /// The number of digits after the decimal point.
    pub precision: u8,
}

/// A price (a decimal value that may be negative).
pub type Price = DecimalValue;

/// A quantity (a non-negative decimal value).
pub type Quantity = DecimalValue;

/// The decimal a string writes, if it writes one: an optional `-`, digits, and
/// optionally a `.` followed by digits, with at least one digit in all; the
/// digits must fit in 64 bits and the fraction in 255 places.
pub open spec fn spec_parse_decimal(s: Seq<char>) -> Option<DecimalValue> {
    let negative = s.len() > 0 && s[0] == '-';
    let body = if negative {
        s.drop_first()
    } else {
        s
    };
    let dot = crate::text::first_index_of(body, '.');
    let int_part = body.subrange(0, dot as int);
    let frac_part = if dot < body.len() {
        body.subrange(dot + 1int, body.len() as int)
    } else {
        Seq::<char>::empty()
    };
    let digits = int_part + frac_part;
    if all_digits(int_part) && all_digits(frac_part) && digits.len() > 0 && digits_value(digits)
        <= u64::MAX && frac_part.len() <= 255 {
        Some(
            DecimalValue {
                negative,
                mantissa: digits_value(digits) as u64,
                precision: frac_part.len() as u8,
            },
        )
    } else {
        None
    }
}

proof fn lemma_digits_value_push(s: Seq<char>, c: char)
    ensures
        digits_value(s.push(c)) == digits_value(s) * 10 + digit_value(c),
{
    assert(s.push(c).drop_last() =~= s);
}

proof fn lemma_digits_value_nonneg(s: Seq<char>)
    requires
        all_digits(s),
    ensures
        digits_value(s) >= 0,
    decreases s.len(),
{
    if s.len() > 0 {
        lemma_digits_value_nonneg(s.drop_last());
    }
}

/// Parses a decimal string (see [`spec_parse_decimal`]).
pub fn parse_decimal(s: &str) -> (r: Option<DecimalValue>)
    ensures
        r == spec_parse_decimal(s@),
{
    let n = s.unicode_len();
    let negative = n > 0 && s.get_char(0) == '-';
    let start: usize = if negative {
        1
    } else {
        0
    };
    let ghost body = if negative {
        s@.drop_first()
    } else {
        s@
    };
    let ghost dot = crate::text::first_index_of(body, '.');
    proof {
        crate::text::lemma_first_index_of(body, '.');
        assert(body =~= s@.subrange(start as int, n as int));
    }
    let ghost int_part = body.subrange(0, dot as int);
    let ghost frac_part = if dot < body.len() {
        body.subrange(dot + 1int, body.len() as int)
    } else {
        Seq::<char>::empty()
    };
    let mut mantissa: u64 = 0;
    let mut digit_count: usize = 0;
    let mut frac_len: usize = 0;
    let mut seen_dot = false;
    let mut overflow = false;
    let mut bad = false;
    let mut i: usize = start;
    let ghost mut digits: Seq<char> = Seq::empty();
    while i < n
        invariant
            n == s@.len(),
            start <= i <= n,
            body =~= s@.subrange(start as int, n as int),
            dot == crate::text::first_index_of(body, '.'),
            dot <= body.len(),
            dot < body.len() ==> body[dot as int] == '.',
            forall|j: int| 0 <= j < dot ==> body[j] != '.',
            int_part == body.subrange(0, dot as int),
            frac_part == (if dot < body.len() {
                body.subrange(dot + 1int, body.len() as int)
            } else {
                Seq::<char>::empty()
            }),
            seen_dot <==> (i - start > dot),
            !bad ==> ({
                let k = (i - start) as int;
                &&& seen_dot ==> digits == int_part + body.subrange(dot + 1int, k)
                &&& !seen_dot ==> digits == body.subrange(0, k)
                &&& all_digits(digits)
                &&& frac_len == (if seen_dot { k - dot - 1 } else { 0 })
                &&& digit_count == digits.len()
                &&& !overflow ==> mantissa == digits_value(digits)
                &&& overflow ==> digits_value(digits) > u64::MAX
            }),
            bad ==> !(all_digits(int_part) && all_digits(frac_part)),
        decreases n - i,
    {
        let c = s.get_char(i);
        let ghost k = (i - start) as int;
        assert(body[k] == c);
        if c == '.' && !seen_dot {
            assert(k == dot) by {
                if k < dot {
                    assert(body[k] != '.');
                }
            }
            assert(!bad ==> digits =~= int_part);
            seen_dot = true;
        } else if bad {
        } else if '0' <= c && c <= '9' {
            proof {
                lemma_digits_value_push(digits, c);
                lemma_digits_value_nonneg(digits);
                if seen_dot {
                    assert(int_part + body.subrange(dot + 1int, k + 1) =~= (int_part + body.subrange(dot + 1int, k)).push(c));
                } else {
                    assert(body.subrange(0, k + 1) =~= body.subrange(0, k).push(c));
                }
                digits = digits.push(c);
            }
            let d = (c as u64) - ('0' as u64);
            if !overflow {
                if mantissa > (u64::MAX - d) / 10 {
                    overflow = true;
                } else {
                    mantissa = mantissa * 10 + d;
                }
            }
            digit_count = digit_count + 1;
            if seen_dot {
                frac_len = frac_len + 1;
            }
        } else {
            proof {
                if seen_dot {
                    assert(frac_part[k - dot - 1] == c);
                    assert(!is_digit(frac_part[k - dot - 1]));
                } else {
                    assert(k < dot);
                    assert(int_part[k] == c);
                    assert(!is_digit(int_part[k]));
                }
            }
            bad = true;
        }
        i = i + 1;
    }
    if bad {
        return None;
    }
    proof {
        let k = (n - start) as int;
        assert(body.subrange(0, k) =~= body);
        if seen_dot {
            assert(body.subrange(dot + 1int, k) =~= frac_part);
        } else {
            assert(dot == body.len());
            assert(int_part =~= body);
            assert(frac_part =~= Seq::<char>::empty());
            assert(digits =~= int_part + frac_part);
        }
        assert(digits =~= int_part + frac_part);
        assert(frac_len == frac_part.len());
        assert(all_digits(int_part)) by {
            assert forall|j: int| 0 <= j < int_part.len() implies is_digit(#[trigger] int_part[j]) by {
                assert(digits[j] == int_part[j]);
            }
        }
        assert(all_digits(frac_part)) by {
            assert forall|j: int| 0 <= j < frac_part.len() implies is_digit(#[trigger] frac_part[j]) by {
                assert(digits[int_part.len() + j] == frac_part[j]);
            }
        }
    }
    if digit_count == 0 || overflow || frac_len > 255 {
        return None;
    }
    Some(DecimalValue { negative, mantissa, precision: frac_len as u8 })
}

/// `n` zero characters.
pub open spec fn zeros(n: nat) -> Seq<char> {
    Seq::new(n, |i: int| '0')
}

/// The digits of a mantissa, left-padded with zeros to at least `precision + 1` digits.
pub open spec fn padded_digits(mantissa: u64, precision: nat) -> Seq<char> {
    let d = decimal(mantissa as nat);
    if d.len() < precision + 1 {
        zeros((precision + 1 - d.len()) as nat) + d
    } else {
        d
    }
}

/// The text of a decimal value: an optional `-` (for a negative non-zero value),
/// the integer digits, and `precision` fraction digits after a `.` when the
/// precision is not zero.
pub open spec fn decimal_text(v: DecimalValue) -> Seq<char> {
    let d = padded_digits(v.mantissa, v.precision as nat);
    let p = v.precision as int;
    let body = if p == 0 {
        d
    } else {
        d.subrange(0, d.len() - p) + "."@ + d.subrange(d.len() - p, d.len() as int)
    };
    if v.negative && v.mantissa > 0 {
        "-"@ + body
    } else {
        body
    }
}

/// The integer a string writes in the way `str::parse::<i64>` reads it: an
/// optional `+` or `-`, then one or more digits, with a value that fits in 64 bits.
pub open spec fn spec_parse_i64(s: Seq<char>) -> Option<i64> {
    let negative = s.len() > 0 && s[0] == '-';
    let signed = s.len() > 0 && (s[0] == '-' || s[0] == '+');
    let body = if signed {
        s.drop_first()
    } else {
        s
    };
    let v = if negative {
        -digits_value(body)
    } else {
        digits_value(body)
    };
    if body.len() > 0 && all_digits(body) && i64::MIN <= v <= i64::MAX {
        Some(v as i64)
    } else {
        None
    }
}

proof fn lemma_digits_value_prefix_mono(s: Seq<char>, i: int)
    requires
        all_digits(s),
        0 <= i <= s.len(),
    ensures
        digits_value(s.subrange(0, i)) <= digits_value(s),
    decreases s.len() - i,
{
    if i < s.len() {
        lemma_digits_value_prefix_mono(s, i + 1);
        let t = s.subrange(0, i + 1);
        assert(t.drop_last() =~= s.subrange(0, i));
        lemma_digits_value_nonneg(s.subrange(0, i));
        assert(all_digits(s.subrange(0, i)));
    } else {
        assert(s.subrange(0, i) =~= s);
    }
}

/// Parses a signed 64-bit integer (see [`spec_parse_i64`]).
#[verifier::loop_isolation(false)]
pub fn parse_i64(s: &str) -> (r: Option<i64>)
    ensures
        r == spec_parse_i64(s@),
{
    let n = s.unicode_len();
    if n == 0 {
        return None;
    }
    let first = s.get_char(0);
    let negative = first == '-';
    let signed = first == '-' || first == '+';
    let start: usize = if signed {
        1
    } else {
        0
    };
    let ghost body = if signed {
        s@.drop_first()
    } else {
        s@
    };
    assert(body =~= s@.subrange(start as int, n as int));
    if start == n {
        return None;
    }
    let limit: u64 = if negative {
        9_223_372_036_854_775_808
    } else {
        9_223_372_036_854_775_807
    };
    let mut acc: u64 = 0;
    let mut i: usize = start;
    while i < n
        invariant
            n == s@.len(),
            start <= i <= n,
            body =~= s@.subrange(start as int, n as int),
            all_digits(body.subrange(0, i - start)),
            acc as int == digits_value(body.subrange(0, i - start)),
            acc <= limit,
            limit == (if negative { 9_223_372_036_854_775_808u64 } else { 9_223_372_036_854_775_807u64 }),
        decreases n - i,
    {
        let c = s.get_char(i);
        let ghost k = (i - start) as int;
        assert(body[k] == c);
        if !('0' <= c && c <= '9') {
            assert(!all_digits(body)) by {
                assert(!is_digit(body[k]));
            }
            return None;
        }
        let d = (c as u64) - ('0' as u64);
        proof {
            assert(body.subrange(0, k + 1) =~= body.subrange(0, k).push(c));
            lemma_digits_value_push(body.subrange(0, k), c);
        }
        if acc > (limit - d) / 10 {
            proof {
                assert(all_digits(body.subrange(0, k + 1)));
                assert(digits_value(body.subrange(0, k + 1)) > limit);
                if all_digits(body) {
                    lemma_digits_value_prefix_mono(body, k + 1);
                }
            }
            return None;
        }
        acc = acc * 10 + d;
        i = i + 1;
    }
    assert(body.subrange(0, n - start) =~= body);
    if negative {
        if acc == 9_223_372_036_854_775_808 {
            Some(i64::MIN)
        } else {
            Some(-(acc as i64))
        }
    } else {
        Some(acc as i64)
    }
}

impl DecimalValue {
    /// Returns the text of the value with exactly `precision` fraction digits,
    /// e.g. `0.10` for mantissa 10 at precision 2.
    pub fn to_decimal_string(&self) -> (s: String)
        ensures
            s@ == decimal_text(*self),
    {
        proof {
            reveal_strlit("-");
            reveal_strlit(".");
        }
        let mut digits = String::new();
        push_decimal(&mut digits, self.mantissa);
        let ghost d0 = digits@;
        assert(d0 =~= decimal(self.mantissa as nat));
        let n = digits.unicode_len();
        let p = self.precision as usize;
        let ghost d = padded_digits(self.mantissa, p as nat);
        let mut out = String::new();
        if self.negative && self.mantissa > 0 {
            push_char(&mut out, '-');
        }
        let ghost prefix = out@;
        let pad: usize = if n < p + 1 {
            p + 1 - n
        } else {
            0
        };
        let total: usize = pad + n;
        assert(d.len() == total);
        let mut i: usize = 0;
        while i < total
            invariant
                n == d0.len(),
                d0 == decimal(self.mantissa as nat),
                d == padded_digits(self.mantissa, p as nat),
                p == self.precision as usize,
                total == d.len(),
                pad + n == total,
                total >= p + 1,
                i <= total,
                digits@ == d0,
                out@ == prefix + (if p == 0 || i <= total - p {
                    d.subrange(0, i as int)
                } else {
                    d.subrange(0, total - p) + "."@ + d.subrange(total - p, i as int)
                }),
            decreases total - i,
        {
            proof {
                reveal_strlit(".");
            }
            let ghost before = out@;
            if p > 0 && i == total - p {
                push_char(&mut out, '.');
                assert(out@ =~= before + "."@);
            }
            let ghost mid = out@;
            let c = if i < pad {
                '0'
            } else {
                digits.get_char(i - pad)
            };
            assert(c == d[i as int]) by {
                if i < pad {
                    assert(d == zeros(pad as nat) + d0);
                } else if pad > 0 {
                    assert(d == zeros(pad as nat) + d0);
                } else {
                    assert(d == d0);
                }
            }
            push_char(&mut out, c);
            proof {
                if p == 0 || i + 1 <= total - p {
                    assert(d.subrange(0, i + 1) =~= d.subrange(0, i as int).push(c));
                    assert(out@ =~= prefix + d.subrange(0, i + 1));
                } else if i == total - p {
                    assert(d.subrange(total - p, i + 1) =~= seq![c]);
                    assert(before == prefix + d.subrange(0, total - p));
                    assert(mid == prefix + d.subrange(0, total - p) + "."@);
                    assert(out@ == mid.push(c));
                    assert(out@ =~= prefix + d.subrange(0, total - p) + "."@ + d.subrange(total - p, i + 1));
                } else {
                    assert(d.subrange(total - p, i + 1) =~= d.subrange(total - p, i as int).push(c));
                    assert(out@ =~= prefix + d.subrange(0, total - p) + "."@ + d.subrange(total - p, i + 1));
                }
            }
            i = i + 1;
        }
        proof {
            assert(d.subrange(0, total as int) =~= d);
            if self.negative && self.mantissa > 0 {
                assert(prefix =~= "-"@);
            } else {
                assert(prefix =~= Seq::<char>::empty());
            }
        }
        assert(out@ =~= decimal_text(*self));
        out
    }

    /// Returns true if the value is zero.
    pub fn is_zero(&self) -> (b: bool)
        ensures
            b == (self.mantissa == 0),
    {
        self.mantissa == 0
    }
}

/// The decimal text of a number is made of digits and has that number as its value.
proof fn lemma_decimal_digits(n: nat)
    ensures
        decimal(n).len() >= 1,
        all_digits(decimal(n)),
        digits_value(decimal(n)) == n,
    decreases n,
{
    if n < 10 {
        lemma_digits_value_push(Seq::<char>::empty(), crate::text::digit_char(n));
        assert(seq![crate::text::digit_char(n)] =~= Seq::<char>::empty().push(
            crate::text::digit_char(n),
        ));
    } else {
        lemma_decimal_digits(n / 10);
        let c = crate::text::digit_char(n % 10);
        lemma_digits_value_push(decimal(n / 10), c);
        assert forall|i: int| 0 <= i < decimal(n).len() implies is_digit(#[trigger] decimal(n)[i]) by {
            if i < decimal(n / 10).len() {
                assert(decimal(n)[i] == decimal(n / 10)[i]);
            }
        }
    }
}

/// Leading zeros change neither the value of a digit string nor that it is one.
proof fn lemma_zeros_prefix(k: nat, s: Seq<char>)
    requires
        all_digits(s),
    ensures
        all_digits(zeros(k) + s),
        digits_value(zeros(k) + s) == digits_value(s),
    decreases s.len(),
{
    assert forall|i: int| 0 <= i < (zeros(k) + s).len() implies is_digit(#[trigger] (zeros(k) + s)[i]) by {
        if i >= k {
            assert((zeros(k) + s)[i] == s[i - k]);
        }
    }
    if s.len() == 0 {
        assert(zeros(k) + s =~= zeros(k));
        lemma_zeros_value(k);
    } else {
        lemma_zeros_prefix(k, s.drop_last());
        assert((zeros(k) + s).drop_last() =~= zeros(k) + s.drop_last());
    }
}

/// A string of zeros has the value zero.
proof fn lemma_zeros_value(k: nat)
    ensures
        digits_value(zeros(k)) == 0,
    decreases k,
{
    if k > 0 {
        lemma_zeros_value((k - 1) as nat);
        assert(zeros(k).drop_last() =~= zeros((k - 1) as nat));
    }
}

/// The padded digits of a mantissa are digits worth the mantissa, one more
/// than the precision at least.
proof fn lemma_padded_digits(mantissa: u64, precision: nat)
    ensures
        all_digits(padded_digits(mantissa, precision)),
        digits_value(padded_digits(mantissa, precision)) == mantissa,
        padded_digits(mantissa, precision).len() >= precision + 1,
{
    let d = decimal(mantissa as nat);
    lemma_decimal_digits(mantissa as nat);
    if d.len() < precision + 1 {
        lemma_zeros_prefix((precision + 1 - d.len()) as nat, d);
    }
}

/// Reading back the text of a decimal value gives the value (a negative zero
/// is written without its sign, and so reads back as zero).
pub proof fn decimal_text_round_trip(v: DecimalValue)
    requires
        !(v.negative && v.mantissa == 0),
    ensures
        spec_parse_decimal(decimal_text(v)) == Some(v),
{
    reveal_strlit("-");
    reveal_strlit(".");
    let p = v.precision as int;
    let d = padded_digits(v.mantissa, v.precision as nat);
    lemma_padded_digits(v.mantissa, v.precision as nat);
    let body = if p == 0 {
        d
    } else {
        d.subrange(0, d.len() - p) + "."@ + d.subrange(d.len() - p, d.len() as int)
    };
    let s = decimal_text(v);
    assert(is_digit(d[0]));
    assert(is_digit(body[0]));
    if v.negative {
        assert(s =~= seq!['-'] + body);
        assert(s.drop_first() =~= body);
    }
    if p == 0 {
        assert forall|j: int| 0 <= j < body.len() implies body[j] != '.' by {
            assert(is_digit(body[j]));
        }
        crate::text::lemma_first_index_of_unique(body, '.', body.len() as int);
        assert(body.subrange(0, body.len() as int) =~= d);
        assert(d + Seq::<char>::empty() =~= d);
    } else {
        let a = d.subrange(0, d.len() - p);
        let b = d.subrange(d.len() - p, d.len() as int);
        assert(body[a.len() as int] == '.');
        assert forall|j: int| 0 <= j < a.len() implies body[j] != '.' by {
            assert(body[j] == d[j]);
            assert(is_digit(d[j]));
        }
        crate::text::lemma_first_index_of_unique(body, '.', a.len() as int);
        assert(body.subrange(0, a.len() as int) =~= a);
        assert(body.subrange(a.len() + 1int, body.len() as int) =~= b);
        assert(a + b =~= d);
        assert(all_digits(a)) by {
            assert forall|j: int| 0 <= j < a.len() implies is_digit(#[trigger] a[j]) by {
                assert(a[j] == d[j]);
            }
        }
        assert(all_digits(b)) by {
            assert forall|j: int| 0 <= j < b.len() implies is_digit(#[trigger] b[j]) by {
                assert(b[j] == d[d.len() - p + j]);
            }
        }
    }
}

} // verus!
