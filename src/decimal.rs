//! Fixed-point decimal numbers: the speeds, accelerations, locations and
//! readings that the devices keep and report, counted in billionths.

use vstd::prelude::*;
use crate::text::{
    digit_value, is_digit, nat_text, padded_text, push_nat, push_padded, trim_zeros,
};

verus! {

/// Billionths in one whole unit.
pub const UNIT: u64 = 1_000_000_000;

/// The largest whole part whose value in billionths still fits in an `i64`.
pub const MAX_WHOLE: u64 = 9_223_372_036;

/// Number of fraction digits that a numeral may carry.
pub const FRACTION_DIGITS: u64 = 9;

/// A signed decimal number with nine fraction digits, held as a count of
/// billionths.
#[derive(Clone, Copy, Debug, PartialEq, Eq, Structural)]
pub struct Decimal {
    pub billionths: i64,
}

/// Ten to the power `k`.
pub open spec fn pow10(k: nat) -> int
    decreases k,
{
    if k == 0 {
        1
    } else {
        10 * pow10((k - 1) as nat)
    }
}

/// Every character of `s` is a decimal digit.
pub open spec fn all_digits(s: Seq<char>) -> bool {
    forall|i: int| 0 <= i < s.len() ==> is_digit(#[trigger] s[i])
}

/// The value of a run of digits, most significant first (zero when empty).
pub open spec fn digits_value(s: Seq<char>) -> int
    decreases s.len(),
{
    if s.len() == 0 {
        0
    } else {
        digits_value(s.drop_last()) * 10 + digit_value(s.last())
    }
}

/// `s` is digits, a point at `p`, then digits.
pub open spec fn has_point_at(s: Seq<char>, p: int) -> bool {
    &&& 0 <= p < s.len()
    &&& s[p] == '.'
    &&& all_digits(s.take(p))
    &&& all_digits(s.skip(p + 1))
}

/// The magnitude in billionths of an unsigned numeral: one or more digits,
/// or digits with a point among them and at most nine digits after it, with at
/// least one digit in all.
pub open spec fn unsigned_amount(s: Seq<char>) -> Option<int> {
    if s.len() > 0 && all_digits(s) {
        Some(digits_value(s) * UNIT)
    } else if exists|p: int| has_point_at(s, p) {
        let p = choose|p: int| has_point_at(s, p);
        let k = s.len() - p - 1;
        if s.len() >= 2 && k <= FRACTION_DIGITS {
            Some(digits_value(s.take(p)) * UNIT + digits_value(s.skip(p + 1)) * pow10(
                (FRACTION_DIGITS - k) as nat,
            ))
        } else {
            None
        }
    } else {
        None
    }
}

/// The value in billionths of a numeral with an optional `+` or `-` sign.
pub open spec fn signed_amount(s: Seq<char>) -> Option<int> {
    if s.len() > 0 && s[0] == '-' {
        match unsigned_amount(s.skip(1)) {
            Some(m) => Some(-m),
            None => None,
        }
    } else if s.len() > 0 && s[0] == '+' {
        unsigned_amount(s.skip(1))
    } else {
        unsigned_amount(s)
    }
}

/// The value in billionths that numeral `s` denotes, when `s` is a numeral
/// whose magnitude fits in an `i64`.
pub open spec fn numeral_value(s: Seq<char>) -> Option<int> {
    match signed_amount(s) {
        Some(v) => if -(i64::MAX as int) <= v <= i64::MAX { Some(v) } else { None },
        None => None,
    }
}

/// The text of a value in billionths: a `-` for negatives, the whole part, and
/// where the fraction is not zero a point and its digits without trailing zeros.
pub open spec fn decimal_text(v: int) -> Seq<char> {
    let m = if v < 0 { -v } else { v };
    let whole = m / (UNIT as int);
    let frac = m % (UNIT as int);
    let sign = if v < 0 { seq!['-'] } else { Seq::<char>::empty() };
    let tail = if frac == 0 {
        Seq::<char>::empty()
    } else {
        seq!['.'] + trim_zeros(padded_text(frac as nat, FRACTION_DIGITS as nat))
    };
    sign + nat_text(whole as nat) + tail
}

proof fn lemma_digits_step(s: Seq<char>, i: int)
    requires
        0 <= i < s.len(),
    ensures
        digits_value(s.take(i + 1)) == digits_value(s.take(i)) * 10 + digit_value(s[i]),
{
    assert(s.take(i + 1).drop_last() =~= s.take(i));
}

proof fn lemma_digits_step_range(s: Seq<char>, a: int, i: int)
    requires
        0 <= a <= i < s.len(),
    ensures
        digits_value(s.subrange(a, i + 1)) == digits_value(s.subrange(a, i)) * 10 + digit_value(
            s[i],
        ),
{
    assert(s.subrange(a, i + 1).drop_last() =~= s.subrange(a, i));
}

proof fn lemma_pow10_bounds(k: nat)
    requires
        k <= FRACTION_DIGITS,
    ensures
        1 <= pow10(k) <= UNIT,
        k == FRACTION_DIGITS ==> pow10(k) == UNIT,
    decreases FRACTION_DIGITS - k,
{
    if k < FRACTION_DIGITS {
        lemma_pow10_bounds(k + 1);
    } else {
        reveal_with_fuel(pow10, 10);
    }
}

/// Where `s` holds only digits before `p` and no digit at `p`, a point can
/// stand at `p` alone.
proof fn lemma_point_at_most(s: Seq<char>, p: int)
    requires
        0 <= p < s.len(),
        all_digits(s.take(p)),
        !is_digit(s[p]),
    ensures
        forall|q: int| has_point_at(s, q) ==> q == p,
{
    assert forall|q: int| has_point_at(s, q) implies q == p by {
        if q < p {
            assert(s.take(p)[q] == s[q]);
        } else if q > p {
            assert(s.take(q)[p] == s[p]);
        }
    }
}

spec fn k0_spec(n: usize, p: usize) -> nat {
    (FRACTION_DIGITS - (n - (p + 1))) as nat
}

/// Reads an unsigned numeral; `None` when `t` is none or its magnitude does
/// not fit in an `i64`.
fn parse_unsigned(t: &str) -> (r: Option<u64>)
    ensures
        match r {
            Some(m) => unsigned_amount(t@) == Some(m as int) && m <= i64::MAX,
            None => match unsigned_amount(t@) {
                Some(m) => m > i64::MAX,
                None => true,
            },
        },
{
    let n = t.unicode_len();
    let mut i: usize = 0;
    let mut whole: u64 = 0;
    while i < n && is_digit_char(t.get_char(i))
        invariant
            n == t@.len(),
            i <= n,
            all_digits(t@.take(i as int)),
            whole <= 10 * MAX_WHOLE + 9,
            whole == digits_value(t@.take(i as int)) || (whole > MAX_WHOLE && digits_value(
                t@.take(i as int),
            ) > MAX_WHOLE),
        decreases n - i,
    {
        let c = t.get_char(i);
        proof {
            lemma_digits_step(t@, i as int);
            assert forall|j: int| 0 <= j < i + 1 implies is_digit(#[trigger] t@.take(i + 1)[j]) by {
                if j < i {
                    assert(t@.take(i + 1)[j] == t@.take(i as int)[j]);
                }
            }
        }
        if whole <= MAX_WHOLE {
            whole = whole * 10 + ((c as u32 - '0' as u32) as u64);
        }
        i = i + 1;
    }
    if i == n {
        assert(t@.take(i as int) =~= t@);
        if n == 0 || whole > MAX_WHOLE {
            return None;
        }
        return Some(whole * UNIT);
    }
    let p = i;
    let c = t.get_char(p);
    assert(!all_digits(t@) && !is_digit(t@[p as int]));
    proof {
        lemma_point_at_most(t@, p as int);
    }
    if c != '.' {
        return None;
    }
    let mut j: usize = p + 1;
    let mut frac: u64 = 0;
    while j < n
        invariant
            n == t@.len(),
            p < n,
            t@[p as int] == '.',
            !all_digits(t@),
            forall|q: int| has_point_at(t@, q) ==> q == p,
            p + 1 <= j <= n,
            j - (p + 1) <= FRACTION_DIGITS,
            all_digits(t@.subrange(p + 1, j as int)),
            frac == digits_value(t@.subrange(p + 1, j as int)),
            frac < pow10((j - (p + 1)) as nat),
        decreases n - j,
    {
        let c = t.get_char(j);
        if !is_digit_char(c) {
            assert(t@.skip(p + 1)[j - (p + 1)] == c);
            assert(!has_point_at(t@, p as int));
            return None;
        }
        if j - (p + 1) >= FRACTION_DIGITS as usize {
            return None;
        }
        proof {
            lemma_digits_step_range(t@, p + 1, j as int);
            lemma_pow10_bounds((j - (p + 1)) as nat);
            assert forall|k: int| 0 <= k < j + 1 - (p + 1) implies is_digit(
                #[trigger] t@.subrange(p + 1, j + 1)[k],
            ) by {
                if k < j - (p + 1) {
                    assert(t@.subrange(p + 1, j + 1)[k] == t@.subrange(p + 1, j as int)[k]);
                }
            }
        }
        frac = frac * 10 + ((c as u32 - '0' as u32) as u64);
        j = j + 1;
    }
    assert(t@.skip(p + 1) =~= t@.subrange(p + 1, n as int));
    assert(has_point_at(t@, p as int));
    proof {
        lemma_pow10_bounds(k0_spec(n, p));
        assert(frac * pow10(k0_spec(n, p)) >= 0) by (nonlinear_arith)
            requires
                pow10(k0_spec(n, p)) >= 1,
        ;
    }
    if n < 2 || whole > MAX_WHOLE {
        return None;
    }
    assert(whole == digits_value(t@.take(p as int)));
    let k0: u64 = (n - (p + 1)) as u64;
    let mut k: u64 = k0;
    let mut scaled: u64 = frac;
    proof {
        lemma_pow10_bounds(k as nat);
    }
    while k < FRACTION_DIGITS
        invariant
            k0 <= k <= FRACTION_DIGITS,
            scaled == frac * pow10((k - k0) as nat),
            scaled < pow10(k as nat),
        decreases FRACTION_DIGITS - k,
    {
        proof {
            lemma_pow10_bounds(k as nat);
            let m = (k - k0) as nat;
            assert(pow10(m + 1) == 10 * pow10(m));
            assert(frac * pow10(m + 1) == (frac * pow10(m)) * 10) by (nonlinear_arith)
                requires
                    pow10(m + 1) == 10 * pow10(m),
            ;
        }
        scaled = scaled * 10;
        k = k + 1;
    }
    proof {
        lemma_pow10_bounds(FRACTION_DIGITS as nat);
    }
    let amount = whole * UNIT + scaled;
    if amount > i64::MAX as u64 {
        return None;
    }
    Some(amount)
}

/// The value that a parse result carries, if any.
pub open spec fn value_of(r: Option<Decimal>) -> Option<int> {
    match r {
        Some(d) => Some(d.billionths as int),
        None => None,
    }
}

impl Decimal {
    /// A decimal of `billionths` billionths.
    pub fn from_billionths(billionths: i64) -> (r: Decimal)
        ensures
            r.billionths == billionths,
    {
        Decimal { billionths }
    }

    /// Zero.
    pub fn zero() -> (r: Decimal)
        ensures
            r.billionths == 0,
    {
        Decimal { billionths: 0 }
    }

    /// Reads a numeral: an optional sign, digits with at most one point, and
    /// at most nine digits after the point.
    pub fn parse(s: &str) -> (r: Option<Decimal>)
        ensures
            value_of(r) == numeral_value(s@),
    {
        let n = s.unicode_len();
        if n > 0 && (s.get_char(0) == '-' || s.get_char(0) == '+') {
            let negative = s.get_char(0) == '-';
            let t = s.substring_char(1, n);
            assert(t@ =~= s@.skip(1));
            match parse_unsigned(t) {
                Some(m) => {
                    if negative {
                        Some(Decimal { billionths: -(m as i64) })
                    } else {
                        Some(Decimal { billionths: m as i64 })
                    }
                },
                None => None,
            }
        } else {
            match parse_unsigned(s) {
                Some(m) => Some(Decimal { billionths: m as i64 }),
                None => None,
            }
        }
    }

    /// The text of this number, as `decimal_text` gives it.
    pub fn to_text(&self) -> (r: String)
        ensures
            r@ == decimal_text(self.billionths as int),
    {
        proof {
            reveal_strlit("-");
            reveal_strlit(".");
        }
        let v = self.billionths;
        let m: u64 = if v < 0 {
            (0 - (v as i128)) as u64
        } else {
            v as u64
        };
        let whole = m / UNIT;
        let frac = m % UNIT;
        let mut out = String::new();
        if v < 0 {
            out.append("-");
        }
        push_nat(&mut out, whole);
        if frac != 0 {
            out.append(".");
            let mut f: u64 = frac;
            let mut w: u64 = FRACTION_DIGITS;
            proof {
                lemma_pow10_bounds(FRACTION_DIGITS as nat);
            }
            while f % 10 == 0
                invariant
                    0 < f,
                    w <= FRACTION_DIGITS,
                    f < pow10(w as nat),
                    trim_zeros(padded_text(frac as nat, FRACTION_DIGITS as nat)) == trim_zeros(
                        padded_text(f as nat, w as nat),
                    ),
                decreases w,
            {
                assert(w > 0);
                assert(pow10(w as nat) == 10 * pow10((w - 1) as nat));
                assert(padded_text(f as nat, w as nat).drop_last() =~= padded_text(
                    (f / 10) as nat,
                    (w - 1) as nat,
                ));
                f = f / 10;
                w = w - 1;
            }
            assert(w > 0);
            assert(trim_zeros(padded_text(f as nat, w as nat)) == padded_text(f as nat, w as nat));
            push_padded(&mut out, f, w);
        }
        assert(out@ =~= decimal_text(self.billionths as int));
        out
    }
}

fn is_digit_char(c: char) -> (r: bool)
    ensures
        r == is_digit(c),
{
    '0' <= c && c <= '9'
}

} // verus!
