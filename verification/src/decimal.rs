//! Fixed-point amounts: prices and quantities held as whole numbers of
//! hundred-millionths, read from decimal text (with or without an exponent)
//! and printed as plain decimal text.

use vstd::prelude::*;
use crate::text::chars_of;

verus! {

/// Number of hundred-millionth units in one whole unit.
pub const UNITS_PER_WHOLE: u64 = 100_000_000;


pub open spec fn pow10(k: nat) -> nat
    decreases k,
{
    if k == 0 {
        1
    } else {
        10 * pow10((k - 1) as nat)
    }
}

pub open spec fn is_digit(c: char) -> bool {
    '0' <= c && c <= '9'
}

pub open spec fn digit_value(c: char) -> nat {
    (c as int - 48) as nat
}

pub open spec fn digit_char(d: nat) -> char {
    (d + 48) as char
}

pub open spec fn all_digits(s: Seq<char>) -> bool {
    forall|i: int| 0 <= i < s.len() ==> is_digit(#[trigger] s[i])
}

/// The number written by the decimal digits `s`, most significant first.
pub open spec fn digits_value(s: Seq<char>) -> nat
    decreases s.len(),
{
    if s.len() == 0 {
        0
    } else {
        digits_value(s.drop_last()) * 10 + digit_value(s.last())
    }
}

/// `c` marks a decimal point (`dot`) or an exponent (`e` or `E`).
pub open spec fn is_mark(dot: bool, c: char) -> bool {
    if dot {
        c == '.'
    } else {
        c == 'e' || c == 'E'
    }
}

/// Position of the first mark in `s`, or its length when there is none.
pub open spec fn mark_index(s: Seq<char>, dot: bool) -> nat
    decreases s.len(),
{
    if s.len() == 0 {
        0
    } else if is_mark(dot, s[0]) {
        0
    } else {
        1 + mark_index(s.drop_first(), dot)
    }
}

pub open spec fn is_sign(c: char) -> bool {
    c == '+' || c == '-'
}

/// The length of a leading sign: 1 or 0.
pub open spec fn sign_len(s: Seq<char>) -> nat {
    if s.len() > 0 && is_sign(s[0]) {
        1
    } else {
        0
    }
}

pub open spec fn is_negative(s: Seq<char>) -> bool {
    s.len() > 0 && s[0] == '-'
}

/// The text without its leading sign.
pub open spec fn unsigned_body(s: Seq<char>) -> Seq<char> {
    s.skip(sign_len(s) as int)
}

/// The digits and point before the exponent.
pub open spec fn mantissa(s: Seq<char>) -> Seq<char> {
    let b = unsigned_body(s);
    b.take(mark_index(b, false) as int)
}

pub open spec fn has_exponent(s: Seq<char>) -> bool {
    let b = unsigned_body(s);
    mark_index(b, false) < b.len()
}

/// What follows the exponent mark (empty when there is none).
pub open spec fn exponent_part(s: Seq<char>) -> Seq<char> {
    let b = unsigned_body(s);
    if has_exponent(s) {
        b.skip(mark_index(b, false) as int + 1)
    } else {
        Seq::empty()
    }
}

/// The exponent's digits, without their sign.
pub open spec fn exponent_digits(s: Seq<char>) -> Seq<char> {
    let e = exponent_part(s);
    e.skip(sign_len(e) as int)
}

/// The power of ten that the exponent writes (zero without an exponent).
pub open spec fn exponent_value(s: Seq<char>) -> int {
    if is_negative(exponent_part(s)) {
        -(digits_value(exponent_digits(s)) as int)
    } else {
        digits_value(exponent_digits(s)) as int
    }
}

/// The digits before the decimal point.
pub open spec fn whole_part(s: Seq<char>) -> Seq<char> {
    let m = mantissa(s);
    m.take(mark_index(m, true) as int)
}

/// The digits after the decimal point (empty when there is no point).
pub open spec fn fraction_part(s: Seq<char>) -> Seq<char> {
    let m = mantissa(s);
    let d = mark_index(m, true);
    if d < m.len() {
        m.skip(d as int + 1)
    } else {
        Seq::empty()
    }
}

/// The first `w` digits of `f` as a number, missing digits read as zero.
pub open spec fn fraction_units(f: Seq<char>, w: nat) -> nat
    decreases w,
{
    if w == 0 {
        0
    } else {
        let k = (w - 1) as nat;
        fraction_units(f, k) * 10 + if k < f.len() {
            digit_value(f[k as int])
        } else {
            0
        }
    }
}

/// `s` is a number in the form that `f64`'s `from_str` reads, other than
/// the words `inf`, `infinity` and `nan`: an optional sign, digits with an
/// optional decimal point and at least one digit, and an optional exponent
/// (`e` or `E`, an optional sign, at least one digit).
pub open spec fn is_number(s: Seq<char>) -> bool {
    &&& all_digits(whole_part(s))
    &&& all_digits(fraction_part(s))
    &&& whole_part(s).len() + fraction_part(s).len() > 0
    &&& has_exponent(s) ==> exponent_digits(s).len() > 0 && all_digits(exponent_digits(s))
}

/// All the digits of the number, point removed.
pub open spec fn significand(s: Seq<char>) -> Seq<char> {
    whole_part(s) + fraction_part(s)
}

/// How many digits of the significand reach down to the hundred-millionths.
pub open spec fn scale_position(s: Seq<char>) -> int {
    whole_part(s).len() + 8 + exponent_value(s)
}

pub open spec fn all_zeros(d: Seq<char>) -> bool {
    forall|i: int| 0 <= i < d.len() ==> d[i] == '0'
}

/// The magnitude of the number in hundred-millionths; digits below the
/// hundred-millionths are dropped.
pub open spec fn decimal_units(s: Seq<char>) -> nat {
    let m = scale_position(s);
    if m <= 0 {
        0
    } else {
        fraction_units(significand(s), m as nat)
    }
}

/// The amount that `parse_units` reads from `s`, in hundred-millionths.
/// `None` for text that is not a number, and for numbers that an amount
/// cannot hold: negative ones other than zero (`-0` reads as zero), the
/// words `inf`, `infinity` and `nan`, and amounts above `u64::MAX`
/// hundred-millionths. Digits below the hundred-millionths are dropped.
pub open spec fn units_of_text(s: Seq<char>) -> Option<u64> {
    if !is_number(s) {
        None
    } else if is_negative(s) {
        if all_zeros(significand(s)) {
            Some(0)
        } else {
            None
        }
    } else if decimal_units(s) <= u64::MAX {
        Some(decimal_units(s) as u64)
    } else {
        None
    }
}
/// The decimal digits of `n`, without leading zeros.
pub open spec fn nat_text(n: nat) -> Seq<char>
    decreases n,
{
    if n < 10 {
        seq![digit_char(n)]
    } else {
        nat_text(n / 10).push(digit_char(n % 10))
    }
}

/// The last `w` decimal digits of `n`, left-padded with zeros.
pub open spec fn padded_text(n: nat, w: nat) -> Seq<char>
    decreases w,
{
    if w == 0 {
        Seq::empty()
    } else {
        padded_text(n / 10, (w - 1) as nat).push(digit_char(n % 10))
    }
}

/// A signed integer in decimal, with a leading `-` when negative.
pub open spec fn int_text(i: int) -> Seq<char> {
    if i < 0 {
        seq!['-'] + nat_text((-i) as nat)
    } else {
        nat_text(i as nat)
    }
}

pub open spec fn strip_trailing_zeros(s: Seq<char>) -> Seq<char>
    decreases s.len(),
{
    if s.len() > 0 && s.last() == '0' {
        strip_trailing_zeros(s.drop_last())
    } else {
        s
    }
}

/// The shortest plain decimal text of an amount: the whole part, then a
/// point and the fractional digits without trailing zeros when there are any.
pub open spec fn amount_text(u: nat) -> Seq<char> {
    let whole = u / 100_000_000;
    let frac = u % 100_000_000;
    if frac == 0 {
        nat_text(whole)
    } else {
        nat_text(whole) + seq!['.'] + strip_trailing_zeros(padded_text(frac, 8))
    }
}

/// An amount rounded to ten-millionths (seven decimals), halves rounded up,
/// counted in ten-millionths.
pub open spec fn seven_decimal_units(u: nat) -> nat {
    u / 10 + if u % 10 >= 5 {
        1nat
    } else {
        0nat
    }
}

/// An amount printed with exactly seven decimals.
pub open spec fn seven_decimal_text(u: nat) -> Seq<char> {
    let r = seven_decimal_units(u);
    nat_text(r / 10_000_000) + seq!['.'] + padded_text(r % 10_000_000, 7)
}

// ---------------------------------------------------------------------------
// Lemmas
// ---------------------------------------------------------------------------

// ---------------------------------------------------------------------------
// Executable functions
// ---------------------------------------------------------------------------

fn digit_of(c: char) -> (d: u64)
    requires
        is_digit(c),
    ensures
        d == digit_value(c),
        d < 10,
{
    (c as u32 - 48) as u64
}

fn char_of_digit(d: u64) -> (c: char)
    requires
        d < 10,
    ensures
        c == digit_char(d as nat),
{
    ((d as u8) + 48) as char
}

// Reading amounts -----------------------------------------------------------

proof fn lemma_mark_index(b: Seq<char>, dot: bool, k: nat)
    requires
        k <= b.len(),
        forall|j: int| 0 <= j < k ==> !is_mark(dot, #[trigger] b[j]),
        k == b.len() || is_mark(dot, b[k as int]),
    ensures
        mark_index(b, dot) == k,
    decreases k,
{
    if k > 0 {
        assert forall|j: int| 0 <= j < k - 1 implies !is_mark(dot, #[trigger] b.drop_first()[j]) by {
            assert(b.drop_first()[j] == b[j + 1]);
        }
        lemma_mark_index(b.drop_first(), dot, (k - 1) as nat);
    }
}

proof fn lemma_digits_value_step(s: Seq<char>, k: int)
    requires
        0 <= k < s.len(),
    ensures
        digits_value(s.take(k + 1)) == digits_value(s.take(k)) * 10 + digit_value(s[k]),
{
    assert(s.take(k + 1).drop_last() =~= s.take(k));
}

proof fn lemma_fu_monotone(d: Seq<char>, j: nat, m: nat)
    requires
        j <= m,
    ensures
        fraction_units(d, j) <= fraction_units(d, m),
    decreases m,
{
    if j < m {
        lemma_fu_monotone(d, j, (m - 1) as nat);
    }
}

proof fn lemma_fu_zero_tail(d: Seq<char>, k: nat, m: nat)
    requires
        d.len() <= k <= m,
        fraction_units(d, k) == 0,
    ensures
        fraction_units(d, m) == 0,
    decreases m,
{
    if k < m {
        lemma_fu_zero_tail(d, k, (m - 1) as nat);
    }
}

proof fn lemma_fu_all_zeros(d: Seq<char>, m: nat)
    requires
        all_zeros(d),
    ensures
        fraction_units(d, m) == 0,
    decreases m,
{
    if m > 0 {
        lemma_fu_all_zeros(d, (m - 1) as nat);
        if m - 1 < d.len() {
            assert(d[m - 1] == '0');
        }
    }
}

proof fn lemma_fu_grows(d: Seq<char>, j: nat, t: nat)
    requires
        fraction_units(d, j) >= 1,
    ensures
        fraction_units(d, j + t) >= pow10(t),
    decreases t,
{
    if t > 0 {
        lemma_fu_grows(d, j, (t - 1) as nat);
        assert(fraction_units(d, j + t) >= 10 * fraction_units(d, (j + t - 1) as nat));
    }
}

proof fn lemma_pow10_large(t: nat)
    requires
        t >= 20,
    ensures
        pow10(t) > u64::MAX,
    decreases t,
{
    if t == 20 {
        reveal_with_fuel(pow10, 21);
    } else {
        lemma_pow10_large((t - 1) as nat);
    }
}

proof fn lemma_fu_concat(a: Seq<char>, b: Seq<char>, j: nat)
    ensures
        fraction_units(a + b, a.len() + j) == digits_value(a) * pow10(j) + fraction_units(b, j),
    decreases j,
{
    if j == 0 {
        lemma_fraction_units_is_prefix_value(a + b, a.len());
        assert((a + b).take(a.len() as int) =~= a);
    } else {
        let k = (j - 1) as nat;
        lemma_fu_concat(a, b, k);
        let x = digits_value(a);
        let p = pow10(k);
        let y = fraction_units(b, k);
        assert((x * p + y) * 10 == x * (10 * p) + y * 10) by (nonlinear_arith);
        let dig: nat = if k < b.len() {
            digit_value(b[k as int])
        } else {
            0
        };
        if k < b.len() {
            assert((a + b)[a.len() + k as int] == b[k as int]);
        }
        assert(fraction_units(a + b, a.len() + j) == fraction_units(a + b, a.len() + k) * 10 + dig);
        assert(fraction_units(b, j) == y * 10 + dig);
        assert(pow10(j) == 10 * p);
    }
}

fn is_mark_char(dot: bool, c: char) -> (b: bool)
    ensures
        b == is_mark(dot, c),
{
    if dot {
        c == '.'
    } else {
        c == 'e' || c == 'E'
    }
}

/// The position of the first mark in `v[from..to]`, or `to`.
fn find_mark(v: &Vec<char>, from: usize, to: usize, dot: bool) -> (k: usize)
    requires
        from <= to <= v@.len(),
    ensures
        from <= k <= to,
        k - from == mark_index(v@.subrange(from as int, to as int), dot),
        k < to ==> is_mark(dot, v@[k as int]),
{
    let mut k = from;
    while k < to && !is_mark_char(dot, v[k])
        invariant
            from <= k <= to,
            to <= v@.len(),
            forall|j: int| from <= j < k ==> !is_mark(dot, #[trigger] v@[j]),
        decreases to - k,
    {
        k = k + 1;
    }
    proof {
        let b = v@.subrange(from as int, to as int);
        assert forall|j: int| 0 <= j < k - from implies !is_mark(dot, #[trigger] b[j]) by {
            assert(b[j] == v@[from + j]);
        }
        if k < to {
            assert(b[k - from] == v@[k as int]);
        }
        lemma_mark_index(b, dot, (k - from) as nat);
    }
    k
}

/// Whether `v[from..to]` holds digits only.
fn digits_in(v: &Vec<char>, from: usize, to: usize) -> (b: bool)
    requires
        from <= to <= v@.len(),
    ensures
        b == all_digits(v@.subrange(from as int, to as int)),
{
    let mut k = from;
    while k < to
        invariant
            from <= k <= to,
            to <= v@.len(),
            forall|j: int| from <= j < k ==> is_digit(#[trigger] v@[j]),
        decreases to - k,
    {
        if !(v[k] >= '0' && v[k] <= '9') {
            assert(v@.subrange(from as int, to as int)[k - from] == v@[k as int]);
            return false;
        }
        k = k + 1;
    }
    assert forall|j: int| 0 <= j < to - from implies is_digit(
        #[trigger] v@.subrange(from as int, to as int)[j],
    ) by {
        assert(v@.subrange(from as int, to as int)[j] == v@[from + j]);
    }
    true
}

/// Exponents above this bound give the same outcome as any larger one.
pub const EXPONENT_CAP: u128 = 1_267_650_600_228_229_401_496_703_205_376;

/// The value of the digits `v[from..to]`, or `None` past `EXPONENT_CAP`.
fn capped_digits_value(v: &Vec<char>, from: usize, to: usize) -> (r: Option<u128>)
    requires
        from <= to <= v@.len(),
        all_digits(v@.subrange(from as int, to as int)),
    ensures
        match r {
            Some(x) => x == digits_value(v@.subrange(from as int, to as int)) && x <= EXPONENT_CAP,
            None => digits_value(v@.subrange(from as int, to as int)) > EXPONENT_CAP,
        },
{
    let ghost sub = v@.subrange(from as int, to as int);
    let mut acc: u128 = 0;
    let mut over = false;
    let mut k = from;
    while k < to
        invariant
            from <= k <= to,
            to <= v@.len(),
            sub == v@.subrange(from as int, to as int),
            all_digits(sub),
            !over ==> acc == digits_value(sub.take(k - from)) && acc <= EXPONENT_CAP,
            over ==> digits_value(sub.take(k - from)) > EXPONENT_CAP,
        decreases to - k,
    {
        proof {
            lemma_digits_value_step(sub, k - from);
            assert(sub[k - from] == v@[k as int]);
            assert(is_digit(sub[k - from]));
        }
        if !over {
            let next = acc * 10 + digit_of(v[k]) as u128;
            if next > EXPONENT_CAP {
                over = true;
            } else {
                acc = next;
            }
        }
        k = k + 1;
    }
    assert(sub.take(to - from) =~= sub);
    if over {
        None
    } else {
        Some(acc)
    }
}

/// `v[a..b]` followed by `v[c..e]`.
fn join_ranges(v: &Vec<char>, a: usize, b: usize, c: usize, e: usize) -> (d: Vec<char>)
    requires
        a <= b <= v@.len(),
        c <= e <= v@.len(),
    ensures
        d@ == v@.subrange(a as int, b as int) + v@.subrange(c as int, e as int),
{
    let mut d: Vec<char> = Vec::new();
    let mut k = a;
    while k < b
        invariant
            a <= k <= b,
            b <= v@.len(),
            d@ == v@.subrange(a as int, k as int),
        decreases b - k,
    {
        d.push(v[k]);
        assert(v@.subrange(a as int, k + 1) =~= v@.subrange(a as int, k as int).push(v@[k as int]));
        k = k + 1;
    }
    let mut k = c;
    while k < e
        invariant
            c <= k <= e,
            e <= v@.len(),
            d@ == v@.subrange(a as int, b as int) + v@.subrange(c as int, k as int),
        decreases e - k,
    {
        d.push(v[k]);
        assert(v@.subrange(c as int, k + 1) =~= v@.subrange(c as int, k as int).push(v@[k as int]));
        assert(v@.subrange(a as int, b as int) + v@.subrange(c as int, k + 1) =~= (v@.subrange(
            a as int,
            b as int,
        ) + v@.subrange(c as int, k as int)).push(v@[k as int]));
        k = k + 1;
    }
    d
}

/// Whether some digit of `d` is not zero.
fn has_nonzero(d: &Vec<char>) -> (b: bool)
    ensures
        b == !all_zeros(d@),
{
    let mut k: usize = 0;
    while k < d.len()
        invariant
            k <= d@.len(),
            forall|j: int| 0 <= j < k ==> d@[j] == '0',
        decreases d@.len() - k,
    {
        if d[k] != '0' {
            return true;
        }
        k = k + 1;
    }
    false
}

/// The first `m` digits of `d` as a number (missing digits read as zero),
/// or `None` when that exceeds `u64::MAX`.
fn leading_digits_value(d: &Vec<char>, m: u128) -> (r: Option<u64>)
    requires
        all_digits(d@),
    ensures
        r == if fraction_units(d@, m as nat) <= u64::MAX {
            Some(fraction_units(d@, m as nat) as u64)
        } else {
            None
        },
{
    let mut acc: u64 = 0;
    let mut k: u128 = 0;
    while k < m
        invariant
            k <= m,
            all_digits(d@),
            acc == fraction_units(d@, k as nat),
        decreases m - k,
    {
        if k >= d.len() as u128 && acc == 0 {
            proof {
                lemma_fu_zero_tail(d@, k as nat, m as nat);
            }
            return Some(0);
        }
        let dig: u64 = if k < d.len() as u128 {
            assert(is_digit(d@[k as int]));
            digit_of(d[k as usize])
        } else {
            0
        };
        match acc.checked_mul(10) {
            Some(x) => match x.checked_add(dig) {
                Some(y) => {
                    acc = y;
                },
                None => {
                    proof {
                        lemma_fu_monotone(d@, (k + 1) as nat, m as nat);
                    }
                    return None;
                },
            },
            None => {
                proof {
                    lemma_fu_monotone(d@, (k + 1) as nat, m as nat);
                }
                return None;
            },
        }
        k = k + 1;
    }
    Some(acc)
}

/// The magnitude in hundred-millionths of a number with significand `d`,
/// `whole_len` digits before the point and exponent `exponent`, whose
/// absolute value is `magnitude` unless that exceeds `EXPONENT_CAP`.
fn scaled_amount(d: &Vec<char>, whole_len: usize, exp_neg: bool, magnitude: Option<u128>, Ghost(exponent): Ghost<int>) -> (r: Option<u64>)
    requires
        all_digits(d@),
        whole_len <= d@.len(),
        d@.len() <= usize::MAX,
        magnitude matches Some(e) ==> e <= EXPONENT_CAP,
        match magnitude {
            Some(e) => exponent == if exp_neg {
                -(e as int)
            } else {
                e as int
            },
            None => if exp_neg {
                exponent < -(EXPONENT_CAP as int)
            } else {
                exponent > EXPONENT_CAP as int
            },
        },
    ensures
        ({
            let m = whole_len + 8 + exponent;
            let units = if m <= 0 {
                0
            } else {
                fraction_units(d@, m as nat)
            };
            r == if units <= u64::MAX {
                Some(units as u64)
            } else {
                None
            }
        }),
{
    let ghost m = whole_len + 8 + exponent;
    match magnitude {
        None => {
            if exp_neg {
                Some(0)
            } else if has_nonzero(d) {
                proof {
                    let p = choose|p: int| 0 <= p < d@.len() && d@[p] != '0';
                    assert(is_digit(d@[p]));
                    assert(fraction_units(d@, (p + 1) as nat) >= 1);
                    let t = (m - p - 1) as nat;
                    lemma_fu_grows(d@, (p + 1) as nat, t);
                    lemma_pow10_large(t);
                    assert((p + 1) as nat + t == m as nat);
                }
                None
            } else {
                proof {
                    lemma_fu_all_zeros(d@, m as nat);
                }
                Some(0)
            }
        },
        Some(e) => {
            let mm: i128 = whole_len as i128 + 8 + if exp_neg {
                -(e as i128)
            } else {
                e as i128
            };
            if mm <= 0 {
                Some(0)
            } else {
                leading_digits_value(d, mm as u128)
            }
        },
    }
}

/// Reads the exponent that follows the mark at `epos` (nothing when `epos`
/// is the end): its sign and its magnitude, capped as by
/// `capped_digits_value`; `None` when the exponent has no digits or holds
/// something else.
fn read_exponent(v: &Vec<char>, epos: usize) -> (r: Option<(bool, Option<u128>)>)
    requires
        epos <= v@.len(),
        epos == v@.len() || is_mark(false, v@[epos as int]),
    ensures
        ({
            let e = if epos < v@.len() {
                v@.subrange(epos + 1, v@.len() as int)
            } else {
                Seq::<char>::empty()
            };
            let digits = e.skip(sign_len(e) as int);
            let value = if is_negative(e) {
                -(digits_value(digits) as int)
            } else {
                digits_value(digits) as int
            };
            match r {
                None => epos < v@.len() && !(digits.len() > 0 && all_digits(digits)),
                Some((neg, magnitude)) => {
                    &&& (epos < v@.len() ==> digits.len() > 0 && all_digits(digits))
                    &&& neg == is_negative(e)
                    &&& magnitude matches Some(x) ==> x <= EXPONENT_CAP
                    &&& match magnitude {
                        Some(x) => value == if neg {
                            -(x as int)
                        } else {
                            x as int
                        },
                        None => if neg {
                            value < -(EXPONENT_CAP as int)
                        } else {
                            value > EXPONENT_CAP as int
                        },
                    }
                },
            }
        }),
{
    let n = v.len();
    if epos == n {
        assert(Seq::<char>::empty().skip(0) =~= Seq::<char>::empty());
        return Some((false, Some(0)));
    }
    let ghost e = v@.subrange(epos + 1, n as int);
    let mut k0 = epos + 1;
    let mut neg = false;
    if k0 < n && (v[k0] == '+' || v[k0] == '-') {
        neg = v[k0] == '-';
        k0 = k0 + 1;
    }
    assert(e.skip(sign_len(e) as int) =~= v@.subrange(k0 as int, n as int));
    if k0 == n || !digits_in(v, k0, n) {
        return None;
    }
    Some((neg, capped_digits_value(v, k0, n)))
}

/// Reads an amount in hundred-millionths (see `units_of_text`).
#[verifier::rlimit(40)]
pub fn parse_units(s: &str) -> (r: Option<u64>)
    ensures
        r == units_of_text(s@),
{
    let v = chars_of(s);
    let n = v.len();
    let ghost sv = s@;
    let mut start: usize = 0;
    let mut neg = false;
    if n > 0 && (v[0] == '+' || v[0] == '-') {
        start = 1;
        neg = v[0] == '-';
    }
    assert(start == sign_len(sv));
    assert(neg == is_negative(sv));
    assert(unsigned_body(sv) =~= sv.subrange(start as int, n as int));
    let epos = find_mark(&v, start, n, false);
    assert(mantissa(sv) =~= sv.subrange(start as int, epos as int));
    let dpos = find_mark(&v, start, epos, true);
    assert(whole_part(sv) =~= sv.subrange(start as int, dpos as int));
    let fstart = if dpos < epos {
        dpos + 1
    } else {
        epos
    };
    assert(fraction_part(sv) =~= sv.subrange(fstart as int, epos as int));
    if !digits_in(&v, start, dpos) || !digits_in(&v, fstart, epos) {
        return None;
    }
    if dpos == start && fstart == epos {
        return None;
    }
    if epos < n {
        assert(has_exponent(sv));
        assert(exponent_part(sv) =~= sv.subrange(epos + 1, n as int));
    } else {
        assert(!has_exponent(sv));
        assert(exponent_part(sv) =~= Seq::<char>::empty());
    }
    let (exp_neg, magnitude) = match read_exponent(&v, epos) {
        Some(x) => x,
        None => {
            return None;
        },
    };
    assert(is_number(sv));
    let d = join_ranges(&v, start, dpos, fstart, epos);
    assert(d@ == significand(sv));
    let nonzero = has_nonzero(&d);
    if neg {
        return if nonzero {
            None
        } else {
            Some(0)
        };
    }
    scaled_amount(&d, dpos - start, exp_neg, magnitude, Ghost(exponent_value(sv)))
}

/// Appends the decimal digits of `n`.
pub fn push_nat(out: &mut String, n: u64)
    ensures
        final(out)@ == old(out)@ + nat_text(n as nat),
    decreases n,
{
    let ghost before = out@;
    if n >= 10 {
        push_nat(out, n / 10);
    }
    out.push(char_of_digit(n % 10));
    if n >= 10 {
        assert(out@ =~= before + nat_text(n as nat));
    } else {
        assert(out@ =~= before + nat_text(n as nat));
    }
}

/// Appends the last `w` decimal digits of `n`, left-padded with zeros.
pub fn push_padded(out: &mut String, n: u64, w: u64)
    ensures
        final(out)@ == old(out)@ + padded_text(n as nat, w as nat),
    decreases w,
{
    let ghost before = out@;
    if w > 0 {
        push_padded(out, n / 10, w - 1);
        out.push(char_of_digit(n % 10));
        assert(out@ =~= before + padded_text(n as nat, w as nat));
    } else {
        assert(out@ =~= before + padded_text(n as nat, w as nat));
    }
}

/// Appends a signed integer in decimal.
pub fn push_int(out: &mut String, i: i64)
    ensures
        final(out)@ == old(out)@ + int_text(i as int),
{
    let ghost before = out@;
    if i < 0 {
        out.push('-');
        let magnitude: u64 = if i == i64::MIN {
            9_223_372_036_854_775_808u64
        } else {
            (-i) as u64
        };
        push_nat(out, magnitude);
        assert(out@ =~= before + int_text(i as int));
    } else {
        push_nat(out, i as u64);
    }
}

/// The decimal text of a signed integer.
pub fn int_to_text(i: i64) -> (s: String)
    ensures
        s@ == int_text(i as int),
{
    let mut s = String::new();
    push_int(&mut s, i);
    assert(s@ =~= int_text(i as int));
    s
}

proof fn lemma_strip_step(f: nat, w: nat)
    requires
        w > 0,
        f % 10 == 0,
    ensures
        strip_trailing_zeros(padded_text(f, w)) == strip_trailing_zeros(padded_text(f / 10, (w - 1) as nat)),
{
    let p = padded_text(f, w);
    assert(p.last() == '0');
    assert(p.drop_last() =~= padded_text(f / 10, (w - 1) as nat));
}

proof fn lemma_strip_stop(f: nat, w: nat)
    requires
        w > 0,
        f % 10 != 0,
    ensures
        strip_trailing_zeros(padded_text(f, w)) == padded_text(f, w),
{
    let p = padded_text(f, w);
    assert(p.last() == digit_char(f % 10));
}

/// Appends the shortest plain decimal text of an amount.
pub fn push_amount(out: &mut String, units: u64)
    ensures
        final(out)@ == old(out)@ + amount_text(units as nat),
{
    let ghost before = out@;
    let whole = units / UNITS_PER_WHOLE;
    let frac = units % UNITS_PER_WHOLE;
    push_nat(out, whole);
    if frac != 0 {
        out.push('.');
        let mut f = frac;
        let mut w: u64 = 8;
        proof {
            reveal_with_fuel(pow10, 9);
        }
        while f % 10 == 0
            invariant
                0 < f < pow10(w as nat),
                w <= 8,
                strip_trailing_zeros(padded_text(frac as nat, 8)) == strip_trailing_zeros(
                    padded_text(f as nat, w as nat),
                ),
            decreases f,
        {
            if w == 0 {
                assert(false);
            }
            proof {
                lemma_strip_step(f as nat, w as nat);
                assert(pow10(w as nat) == 10 * pow10((w - 1) as nat));
            }
            f = f / 10;
            w = w - 1;
        }
        proof {
            if w == 0 {
                assert(pow10(0) == 1);
            }
            lemma_strip_stop(f as nat, w as nat);
        }
        push_padded(out, f, w);
        assert(out@ =~= before + amount_text(units as nat));
    } else {
        assert(out@ =~= before + amount_text(units as nat));
    }
}

/// The shortest plain decimal text of an amount.
pub fn amount_to_text(units: u64) -> (s: String)
    ensures
        s@ == amount_text(units as nat),
{
    let mut s = String::new();
    push_amount(&mut s, units);
    assert(s@ =~= amount_text(units as nat));
    s
}

/// Appends an amount printed with exactly seven decimals, halves rounded up.
pub fn push_seven_decimals(out: &mut String, units: u64)
    ensures
        final(out)@ == old(out)@ + seven_decimal_text(units as nat),
{
    let ghost before = out@;
    let r: u64 = units / 10 + if units % 10 >= 5 {
        1
    } else {
        0
    };
    push_nat(out, r / 10_000_000);
    out.push('.');
    push_padded(out, r % 10_000_000, 7);
    assert(out@ =~= before + seven_decimal_text(units as nat));
}

/// An amount printed with exactly seven decimals, halves rounded up.
pub fn seven_decimals_to_text(units: u64) -> (s: String)
    ensures
        s@ == seven_decimal_text(units as nat),
{
    let mut s = String::new();
    push_seven_decimals(&mut s, units);
    assert(s@ =~= seven_decimal_text(units as nat));
    s
}


// The printed amount reads back -------------------------------------------

proof fn lemma_nat_text(n: nat)
    ensures
        all_digits(nat_text(n)),
        nat_text(n).len() > 0,
        digits_value(nat_text(n)) == n,
    decreases n,
{
    if n >= 10 {
        lemma_nat_text(n / 10);
        let t = nat_text(n);
        assert(t.drop_last() =~= nat_text(n / 10));
        assert(t.last() == digit_char(n % 10));
        assert(digit_value(digit_char(n % 10)) == n % 10);
        assert(digits_value(t) == digits_value(nat_text(n / 10)) * 10 + n % 10);
        assert forall|i: int| 0 <= i < t.len() implies is_digit(#[trigger] t[i]) by {
            if i < t.len() - 1 {
                assert(t[i] == nat_text(n / 10)[i]);
            }
        }
    } else {
        let t = nat_text(n);
        assert(t.drop_last() =~= Seq::<char>::empty());
        assert(digit_value(digit_char(n)) == n);
        assert(digits_value(t) == digits_value(t.drop_last()) * 10 + digit_value(t.last()));
    }
}

proof fn lemma_padded_text(f: nat, w: nat)
    requires
        f < pow10(w),
    ensures
        all_digits(padded_text(f, w)),
        padded_text(f, w).len() == w,
        digits_value(padded_text(f, w)) == f,
    decreases w,
{
    if w > 0 {
        lemma_padded_text(f / 10, (w - 1) as nat);
        let t = padded_text(f, w);
        assert(t.drop_last() =~= padded_text(f / 10, (w - 1) as nat));
        assert forall|i: int| 0 <= i < t.len() implies is_digit(#[trigger] t[i]) by {
            if i < t.len() - 1 {
                assert(t[i] == padded_text(f / 10, (w - 1) as nat)[i]);
            }
        }
    } else {
        assert(f == 0);
    }
}

proof fn lemma_fraction_units_is_prefix_value(s: Seq<char>, w: nat)
    requires
        w <= s.len(),
    ensures
        fraction_units(s, w) == digits_value(s.take(w as int)),
    decreases w,
{
    if w > 0 {
        lemma_fraction_units_is_prefix_value(s, (w - 1) as nat);
        assert(s.take(w as int).drop_last() =~= s.take(w - 1));
    } else {
        assert(s.take(0) =~= Seq::<char>::empty());
    }
}

proof fn lemma_fraction_units_zero_tail(s: Seq<char>, k: int, w: nat)
    requires
        0 <= k <= s.len(),
        forall|j: int| k <= j < s.len() ==> #[trigger] s[j] == '0',
    ensures
        fraction_units(s.take(k), w) == fraction_units(s, w),
    decreases w,
{
    if w > 0 {
        lemma_fraction_units_zero_tail(s, k, (w - 1) as nat);
        let i = w - 1;
        if i < k {
            assert(s.take(k)[i] == s[i]);
        } else if i < s.len() {
            assert(s[i] == '0');
        }
    }
}

proof fn lemma_strip_is_prefix(s: Seq<char>) -> (k: int)
    ensures
        0 <= k <= s.len(),
        strip_trailing_zeros(s) == s.take(k),
        forall|j: int| k <= j < s.len() ==> #[trigger] s[j] == '0',
    decreases s.len(),
{
    if s.len() > 0 && s.last() == '0' {
        let k = lemma_strip_is_prefix(s.drop_last());
        assert(s.drop_last().take(k) =~= s.take(k));
        assert forall|j: int| k <= j < s.len() implies #[trigger] s[j] == '0' by {
            if j < s.len() - 1 {
                assert(s[j] == s.drop_last()[j]);
            }
        }
        k
    } else {
        assert(s.take(s.len() as int) =~= s);
        s.len() as int
    }
}

proof fn lemma_fraction_units_empty(w: nat)
    ensures
        fraction_units(Seq::empty(), w) == 0,
    decreases w,
{
    if w > 0 {
        lemma_fraction_units_empty((w - 1) as nat);
    }
}

/// The text printed for an amount reads back as the same amount.
pub proof fn law_amount_text_reads_back(u: u64)
    ensures
        units_of_text(amount_text(u as nat)) == Some(u),
{
    reveal_with_fuel(pow10, 9);
    let whole = (u / 100_000_000) as nat;
    let frac = (u % 100_000_000) as nat;
    let wt = nat_text(whole);
    lemma_nat_text(whole);
    let text = amount_text(u as nat);
    let fr = if frac == 0 {
        Seq::<char>::empty()
    } else {
        strip_trailing_zeros(padded_text(frac, 8))
    };
    let padded = padded_text(frac, 8);
    lemma_padded_text(frac, 8);
    let k = lemma_strip_is_prefix(padded);
    assert forall|i: int| 0 <= i < fr.len() implies is_digit(#[trigger] fr[i]) by {
        assert(fr[i] == padded[i]);
    }
    if frac == 0 {
        assert(text == wt);
    } else {
        assert(text == wt + seq!['.'] + fr);
    }
    // The text is digits and at most one point: no sign, no exponent.
    assert forall|j: int| 0 <= j < text.len() implies !is_mark(false, #[trigger] text[j]) && !is_sign(text[j]) by {
        if j < wt.len() {
            assert(text[j] == wt[j]);
            assert(is_digit(wt[j]));
        } else if j > wt.len() {
            assert(text[j] == fr[j - wt.len() - 1]);
            assert(is_digit(fr[j - wt.len() - 1]));
        }
    }
    assert(sign_len(text) == 0);
    assert(unsigned_body(text) =~= text);
    lemma_mark_index(text, false, text.len());
    assert(mantissa(text) =~= text);
    assert(!has_exponent(text));
    assert(exponent_part(text) =~= Seq::<char>::empty());
    assert(exponent_digits(text) =~= Seq::<char>::empty());
    assert(exponent_value(text) == 0);
    assert forall|j: int| 0 <= j < wt.len() implies !is_mark(true, #[trigger] text[j]) by {
        assert(text[j] == wt[j]);
        assert(is_digit(wt[j]));
    }
    if frac != 0 {
        assert(text[wt.len() as int] == '.');
    }
    lemma_mark_index(text, true, wt.len());
    assert(whole_part(text) =~= wt);
    assert(fraction_part(text) =~= fr);
    assert(is_number(text));
    lemma_fu_concat(wt, fr, 8);
    if frac == 0 {
        lemma_fraction_units_empty(8);
    } else {
        lemma_fraction_units_zero_tail(padded, k, 8);
        lemma_fraction_units_is_prefix_value(padded, 8);
        assert(padded.take(8) =~= padded);
    }
    assert(significand(text) == wt + fr);
    assert(scale_position(text) == wt.len() + 8);
    assert(fraction_units(fr, 8) == frac);
    assert(pow10(8) == 100_000_000);
    assert(digits_value(wt) == whole);
    assert(fraction_units(wt + fr, wt.len() + 8) == whole * 100_000_000 + frac);
    assert(decimal_units(text) == u);
}


/// The integer that a decimal text with an optional leading `-` writes.
pub open spec fn int_text_value(t: Seq<char>) -> int {
    if t.len() > 0 && t[0] == '-' {
        -(digits_value(t.drop_first()) as int)
    } else {
        digits_value(t) as int
    }
}

/// A printed integer reads back as the same integer, and is digits after an
/// optional minus sign.
pub proof fn law_int_text_reads_back(i: int)
    ensures
        int_text_value(int_text(i)) == i,
        int_text(i).len() > 0,
        all_digits(if i < 0 {
            int_text(i).drop_first()
        } else {
            int_text(i)
        }),
{
    if i < 0 {
        lemma_nat_text((-i) as nat);
        let t = int_text(i);
        assert(t.drop_first() =~= nat_text((-i) as nat));
    } else {
        lemma_nat_text(i as nat);
        assert(is_digit(nat_text(i as nat)[0]));
    }
}

} // verus!
