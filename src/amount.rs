//! The processor's amount format: major units in decimal, a point, and exactly
//! two fraction digits (`1050` minor units is `"10.50"`).
use vstd::prelude::*;
use crate::text::chars_of;
use crate::types::ConnectorError;

verus! {

/// The largest number of major units whose amount in minor units fits in `i64`.
pub const MAX_MAJOR: u64 = 92233720368547758;

pub open spec fn digit_char(d: int) -> char {
    (d + 48) as char
}

pub open spec fn is_digit(c: char) -> bool {
    '0' <= c && c <= '9'
}

pub open spec fn digit_value(c: char) -> int {
    c as int - 48
}

pub open spec fn all_digits(s: Seq<char>) -> bool {
    forall|i: int| 0 <= i < s.len() ==> is_digit(#[trigger] s[i])
}

/// `n` written in decimal, without leading zeros.
pub open spec fn decimal_digits(n: nat) -> Seq<char>
    decreases n,
{
    if n < 10 {
        seq![digit_char(n as int)]
    } else {
        decimal_digits(n / 10).push(digit_char((n % 10) as int))
    }
}

/// The number that a sequence of decimal digits denotes.
pub open spec fn digits_value(s: Seq<char>) -> int
    decreases s.len(),
{
    if s.len() == 0 {
        0
    } else {
        digits_value(s.drop_last()) * 10 + digit_value(s.last())
    }
}

/// The text of an amount of `minor` minor units.
pub open spec fn amount_text(minor: nat) -> Seq<char> {
    decimal_digits(minor / 100) + seq!['.', digit_char(((minor / 10) % 10) as int), digit_char((minor % 10) as int)]
}

/// The amount in minor units that `t` denotes, where `t` is in the format that
/// `amount_text` writes (whole part without leading zeros) and the amount fits in `i64`.
pub open spec fn amount_value(t: Seq<char>) -> Option<int> {
    let n = t.len() as int;
    let whole = t.subrange(0, n - 3);
    if n >= 4 && all_digits(whole) && (whole[0] != '0' || whole.len() == 1) && t[n - 3] == '.'
        && is_digit(t[n - 2]) && is_digit(t[n - 1]) {
        let v = digits_value(whole) * 100 + digit_value(t[n - 2]) * 10 + digit_value(t[n - 1]);
        if v <= i64::MAX {
            Some(v)
        } else {
            None
        }
    } else {
        None
    }
}

proof fn lemma_digit_char(d: int)
    requires
        0 <= d < 10,
    ensures
        is_digit(digit_char(d)),
        digit_value(digit_char(d)) == d,
        d != 0 ==> digit_char(d) != '0',
{
}

proof fn lemma_decimal_digits(n: nat)
    ensures
        all_digits(decimal_digits(n)),
        digits_value(decimal_digits(n)) == n,
        decimal_digits(n).len() >= 1,
        n > 0 ==> decimal_digits(n)[0] != '0',
        n == 0 ==> decimal_digits(n).len() == 1,
    decreases n,
{
    if n < 10 {
        lemma_digit_char(n as int);
        let s = decimal_digits(n);
        assert(s.drop_last() =~= Seq::<char>::empty());
        assert(digits_value(s.drop_last()) == 0);
        assert(s.last() == digit_char(n as int));
    } else {
        lemma_decimal_digits(n / 10);
        lemma_digit_char((n % 10) as int);
        let s = decimal_digits(n);
        assert(s.drop_last() =~= decimal_digits(n / 10));
        assert(s.last() == digit_char((n % 10) as int));
        assert((n / 10) * 10 + n % 10 == n);
        assert(s[0] == decimal_digits(n / 10)[0]);
    }
}

proof fn lemma_digits_value_nonneg(s: Seq<char>)
    requires
        all_digits(s),
    ensures
        digits_value(s) >= 0,
    decreases s.len(),
{
    if s.len() > 0 {
        assert(all_digits(s.drop_last()));
        lemma_digits_value_nonneg(s.drop_last());
    }
}

proof fn lemma_prefix_monotone(s: Seq<char>, i: int, j: int)
    requires
        all_digits(s),
        0 <= i <= j <= s.len(),
    ensures
        digits_value(s.subrange(0, i)) <= digits_value(s.subrange(0, j)),
    decreases j - i,
{
    if i < j {
        lemma_prefix_monotone(s, i, j - 1);
        let p = s.subrange(0, j);
        assert(p.drop_last() =~= s.subrange(0, j - 1));
        assert(all_digits(s.subrange(0, j - 1)));
        lemma_digits_value_nonneg(s.subrange(0, j - 1));
        assert(is_digit(s[j - 1]));
    }
}

/// Formatting an amount and reading the text back gives the amount; so
/// formatting what was read gives the same text again.
pub proof fn amount_round_trip(minor: int)
    requires
        0 <= minor <= i64::MAX,
    ensures
        amount_value(amount_text(minor as nat)) == Some(minor),
        amount_text(amount_value(amount_text(minor as nat))->0 as nat) == amount_text(minor as nat),
{
    let m = minor as nat;
    let w = decimal_digits(m / 100);
    let t = amount_text(m);
    lemma_decimal_digits(m / 100);
    lemma_digit_char(((m / 10) % 10) as int);
    lemma_digit_char((m % 10) as int);
    let n = t.len() as int;
    assert(t.subrange(0, n - 3) =~= w);
    assert(t[n - 3] == '.');
    assert(t[n - 2] == digit_char(((m / 10) % 10) as int));
    assert(t[n - 1] == digit_char((m % 10) as int));
    assert((m / 100) * 100 + ((m / 10) % 10) * 10 + m % 10 == m) by (nonlinear_arith);
}

proof fn lemma_digit_value(c: char)
    requires
        is_digit(c),
    ensures
        0 <= digit_value(c) < 10,
        digit_char(digit_value(c)) == c,
{
}

proof fn lemma_digits_positive(w: Seq<char>)
    requires
        all_digits(w),
        w.len() >= 1,
        w[0] != '0',
    ensures
        digits_value(w) >= 1,
    decreases w.len(),
{
    if w.len() > 1 {
        let p = w.drop_last();
        assert(all_digits(p));
        assert(p[0] == w[0]);
        lemma_digits_positive(p);
        lemma_digit_value(w.last());
        let m = digits_value(p);
        assert(m * 10 >= 10) by (nonlinear_arith)
            requires
                m >= 1,
        ;
    } else {
        assert(w.drop_last() =~= Seq::<char>::empty());
        assert(digits_value(w.drop_last()) == 0);
        assert(w.last() == w[0]);
        lemma_digit_value(w.last());
    }
}

proof fn lemma_canonical_digits(w: Seq<char>)
    requires
        all_digits(w),
        w.len() >= 1,
        w[0] != '0' || w.len() == 1,
    ensures
        digits_value(w) >= 0,
        decimal_digits(digits_value(w) as nat) == w,
    decreases w.len(),
{
    lemma_digits_value_nonneg(w);
    let p = w.drop_last();
    let c = w.last();
    lemma_digit_value(c);
    if w.len() == 1 {
        assert(p =~= Seq::<char>::empty());
        assert(digits_value(p) == 0);
        assert(c == w[0]);
        assert(digits_value(w) == digit_value(c));
        assert(decimal_digits(digits_value(w) as nat) =~= w);
    } else {
        assert(all_digits(p));
        assert(p[0] == w[0]);
        lemma_canonical_digits(p);
        lemma_digits_positive(p);
        let n = digits_value(w) as nat;
        let m = digits_value(p);
        assert(n == m * 10 + digit_value(c));
        assert(n / 10 == m && n % 10 == digit_value(c));
        assert(decimal_digits(n) =~= p.push(c));
        assert(p.push(c) =~= w);
    }
}

/// Reading a text of the processor's amount format and formatting what was
/// read gives the text back.
pub proof fn amount_text_round_trip(t: Seq<char>)
    requires
        amount_value(t) is Some,
    ensures
        amount_value(t)->0 >= 0,
        amount_text(amount_value(t)->0 as nat) == t,
{
    let n = t.len() as int;
    let w = t.subrange(0, n - 3);
    lemma_canonical_digits(w);
    lemma_digit_value(t[n - 2]);
    lemma_digit_value(t[n - 1]);
    let a = digits_value(w);
    let b = digit_value(t[n - 2]);
    let c = digit_value(t[n - 1]);
    let v = a * 100 + b * 10 + c;
    assert(v / 100 == a && (v / 10) % 10 == b && v % 10 == c) by (nonlinear_arith)
        requires
            a >= 0,
            0 <= b < 10,
            0 <= c < 10,
            v == a * 100 + b * 10 + c,
    ;
    assert(amount_text(v as nat) =~= t);
}

fn digit_str(d: u64) -> (r: &'static str)
    requires
        d < 10,
    ensures
        r@ == seq![digit_char(d as int)],
{
    proof {
        reveal_strlit("0");
        reveal_strlit("1");
        reveal_strlit("2");
        reveal_strlit("3");
        reveal_strlit("4");
        reveal_strlit("5");
        reveal_strlit("6");
        reveal_strlit("7");
        reveal_strlit("8");
        reveal_strlit("9");
    }
    let r = if d == 0 {
        "0"
    } else if d == 1 {
        "1"
    } else if d == 2 {
        "2"
    } else if d == 3 {
        "3"
    } else if d == 4 {
        "4"
    } else if d == 5 {
        "5"
    } else if d == 6 {
        "6"
    } else if d == 7 {
        "7"
    } else if d == 8 {
        "8"
    } else {
        "9"
    };
    assert(r@ =~= seq![digit_char(d as int)]);
    r
}

fn append_decimal(s: &mut String, n: u64)
    ensures
        final(s)@ == old(s)@ + decimal_digits(n as nat),
    decreases n,
{
    if n >= 10 {
        append_decimal(s, n / 10);
    }
    s.append(digit_str(n % 10));
    assert(final(s)@ =~= old(s)@ + decimal_digits(n as nat));
}

/// The processor's text of an amount given in minor units; a negative amount
/// cannot be written and fails with `RequestEncodingFailed`.
pub fn format_amount(minor: i64) -> (r: Result<String, ConnectorError>)
    ensures
        minor < 0 ==> r == Err::<String, ConnectorError>(ConnectorError::RequestEncodingFailed),
        minor >= 0 ==> r is Ok && r->Ok_0@ == amount_text(minor as nat),
{
    if minor < 0 {
        return Err(ConnectorError::RequestEncodingFailed);
    }
    let m = minor as u64;
    let mut s = String::new();
    append_decimal(&mut s, m / 100);
    s.append(".");
    s.append(digit_str((m / 10) % 10));
    s.append(digit_str(m % 10));
    proof {
        reveal_strlit(".");
    }
    assert(s@ =~= amount_text(minor as nat));
    Ok(s)
}

/// Reads an amount in the processor's format back into minor units.
pub fn parse_amount(t: &str) -> (r: Option<i64>)
    ensures
        r matches Some(v) ==> amount_value(t@) == Some(v as int),
        r is None ==> amount_value(t@) is None,
{
    let c = chars_of(t);
    let n = c.len();
    if n < 4 {
        return None;
    }
    let ghost whole = t@.subrange(0, n - 3);
    if c[0] == '0' && n != 4 {
        return None;
    }
    let mut value: u64 = 0;
    let mut i: usize = 0;
    while i < n - 3
        invariant
            c@ == t@,
            n == c.len(),
            n >= 4,
            0 <= i <= n - 3,
            whole == t@.subrange(0, n - 3),
            all_digits(whole.subrange(0, i as int)),
            value == digits_value(whole.subrange(0, i as int)),
            value <= MAX_MAJOR,
        decreases n - 3 - i,
    {
        let ch = c[i];
        if !('0' <= ch && ch <= '9') {
            assert(!is_digit(whole[i as int]));
            return None;
        }
        let d = (ch as u32 - 48) as u64;
        assert(whole.subrange(0, i + 1).drop_last() =~= whole.subrange(0, i as int));
        value = value * 10 + d;
        assert(all_digits(whole.subrange(0, i + 1)));
        if value > MAX_MAJOR {
            proof {
                if all_digits(whole) && is_digit(t@[n - 2]) && is_digit(t@[n - 1]) {
                    lemma_prefix_monotone(whole, i + 1, whole.len() as int);
                    assert(whole.subrange(0, whole.len() as int) =~= whole);
                    let dv = digits_value(whole);
                    assert(dv * 100 > i64::MAX) by (nonlinear_arith)
                        requires
                            dv > MAX_MAJOR,
                    ;
                }
            }
            return None;
        }
        i = i + 1;
    }
    assert(whole.subrange(0, n - 3) =~= whole);
    let c1 = c[n - 2];
    let c2 = c[n - 1];
    if c[n - 3] != '.' || !('0' <= c1 && c1 <= '9') || !('0' <= c2 && c2 <= '9') {
        return None;
    }
    let total = value * 100 + (c1 as u32 - 48) as u64 * 10 + (c2 as u32 - 48) as u64;
    if total > i64::MAX as u64 {
        return None;
    }
    Some(total as i64)
}

} // verus!
