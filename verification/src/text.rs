//! Decimal text of numbers, for the display.
use vstd::prelude::*;

verus! {

pub open spec fn digit_char(d: int) -> char {
    if d == 0 { '0' }
    else if d == 1 { '1' }
    else if d == 2 { '2' }
    else if d == 3 { '3' }
    else if d == 4 { '4' }
    else if d == 5 { '5' }
    else if d == 6 { '6' }
    else if d == 7 { '7' }
    else if d == 8 { '8' }
    else { '9' }
}

/// Value of a decimal digit character.
pub open spec fn digit_value(c: char) -> int {
    if c == '0' { 0 }
    else if c == '1' { 1 }
    else if c == '2' { 2 }
    else if c == '3' { 3 }
    else if c == '4' { 4 }
    else if c == '5' { 5 }
    else if c == '6' { 6 }
    else if c == '7' { 7 }
    else if c == '8' { 8 }
    else { 9 }
}

/// Decimal digits of `n`, most significant first, without leading zeros.
pub open spec fn digits(n: nat) -> Seq<char>
    decreases n,
{
    if n < 10 {
        seq![digit_char(n as int)]
    } else {
        digits(n / 10) + seq![digit_char((n % 10) as int)]
    }
}

/// Decimal text of an integer, with a minus sign when negative (as `{}` formats it).
pub open spec fn int_text(v: int) -> Seq<char> {
    if v < 0 { seq!['-'] + digits((-v) as nat) } else { digits(v as nat) }
}

/// Decimal text, to one decimal place, of `dg` tenths (as `{:.1}` formats the
/// quotient `dg / 10`).
pub open spec fn tenths_text(dg: int) -> Seq<char> {
    let a: nat = (if dg < 0 { -dg } else { dg }) as nat;
    let body = digits(a / 10) + seq!['.', digit_char((a % 10) as int)];
    if dg < 0 { seq!['-'] + body } else { body }
}

/// Value of a string of decimal digits.
pub open spec fn decimal_value(s: Seq<char>) -> int
    decreases s.len(),
{
    if s.len() == 0 { 0 } else { 10 * decimal_value(s.drop_last()) + digit_value(s.last()) }
}

/// Reading the digits back gives the number.
pub proof fn lemma_digits_value(n: nat)
    ensures
        decimal_value(digits(n)) == n,
        digits(n).len() >= 1,
    decreases n,
{
    if n >= 10 {
        lemma_digits_value(n / 10);
        let s = digits(n);
        assert(s.drop_last() =~= digits(n / 10));
        assert(s.last() == digit_char((n % 10) as int));
        assert(digit_value(digit_char((n % 10) as int)) == n % 10);
        assert(10 * (n / 10) + n % 10 == n);
        assert(decimal_value(s) == 10 * decimal_value(s.drop_last()) + digit_value(s.last()));
    } else {
        let s = digits(n);
        assert(s.drop_last() =~= Seq::<char>::empty());
        assert(decimal_value(s.drop_last()) == 0);
        assert(digit_value(digit_char(n as int)) == n);
        assert(decimal_value(s) == 10 * decimal_value(s.drop_last()) + digit_value(s.last()));
    }
}

/// Different numbers have different decimal texts.
pub proof fn lemma_int_text_injective(a: int, b: int)
    requires
        int_text(a) == int_text(b),
    ensures
        a == b,
{
    if a < 0 {
        lemma_digits_value((-a) as nat);
    } else {
        lemma_digits_value(a as nat);
    }
    if b < 0 {
        lemma_digits_value((-b) as nat);
    } else {
        lemma_digits_value(b as nat);
    }
    if a < 0 && b >= 0 {
        assert(int_text(a)[0] == '-');
        assert(int_text(b)[0] == digits(b as nat)[0]);
        lemma_digits_not_minus(b as nat);
    } else if a >= 0 && b < 0 {
        assert(int_text(b)[0] == '-');
        lemma_digits_not_minus(a as nat);
    } else if a < 0 && b < 0 {
        assert(digits((-a) as nat) == int_text(a).drop_first());
        assert(digits((-b) as nat) == int_text(b).drop_first());
    }
}

proof fn lemma_digits_not_minus(n: nat)
    ensures
        digits(n)[0] != '-',
    decreases n,
{
    if n >= 10 {
        lemma_digits_value(n / 10);
        lemma_digits_not_minus(n / 10);
        assert(digits(n)[0] == digits(n / 10)[0]);
    }
}

/// Whether a character is a decimal digit.
pub open spec fn is_digit_char(c: char) -> bool {
    '0' <= c && c <= '9'
}

proof fn lemma_digits_are_digits(n: nat)
    ensures
        forall|k: int| 0 <= k < digits(n).len() ==> is_digit_char(#[trigger] digits(n)[k]),
    decreases n,
{
    if n >= 10 {
        lemma_digits_are_digits(n / 10);
        assert forall|k: int| 0 <= k < digits(n).len() implies is_digit_char(#[trigger] digits(n)[k]) by {
            if k < digits(n / 10).len() {
                assert(digits(n)[k] == digits(n / 10)[k]);
            }
        }
    }
}

/// Reading the text of tenths back gives the number: a minus sign exactly
/// when it is negative, then digits, a point and one digit; the digits before
/// the point read as whole units and the one after as tenths, together the
/// magnitude of `dg`.
pub proof fn lemma_tenths_text_reads_back(dg: int)
    ensures
        ({
            let t = tenths_text(dg);
            let body = if dg < 0 { t.drop_first() } else { t };
            let n = body.len() as int;
            let mag = if dg < 0 { -dg } else { dg };
            &&& t.len() >= 3
            &&& (t[0] == '-') == (dg < 0)
            &&& n >= 3
            &&& body[n - 2] == '.'
            &&& forall|k: int| 0 <= k < n && k != n - 2 ==> is_digit_char(#[trigger] body[k])
            &&& 10 * decimal_value(body.take(n - 2)) + digit_value(body[n - 1]) == mag
        }),
{
    let a: nat = (if dg < 0 { -dg } else { dg }) as nat;
    let whole = digits(a / 10);
    let body = whole + seq!['.', digit_char((a % 10) as int)];
    lemma_digits_value(a / 10);
    lemma_digits_are_digits(a / 10);
    lemma_digits_not_minus(a / 10);
    let t = tenths_text(dg);
    if dg < 0 {
        assert(t.drop_first() =~= body);
    }
    let n = body.len() as int;
    assert(body.take(n - 2) =~= whole);
    assert(body[n - 1] == digit_char((a % 10) as int));
    assert(digit_value(digit_char((a % 10) as int)) == a % 10);
    assert(body[0] == whole[0]);
    assert(forall|k: int| 0 <= k < n && k != n - 2 ==> is_digit_char(#[trigger] body[k])) by {
        assert forall|k: int| 0 <= k < n && k != n - 2 implies is_digit_char(#[trigger] body[k]) by {
            if k < whole.len() {
                assert(body[k] == whole[k]);
            }
        }
    }
}

/// Appends a decimal digit.
pub fn append_digit(s: &mut String, d: u64)
    requires
        d < 10,
    ensures
        final(s)@ == old(s)@ + seq![digit_char(d as int)],
{
    proof {
        reveal_strlit("0");
        reveal_strlit("1");
        reveal_strlit("2");
        reveal_strlit("3");
        reveal_strlit("4");
        reveal_strlit("5");
        reveal_strlit("6");
        reveal_strlit("7");
        reveal_strlit("8");
        reveal_strlit("9");
    }
    if d == 0 {
        s.append("0");
    } else if d == 1 {
        s.append("1");
    } else if d == 2 {
        s.append("2");
    } else if d == 3 {
        s.append("3");
    } else if d == 4 {
        s.append("4");
    } else if d == 5 {
        s.append("5");
    } else if d == 6 {
        s.append("6");
    } else if d == 7 {
        s.append("7");
    } else if d == 8 {
        s.append("8");
    } else {
        s.append("9");
    }
}

/// Appends the decimal digits of `n`.
pub fn append_digits(s: &mut String, n: u64)
    ensures
        final(s)@ == old(s)@ + digits(n as nat),
    decreases n,
{
    if n >= 10 {
        append_digits(s, n / 10);
        append_digit(s, n % 10);
        assert(final(s)@ =~= old(s)@ + digits(n as nat));
    } else {
        append_digit(s, n);
    }
}

fn magnitude(v: i64) -> (r: u64)
    ensures
        r == (if v < 0 { -(v as int) } else { v as int }),
{
    if v < 0 {
        if v == i64::MIN {
            (i64::MAX as u64) + 1
        } else {
            (-v) as u64
        }
    } else {
        v as u64
    }
}

/// Appends the decimal text of `v`; see `int_text`.
pub fn append_int(s: &mut String, v: i64)
    ensures
        final(s)@ == old(s)@ + int_text(v as int),
{
    let m = magnitude(v);
    if v < 0 {
        s.append("-");
        proof {
            reveal_strlit("-");
        }
    }
    append_digits(s, m);
    assert(final(s)@ =~= old(s)@ + int_text(v as int));
}

/// Appends `dg / 10` to one decimal place; see `tenths_text`.
pub fn append_tenths(s: &mut String, dg: i64)
    ensures
        final(s)@ == old(s)@ + tenths_text(dg as int),
{
    let m = magnitude(dg);
    if dg < 0 {
        s.append("-");
        proof {
            reveal_strlit("-");
        }
    }
    append_digits(s, m / 10);
    s.append(".");
    proof {
        reveal_strlit(".");
    }
    append_digit(s, m % 10);
    assert(final(s)@ =~= old(s)@ + tenths_text(dg as int));
}

} // verus!
