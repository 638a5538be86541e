use vstd::prelude::*;

verus! {

/// The ASCII digit for a value below ten.
pub open spec fn digit_char(d: nat) -> char {
    (d + 48) as char
}

/// Whether a character is one of `0` to `9`.
pub open spec fn is_digit(c: char) -> bool {
    48 <= (c as int) && (c as int) <= 57
}

/// The decimal numeral of a natural number, without leading zeros (zero
/// itself is `0`).
pub open spec fn decimal_nat(n: nat) -> Seq<char>
    decreases n,
{
    if n < 10 {
        seq![digit_char(n)]
    } else {
        decimal_nat(n / 10).push(digit_char(n % 10))
    }
}

/// How `{}` prints an integer: its decimal numeral, after a `-` when it is
/// negative.
pub open spec fn decimal_int(i: int) -> Seq<char> {
    if i < 0 {
        seq!['-'] + decimal_nat((-i) as nat)
    } else {
        decimal_nat(i as nat)
    }
}

/// The value of a string of digits read in base ten.
pub open spec fn decimal_value(s: Seq<char>) -> int
    decreases s.len(),
{
    if s.len() == 0 {
        0
    } else {
        decimal_value(s.drop_last()) * 10 + (s.last() as int - 48)
    }
}

/// Appends the decimal numeral of `n` to `out`.
pub fn push_decimal(out: &mut String, n: u64)
    ensures
        final(out)@ == old(out)@ + decimal_nat(n as nat),
    decreases n,
{
    let ghost start = out@;
    if n >= 10 {
        push_decimal(out, n / 10);
    }
    let d: u8 = (n % 10) as u8;
    let c: char = (48u8 + d) as char;
    out.push(c);
    proof {
        assert(c == digit_char((n % 10) as nat));
        if n < 10 {
            assert(decimal_nat(n as nat) =~= seq![c]);
        } else {
            assert(decimal_nat(n as nat) == decimal_nat((n / 10) as nat).push(c));
        }
        assert(out@ =~= start + decimal_nat(n as nat));
    }
}

/// Appends `x` to `out` as `{}` formats an `i64`.
pub fn push_i64(out: &mut String, x: i64)
    ensures
        final(out)@ == old(out)@ + decimal_int(x as int),
{
    let ghost start = out@;
    if x < 0 {
        out.push('-');
        let m: u64 = ((-(x + 1)) as u64) + 1;
        push_decimal(out, m);
        assert(out@ =~= start + decimal_int(x as int));
    } else {
        push_decimal(out, x as u64);
    }
}

/// The numeral is made of digits only.
pub proof fn lemma_decimal_digits(n: nat)
    ensures
        decimal_nat(n).len() > 0,
        forall|j: int| 0 <= j < decimal_nat(n).len() ==> is_digit(#[trigger] decimal_nat(n)[j]),
    decreases n,
{
    if n >= 10 {
        lemma_decimal_digits(n / 10);
        let s = decimal_nat(n);
        let p = decimal_nat(n / 10);
        assert forall|j: int| 0 <= j < s.len() implies is_digit(#[trigger] s[j]) by {
            if j < p.len() {
                assert(s[j] == p[j]);
            }
        }
    }
}

/// Reading the numeral back gives the number.
pub proof fn lemma_decimal_value(n: nat)
    ensures
        decimal_value(decimal_nat(n)) == n,
    decreases n,
{
    assert(digit_char(n % 10) as int == n % 10 + 48);
    if n < 10 {
        assert(n % 10 == n);
        assert(decimal_nat(n).drop_last() =~= seq![]);
        assert(decimal_value(decimal_nat(n).drop_last()) == 0);
    } else {
        lemma_decimal_value(n / 10);
        let s = decimal_nat(n);
        assert(s.drop_last() =~= decimal_nat(n / 10));
        assert(s.last() == digit_char(n % 10));
        assert(decimal_value(s) == decimal_value(decimal_nat(n / 10)) * 10 + (n % 10));
        assert((n / 10) * 10 + n % 10 == n) by (nonlinear_arith);
    }
}

/// The numeral has no leading zero: only zero itself starts with `0`.
/// With the two laws above, this makes it the one canonical base-ten
/// numeral of `n`.
pub proof fn lemma_decimal_no_leading_zero(n: nat)
    ensures
        decimal_nat(n)[0] == '0' ==> n == 0,
    decreases n,
{
    if n >= 10 {
        lemma_decimal_no_leading_zero(n / 10);
        lemma_decimal_digits(n / 10);
        assert(decimal_nat(n)[0] == decimal_nat(n / 10)[0]);
    } else {
        assert(digit_char(n) as int == n + 48);
    }
}

/// How an integer reads back from its printed form: a `-` exactly when it
/// is negative, followed by the digits of its magnitude.
pub proof fn lemma_decimal_int_reads_back(i: int)
    ensures
        (decimal_int(i)[0] == '-') <==> i < 0,
        i < 0 ==> decimal_value(decimal_int(i).drop_first()) == -i,
        i >= 0 ==> decimal_value(decimal_int(i)) == i,
{
    if i < 0 {
        let m = (-i) as nat;
        lemma_decimal_value(m);
        lemma_decimal_digits(m);
        assert(decimal_int(i).drop_first() =~= decimal_nat(m));
    } else {
        lemma_decimal_value(i as nat);
        lemma_decimal_digits(i as nat);
        assert(is_digit(decimal_nat(i as nat)[0]));
    }
}

/// Distinct integers print as distinct numerals.
pub proof fn lemma_decimal_int_injective(a: int, b: int)
    requires
        decimal_int(a) == decimal_int(b),
    ensures
        a == b,
{
    if a < 0 {
        lemma_decimal_digits((-a) as nat);
    } else {
        lemma_decimal_digits(a as nat);
    }
    if b < 0 {
        lemma_decimal_digits((-b) as nat);
    } else {
        lemma_decimal_digits(b as nat);
    }
    let da = decimal_int(a);
    let db = decimal_int(b);
    if a < 0 && b < 0 {
        assert(decimal_nat((-a) as nat) =~= da.subrange(1, da.len() as int));
        assert(decimal_nat((-b) as nat) =~= db.subrange(1, db.len() as int));
        lemma_decimal_value((-a) as nat);
        lemma_decimal_value((-b) as nat);
    } else if a >= 0 && b >= 0 {
        lemma_decimal_value(a as nat);
        lemma_decimal_value(b as nat);
    } else if a < 0 {
        assert(da[0] == '-');
        assert(is_digit(db[0]));
    } else {
        assert(db[0] == '-');
        assert(is_digit(da[0]));
    }
}

} // verus!
