use vstd::prelude::*;

verus! {

/// The character of decimal digit `d`.
pub open spec fn digit_char(d: nat) -> char {
    ('0' as nat + d) as char
}

/// The decimal notation of `n`, most significant digit first, with no leading zeros.
pub open spec fn decimal(n: nat) -> Seq<char>
    decreases n,
{
    if n < 10 {
        seq![digit_char(n)]
    } else {
        decimal(n / 10).push(digit_char(n % 10))
    }
}

/// The decimal notation of `v`, with a leading `-` where `v` is negative.
pub open spec fn signed_decimal(v: int) -> Seq<char> {
    if v < 0 {
        seq!['-'].add(decimal((-v) as nat))
    } else {
        decimal(v as nat)
    }
}

/// The one-character text of decimal digit `d`.
fn digit_text(d: u64) -> (s: &'static str)
    requires
        d < 10,
    ensures
        s@ == seq![digit_char(d as nat)],
{
    let digits: &'static str = "0123456789";
    proof {
        reveal_strlit("0123456789");
    }
    let i: usize = d as usize;
    digits.substring_char(i, i + 1)
}

/// Whether `c` is one of the digits `0` to `9`.
pub open spec fn is_digit(c: char) -> bool {
    '0' <= c <= '9'
}

/// The number a string of digits denotes in base ten, most significant digit
/// first.
pub open spec fn numeral_value(s: Seq<char>) -> int
    decreases s.len(),
{
    if s.len() == 0 {
        0
    } else {
        numeral_value(s.drop_last()) * 10 + (s.last() as int - '0' as int)
    }
}

/// The decimal notation of `n` is a numeral for `n`: it is not empty, it is
/// made of digits only, it starts with a digit other than `0` unless `n` is
/// zero (then it is just `0`), and read back in base ten it denotes `n`.
pub proof fn lemma_decimal_denotes(n: nat)
    ensures
        decimal(n).len() >= 1,
        forall|i: int| 0 <= i < decimal(n).len() ==> is_digit(#[trigger] decimal(n)[i]),
        numeral_value(decimal(n)) == n,
        n > 0 ==> decimal(n)[0] != '0',
        n == 0 ==> decimal(n) == seq!['0'],
    decreases n,
{
    if n < 10 {
        assert(decimal(n) == seq![digit_char(n)]);
        assert(seq![digit_char(n)].drop_last() =~= Seq::<char>::empty());
        assert(digit_char(n) as int == '0' as int + n);
        assert(numeral_value(Seq::<char>::empty()) == 0);
        assert(numeral_value(decimal(n)) == numeral_value(decimal(n).drop_last()) * 10 + (
        decimal(n).last() as int - '0' as int));
    } else {
        let q = n / 10;
        let r = n % 10;
        lemma_decimal_denotes(q);
        let s = decimal(n);
        assert(s == decimal(q).push(digit_char(r)));
        assert(s.drop_last() =~= decimal(q));
        assert(digit_char(r) as int == '0' as int + r);
        assert(q * 10 + r == n) by (nonlinear_arith)
            requires
                q == n / 10,
                r == n % 10,
        ;
        assert(q > 0);
        assert(s.last() == digit_char(r));
        assert(numeral_value(s) == numeral_value(s.drop_last()) * 10 + (s.last() as int
            - '0' as int));
        assert forall|i: int| 0 <= i < s.len() implies is_digit(#[trigger] s[i]) by {
            if i < s.len() - 1 {
                assert(s[i] == decimal(q)[i]);
            }
        }
        assert(s[0] == decimal(q)[0]);
    }
}

/// The signed decimal notation of `v` is `-` followed by the decimal notation
/// of `-v` where `v` is negative, and the decimal notation of `v` otherwise;
/// either way the digits denote the magnitude of `v`.
pub proof fn lemma_signed_decimal_denotes(v: int)
    ensures
        v < 0 ==> signed_decimal(v)[0] == '-' && signed_decimal(v).len() >= 2
            && numeral_value(signed_decimal(v).drop_first()) == -v,
        v >= 0 ==> numeral_value(signed_decimal(v)) == v && signed_decimal(v).len() >= 1
            && is_digit(signed_decimal(v)[0]),
{
    if v < 0 {
        lemma_decimal_denotes((-v) as nat);
        assert(signed_decimal(v).drop_first() =~= decimal((-v) as nat));
    } else {
        lemma_decimal_denotes(v as nat);
    }
}

/// Writes `n` in decimal notation.
pub fn decimal_text(n: u64) -> (s: String)
    ensures
        s@ == decimal(n as nat),
    decreases n,
{
    if n < 10 {
        digit_text(n).to_owned()
    } else {
        let mut s = decimal_text(n / 10);
        s.append(digit_text(n % 10));
        s
    }
}

/// Writes `v` in decimal notation, with a leading `-` where `v` is negative.
pub fn signed_decimal_text(v: i64) -> (s: String)
    ensures
        s@ == signed_decimal(v as int),
{
    if v < 0 {
        let magnitude: u64 = (0i128 - (v as i128)) as u64;
        let mut s = "-".to_owned();
        proof {
            reveal_strlit("-");
        }
        s.append(decimal_text(magnitude).as_str());
        s
    } else {
        decimal_text(v as u64)
    }
}

/// The text of a truth value: `true` or `false`.
pub open spec fn bool_text_spec(b: bool) -> Seq<char> {
    if b {
        "true"@
    } else {
        "false"@
    }
}

/// Writes a truth value as `true` or `false`.
pub fn bool_text(b: bool) -> (s: String)
    ensures
        s@ == bool_text_spec(b),
{
    if b {
        "true".to_owned()
    } else {
        "false".to_owned()
    }
}

} // verus!
