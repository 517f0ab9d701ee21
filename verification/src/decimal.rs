use vstd::prelude::*;

verus! {

/// The ASCII digit that stands for `d`, for `d` below ten.
pub open spec fn digit_char(d: nat) -> char {
    if d == 0 { '0' }
    else if d == 1 { '1' }
    else if d == 2 { '2' }
    else if d == 3 { '3' }
    else if d == 4 { '4' }
    else if d == 5 { '5' }
    else if d == 6 { '6' }
    else if d == 7 { '7' }
    else if d == 8 { '8' }
    else { '9' }
}

/// The decimal notation of `n`: most significant digit first, no leading
/// zeros, and "0" for zero.
pub open spec fn decimal(n: nat) -> Seq<char>
    decreases n,
{
    if n < 10 {
        seq![digit_char(n)]
    } else {
        decimal(n / 10) + seq![digit_char(n % 10)]
    }
}

fn digit_str(d: u64) -> (s: &'static str)
    requires
        d < 10,
    ensures
        s@ == seq![digit_char(d as nat)],
{
    if d == 0 {
        proof { reveal_strlit("0"); }
        "0"
    } else if d == 1 {
        proof { reveal_strlit("1"); }
        "1"
    } else if d == 2 {
        proof { reveal_strlit("2"); }
        "2"
    } else if d == 3 {
        proof { reveal_strlit("3"); }
        "3"
    } else if d == 4 {
        proof { reveal_strlit("4"); }
        "4"
    } else if d == 5 {
        proof { reveal_strlit("5"); }
        "5"
    } else if d == 6 {
        proof { reveal_strlit("6"); }
        "6"
    } else if d == 7 {
        proof { reveal_strlit("7"); }
        "7"
    } else if d == 8 {
        proof { reveal_strlit("8"); }
        "8"
    } else {
        proof { reveal_strlit("9"); }
        "9"
    }
}

/// Appends the decimal notation of `n` to `out`.
pub fn push_decimal(out: &mut String, n: u64)
    ensures
        final(out)@ == old(out)@ + decimal(n as nat),
    decreases n,
{
    if n >= 10 {
        push_decimal(out, n / 10);
    }
    let d = n % 10;
    out.append(digit_str(d));
    proof {
        assert(old(out)@ + decimal(n as nat) =~= if n < 10 {
            old(out)@ + seq![digit_char(n as nat)]
        } else {
            old(out)@ + decimal((n / 10) as nat) + seq![digit_char((n % 10) as nat)]
        });
    }
}

/// Returns the decimal notation of `n`, as `u64::to_string` writes it.
pub fn to_decimal(n: u64) -> (s: String)
    ensures
        s@ == decimal(n as nat),
{
    let mut s = String::new();
    push_decimal(&mut s, n);
    proof {
        assert(Seq::<char>::empty() + decimal(n as nat) =~= decimal(n as nat));
    }
    s
}

/// Whether `c` is one of the ASCII digits '0' to '9'.
pub open spec fn is_ascii_digit(c: char) -> bool {
    '0' <= c && c <= '9'
}

/// The number that the ASCII digit `c` stands for.
pub open spec fn ascii_digit_value(c: char) -> nat {
    (c as int - '0' as int) as nat
}

/// The number that the ASCII digits `s` stand for, read in base ten, most
/// significant digit first.
pub open spec fn base10_value(s: Seq<char>) -> nat
    decreases s.len(),
{
    if s.len() == 0 {
        0
    } else {
        base10_value(s.drop_last()) * 10 + ascii_digit_value(s.last())
    }
}

proof fn lemma_digit_char(d: nat)
    requires
        d < 10,
    ensures
        is_ascii_digit(digit_char(d)),
        ascii_digit_value(digit_char(d)) == d,
        digit_char(d) == '0' <==> d == 0,
{
}

/// The decimal notation of a number is its base-ten notation: a non-empty
/// string of ASCII digits that reads back as the number, with no leading
/// zero (except for zero itself, written "0"). No two numbers share one.
pub proof fn law_decimal_is_base10(n: nat)
    ensures
        decimal(n).len() > 0,
        forall|i: int| 0 <= i < decimal(n).len() ==> is_ascii_digit(#[trigger] decimal(n)[i]),
        base10_value(decimal(n)) == n,
        decimal(n)[0] == '0' <==> n == 0,
        n == 0 ==> decimal(n) == seq!['0'],
    decreases n,
{
    if n < 10 {
        lemma_digit_char(n);
        assert(decimal(n) == seq![digit_char(n)]);
        assert(decimal(n).drop_last() =~= Seq::<char>::empty());
        assert(base10_value(decimal(n)) == base10_value(Seq::<char>::empty()) * 10
            + ascii_digit_value(digit_char(n)));
    } else {
        law_decimal_is_base10(n / 10);
        lemma_digit_char(n % 10);
        let d = decimal(n);
        let hi = decimal(n / 10);
        assert(d == hi + seq![digit_char(n % 10)]);
        assert(d.drop_last() =~= hi);
        assert(d[0] == hi[0]);
        assert forall|i: int| 0 <= i < d.len() implies is_ascii_digit(#[trigger] d[i]) by {
            if i < hi.len() {
                assert(d[i] == hi[i]);
            }
        }
        assert(d.last() == digit_char(n % 10));
        assert(base10_value(d) == base10_value(hi) * 10 + ascii_digit_value(digit_char(n % 10)));
        assert(n == (n / 10) * 10 + n % 10);
    }
}

/// Different numbers have different decimal notations.
pub proof fn law_decimal_injective(a: nat, b: nat)
    ensures
        decimal(a) == decimal(b) ==> a == b,
{
    law_decimal_is_base10(a);
    law_decimal_is_base10(b);
}

} // verus!
