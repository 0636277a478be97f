//! Decimal rendering of unsigned integers.
use vstd::prelude::*;

verus! {

/// The character of the decimal digit `d` (for `d < 10`).
pub open spec fn digit_char(d: nat) -> char {
    if d == 0 {
        '0'
    } else if d == 1 {
        '1'
    } else if d == 2 {
        '2'
    } else if d == 3 {
        '3'
    } else if d == 4 {
        '4'
    } else if d == 5 {
        '5'
    } else if d == 6 {
        '6'
    } else if d == 7 {
        '7'
    } else if d == 8 {
        '8'
    } else {
        '9'
    }
}

/// The value of a decimal digit character: its code point minus that of `'0'`.
pub open spec fn char_digit(c: char) -> int {
    (c as int) - ('0' as int)
}

/// Whether `c` is one of the ten decimal digit characters `'0'` to `'9'`.
pub open spec fn is_digit_char(c: char) -> bool {
    '0' as int <= c as int <= '9' as int
}

/// The shortest decimal representation of `n`, most significant digit first.
pub open spec fn spec_decimal(n: nat) -> Seq<char>
    decreases n,
{
    if n < 10 {
        seq![digit_char(n)]
    } else {
        spec_decimal(n / 10).push(digit_char(n % 10))
    }
}

/// The number that a sequence of decimal digits denotes.
pub open spec fn decimal_value(s: Seq<char>) -> int
    decreases s.len(),
{
    if s.len() == 0 {
        0
    } else {
        decimal_value(s.drop_last()) * 10 + char_digit(s.last())
    }
}

proof fn lemma_digit_roundtrip(d: nat)
    requires
        d < 10,
    ensures
        char_digit(digit_char(d)) == d,
        is_digit_char(digit_char(d)),
        d != 0 ==> digit_char(d) != '0',
{
}

/// The decimal rendering reads back as the number it renders, is never empty,
/// consists of digit characters only, and has no leading zero unless the
/// number is zero.
pub proof fn lemma_decimal_roundtrip(n: nat)
    ensures
        decimal_value(spec_decimal(n)) == n,
        spec_decimal(n).len() >= 1,
        forall|i: int| 0 <= i < spec_decimal(n).len() ==> is_digit_char(#[trigger] spec_decimal(n)[i]),
        n > 0 ==> spec_decimal(n)[0] != '0',
    decreases n,
{
    if n < 10 {
        lemma_digit_roundtrip(n);
        let s = spec_decimal(n);
        assert(s.drop_last() =~= Seq::<char>::empty());
        assert(decimal_value(s.drop_last()) == 0);
        assert(decimal_value(s) == decimal_value(s.drop_last()) * 10 + char_digit(s.last()));
    } else {
        let q = n / 10;
        let r = n % 10;
        lemma_decimal_roundtrip(q);
        lemma_digit_roundtrip(r);
        let s = spec_decimal(n);
        assert(s == spec_decimal(q).push(digit_char(r)));
        assert(s.drop_last() =~= spec_decimal(q));
        assert(q * 10 + r == n);
        assert(s.last() == digit_char(r));
        assert(decimal_value(s) == decimal_value(s.drop_last()) * 10 + char_digit(s.last()));
        assert forall|i: int| 0 <= i < s.len() implies is_digit_char(#[trigger] s[i]) by {
            if i < s.len() - 1 {
                assert(s[i] == spec_decimal(q)[i]);
            }
        }
        assert(s[0] == spec_decimal(q)[0]);
    }
}

/// The one-character string of the decimal digit `d`.
fn digit_str(d: usize) -> (s: &'static str)
    requires
        d < 10,
    ensures
        s@ == seq![digit_char(d as nat)],
{
    if d == 0 {
        proof { reveal_strlit("0"); }
        "0"
    } else if d == 1 {
        proof { reveal_strlit("1"); }
        "1"
    } else if d == 2 {
        proof { reveal_strlit("2"); }
        "2"
    } else if d == 3 {
        proof { reveal_strlit("3"); }
        "3"
    } else if d == 4 {
        proof { reveal_strlit("4"); }
        "4"
    } else if d == 5 {
        proof { reveal_strlit("5"); }
        "5"
    } else if d == 6 {
        proof { reveal_strlit("6"); }
        "6"
    } else if d == 7 {
        proof { reveal_strlit("7"); }
        "7"
    } else if d == 8 {
        proof { reveal_strlit("8"); }
        "8"
    } else {
        proof { reveal_strlit("9"); }
        "9"
    }
}

/// Renders `n` in decimal, as `format!("{}", n)` does.
pub fn decimal_string(n: usize) -> (s: String)
    ensures
        s@ == spec_decimal(n as nat),
        decimal_value(s@) == n,
        s@.len() >= 1,
        forall|i: int| 0 <= i < s@.len() ==> is_digit_char(#[trigger] s@[i]),
        n > 0 ==> s@[0] != '0',
    decreases n,
{
    proof {
        lemma_decimal_roundtrip(n as nat);
    }
    if n < 10 {
        String::from_str(digit_str(n))
    } else {
        let mut s = decimal_string(n / 10);
        let tail = digit_str(n % 10);
        s.append(tail);
        assert(s@ =~= spec_decimal((n / 10) as nat).push(digit_char((n % 10) as nat)));
        s
    }
}

} // verus!
