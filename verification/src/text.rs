//! Canonical text of the scalar values a query term can hold, with verified
//! decimal formatting for the integer ones.

use vstd::prelude::*;
use vstd::string::StringExecFns;

verus! {

/// The decimal digit character of a value below ten.
pub open spec fn digit_char(d: nat) -> char {
    if d == 0 {
        '0'
    } else if d == 1 {
        '1'
    } else if d == 2 {
        '2'
    } else if d == 3 {
        '3'
    } else if d == 4 {
        '4'
    } else if d == 5 {
        '5'
    } else if d == 6 {
        '6'
    } else if d == 7 {
        '7'
    } else if d == 8 {
        '8'
    } else {
        '9'
    }
}

/// The decimal digits of a natural number, most significant first, with no
/// leading zero except for the number zero itself.
pub open spec fn dec_digits(n: nat) -> Seq<char>
    decreases n,
{
    if n < 10 {
        seq![digit_char(n)]
    } else {
        dec_digits(n / 10) + seq![digit_char(n % 10)]
    }
}

/// The canonical decimal text of an integer: its digits, preceded by a minus
/// sign when it is negative.
pub open spec fn int_text(n: int) -> Seq<char> {
    if n >= 0 {
        dec_digits(n as nat)
    } else {
        seq!['-'] + dec_digits((-n) as nat)
    }
}

/// The canonical text of a boolean.
pub open spec fn bool_text(b: bool) -> Seq<char> {
    if b {
        seq!['t', 'r', 'u', 'e']
    } else {
        seq!['f', 'a', 'l', 's', 'e']
    }
}

/// No decimal digit sequence contains a space character.
pub proof fn lemma_dec_digits_no_space(n: nat)
    ensures
        !dec_digits(n).contains(' '),
    decreases n,
{
    if n < 10 {
        assert(digit_char(n) != ' ');
        assert(forall|i: int| 0 <= i < dec_digits(n).len() ==> #[trigger] dec_digits(n)[i] != ' ');
    } else {
        lemma_dec_digits_no_space(n / 10);
        assert(forall|i: int|
            0 <= i < dec_digits(n / 10).len() ==> #[trigger] dec_digits(n / 10)[i] != ' ');
        assert(forall|i: int| 0 <= i < dec_digits(n).len() ==> #[trigger] dec_digits(n)[i] != ' ');
    }
}

/// The canonical text of an integer contains no space character.
pub proof fn lemma_int_text_no_space(n: int)
    ensures
        !int_text(n).contains(' '),
{
    if n >= 0 {
        lemma_dec_digits_no_space(n as nat);
    } else {
        lemma_dec_digits_no_space((-n) as nat);
        assert(forall|i: int|
            0 <= i < dec_digits((-n) as nat).len() ==> #[trigger] dec_digits((-n) as nat)[i] != ' ');
        assert(forall|i: int| 0 <= i < int_text(n).len() ==> #[trigger] int_text(n)[i] != ' ');
    }
}

/// The one-character string of a decimal digit.
fn digit_str(d: u64) -> (s: &'static str)
    requires
        d < 10,
    ensures
        s@ == seq![digit_char(d as nat)],
{
    let s: &'static str = match d {
        0 => "0",
        1 => "1",
        2 => "2",
        3 => "3",
        4 => "4",
        5 => "5",
        6 => "6",
        7 => "7",
        8 => "8",
        _ => "9",
    };
    proof {
        reveal_strlit("0");
        reveal_strlit("1");
        reveal_strlit("2");
        reveal_strlit("3");
        reveal_strlit("4");
        reveal_strlit("5");
        reveal_strlit("6");
        reveal_strlit("7");
        reveal_strlit("8");
        reveal_strlit("9");
        assert(s@ =~= seq![digit_char(d as nat)]);
    }
    s
}

/// Formats an unsigned integer as its decimal digits.
pub(crate) fn u64_to_string(n: u64) -> (s: String)
    ensures
        s@ == dec_digits(n as nat),
{
    if n == 0 {
        let s = String::from_str("0");
        proof {
            reveal_strlit("0");
            assert(s@ =~= dec_digits(0));
        }
        return s;
    }
    let mut m: u64 = n;
    let mut s = String::new();
    proof {
        assert(dec_digits(m as nat) + s@ =~= dec_digits(n as nat));
    }
    while m > 0
        invariant
            m > 0 ==> dec_digits(n as nat) == dec_digits(m as nat) + s@,
            m == 0 ==> dec_digits(n as nat) == s@,
        decreases m,
    {
        let d: u64 = m % 10;
        let rest: u64 = m / 10;
        let ghost s_old: Seq<char> = s@;
        s = String::from_str(digit_str(d)).concat(s.as_str());
        proof {
            assert(d as nat == (m as nat) % 10);
            assert(rest as nat == (m as nat) / 10);
            if m < 10 {
                assert(dec_digits(m as nat) == seq![digit_char(d as nat)]);
                assert(dec_digits(n as nat) =~= s@);
            } else {
                assert(dec_digits(m as nat) == dec_digits(rest as nat) + seq![
                    digit_char(d as nat),
                ]);
                assert(dec_digits(rest as nat) + s@ =~= (dec_digits(rest as nat) + seq![
                    digit_char(d as nat),
                ]) + s_old);
                assert(dec_digits(n as nat) == dec_digits(rest as nat) + s@);
            }
        }
        m = rest;
    }
    s
}

/// Formats a signed integer as its decimal text, minus sign included.
pub(crate) fn i64_to_string(n: i64) -> (s: String)
    ensures
        s@ == int_text(n as int),
{
    if n >= 0 {
        u64_to_string(n as u64)
    } else {
        let wide: i128 = -(n as i128);
        assert(0 < wide <= u64::MAX);
        let magnitude: u64 = wide as u64;
        assert(magnitude as nat == (-(n as int)) as nat);
        let digits = u64_to_string(magnitude);
        let s = String::from_str("-").concat(digits.as_str());
        proof {
            reveal_strlit("-");
            assert("-"@ =~= seq!['-']);
            assert(s@ == int_text(n as int));
        }
        s
    }
}

} // verus!
