use vstd::prelude::*;

verus! {

/// The character of a decimal digit; `d` is meant to be below ten.
pub open spec fn digit_char(d: nat) -> char {
    if d == 0 {
        '0'
    } else if d == 1 {
        '1'
    } else if d == 2 {
        '2'
    } else if d == 3 {
        '3'
    } else if d == 4 {
        '4'
    } else if d == 5 {
        '5'
    } else if d == 6 {
        '6'
    } else if d == 7 {
        '7'
    } else if d == 8 {
        '8'
    } else {
        '9'
    }
}

/// The numeric value of a decimal digit character (meaningful for '0'..='9').
pub open spec fn digit_value(c: char) -> int {
    (c as int) - ('0' as int)
}

/// Whether a character is one of '0'..='9'.
pub open spec fn is_digit(c: char) -> bool {
    '0' <= c && c <= '9'
}

/// The decimal text of a natural number, most significant digit first, with
/// no leading zeros: the text Rust's `Display` writes for an unsigned integer.
pub open spec fn decimal_text(n: nat) -> Seq<char>
    decreases n,
{
    if n < 10 {
        seq![digit_char(n)]
    } else {
        decimal_text(n / 10).push(digit_char(n % 10))
    }
}

/// The decimal text of an integer: a leading '-' for negative values, then
/// the digits of the magnitude, as Rust's `Display` writes a signed integer.
pub open spec fn signed_decimal_text(v: int) -> Seq<char> {
    if v < 0 {
        seq!['-'] + decimal_text((-v) as nat)
    } else {
        decimal_text(v as nat)
    }
}

/// The number that a string of decimal digits denotes.
pub open spec fn decimal_value(s: Seq<char>) -> int
    decreases s.len(),
{
    if s.len() == 0 {
        0
    } else {
        decimal_value(s.drop_last()) * 10 + digit_value(s.last())
    }
}

proof fn lemma_digit_char(d: nat)
    requires
        d < 10,
    ensures
        is_digit(digit_char(d)),
        digit_value(digit_char(d)) == d,
{
}

/// The decimal text of `n` is a non-empty string of digits that denotes `n`
/// and starts with '0' only when `n` is zero: it reads back as the number
/// written, and it is the canonical spelling of that number.
pub proof fn lemma_decimal_text_round_trip(n: nat)
    ensures
        decimal_text(n).len() > 0,
        forall|i: int| 0 <= i < decimal_text(n).len() ==> is_digit(#[trigger] decimal_text(n)[i]),
        decimal_value(decimal_text(n)) == n,
        decimal_text(n)[0] == '0' ==> n == 0,
    decreases n,
{
    if n < 10 {
        lemma_digit_char(n);
        assert(decimal_text(n).drop_last() =~= Seq::<char>::empty());
        assert(decimal_value(Seq::<char>::empty()) == 0);
    } else {
        lemma_decimal_text_round_trip(n / 10);
        lemma_digit_char(n % 10);
        let t = decimal_text(n);
        assert(t.drop_last() =~= decimal_text(n / 10));
        assert forall|i: int| 0 <= i < t.len() implies is_digit(#[trigger] t[i]) by {
            if i < t.len() - 1 {
                assert(t[i] == decimal_text(n / 10)[i]);
            }
        }
        assert(t[0] == decimal_text(n / 10)[0]);
        assert(t.last() == digit_char(n % 10));
        assert(decimal_value(t) == decimal_value(decimal_text(n / 10)) * 10 + digit_value(
            digit_char(n % 10),
        ));
        assert((n / 10) * 10 + n % 10 == n);
    }
}

/// A non-empty string of decimal digits.
pub open spec fn is_digit_string(s: Seq<char>) -> bool {
    s.len() > 0 && forall|i: int| 0 <= i < s.len() ==> is_digit(#[trigger] s[i])
}

/// The text is an integer written in decimal that denotes `v`: a '-' then
/// digits for a negative `v`, digits alone otherwise, the digits reading
/// back as the magnitude of `v`.
pub open spec fn reads_back_as(text: Seq<char>, v: int) -> bool {
    if text.len() > 0 && text[0] == '-' {
        &&& v < 0
        &&& is_digit_string(text.drop_first())
        &&& decimal_value(text.drop_first()) == -v
    } else {
        &&& v >= 0
        &&& is_digit_string(text)
        &&& decimal_value(text) == v
    }
}

/// The signed decimal text of `v` reads back as `v`: it starts with '-'
/// exactly when `v` is negative, and its digits denote the magnitude.
pub proof fn lemma_signed_decimal_text_reads_back(v: int)
    ensures
        reads_back_as(signed_decimal_text(v), v),
{
    if v < 0 {
        let m = (-v) as nat;
        lemma_decimal_text_round_trip(m);
        let t = signed_decimal_text(v);
        assert(t.drop_first() =~= decimal_text(m));
    } else {
        lemma_decimal_text_round_trip(v as nat);
        let t = decimal_text(v as nat);
        assert(is_digit(t[0]));
    }
}

/// The decimal text of `n` reads back as `n`.
pub proof fn lemma_decimal_text_reads_back(n: nat)
    ensures
        reads_back_as(decimal_text(n), n as int),
{
    lemma_decimal_text_round_trip(n);
    assert(is_digit(decimal_text(n)[0]));
}

/// The character string of one decimal digit.
fn digit_str(d: u128) -> (s: &'static str)
    requires
        d < 10,
    ensures
        s@ == seq![digit_char(d as nat)],
{
    if d == 0 {
        proof {
            reveal_strlit("0");
        }
        "0"
    } else if d == 1 {
        proof {
            reveal_strlit("1");
        }
        "1"
    } else if d == 2 {
        proof {
            reveal_strlit("2");
        }
        "2"
    } else if d == 3 {
        proof {
            reveal_strlit("3");
        }
        "3"
    } else if d == 4 {
        proof {
            reveal_strlit("4");
        }
        "4"
    } else if d == 5 {
        proof {
            reveal_strlit("5");
        }
        "5"
    } else if d == 6 {
        proof {
            reveal_strlit("6");
        }
        "6"
    } else if d == 7 {
        proof {
            reveal_strlit("7");
        }
        "7"
    } else if d == 8 {
        proof {
            reveal_strlit("8");
        }
        "8"
    } else {
        proof {
            reveal_strlit("9");
        }
        "9"
    }
}

/// Writes an unsigned number in decimal.
pub fn render_unsigned(n: u128) -> (s: String)
    ensures
        s@ == decimal_text(n as nat),
    decreases n,
{
    if n < 10 {
        String::from_str(digit_str(n))
    } else {
        let mut s = render_unsigned(n / 10);
        s.append(digit_str(n % 10));
        s
    }
}

/// Writes a signed number in decimal, with a leading '-' when it is negative.
pub fn render_signed(v: i128) -> (s: String)
    ensures
        s@ == signed_decimal_text(v as int),
{
    if v < 0 {
        let magnitude: u128 = ((-(v + 1)) as u128) + 1;
        let mut s = String::from_str("-");
        proof {
            reveal_strlit("-");
        }
        let digits = render_unsigned(magnitude);
        s.append(digits.as_str());
        s
    } else {
        render_unsigned(v as u128)
    }
}

} // verus!
