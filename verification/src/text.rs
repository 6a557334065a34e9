//! Decimal text of integers, as it appears in file names and request paths.

use vstd::prelude::*;
use vstd::string::StringExecFns;

verus! {

/// The character of one decimal digit.
pub open spec fn digit_char(d: nat) -> char {
    if d == 0 {
        '0'
    } else if d == 1 {
        '1'
    } else if d == 2 {
        '2'
    } else if d == 3 {
        '3'
    } else if d == 4 {
        '4'
    } else if d == 5 {
        '5'
    } else if d == 6 {
        '6'
    } else if d == 7 {
        '7'
    } else if d == 8 {
        '8'
    } else {
        '9'
    }
}

/// The decimal text of a natural number, without leading zeros.
pub open spec fn decimal(n: nat) -> Seq<char>
    decreases n,
{
    if n < 10 {
        seq![digit_char(n)]
    } else {
        decimal(n / 10).push(digit_char(n % 10))
    }
}

/// The decimal text of a natural number, with a leading zero where it has
/// one digit only.
pub open spec fn decimal_two_wide(n: nat) -> Seq<char> {
    if n < 10 {
        seq!['0'].push(digit_char(n))
    } else {
        decimal(n)
    }
}

/// The decimal text of an integer, with a minus sign where it is negative.
pub open spec fn signed_decimal(n: int) -> Seq<char> {
    if n < 0 {
        seq!['-'] + decimal((-n) as nat)
    } else {
        decimal(n as nat)
    }
}

/// Whether the character is a decimal digit.
pub open spec fn is_digit(c: char) -> bool {
    exists|d: nat| d < 10 && digit_char(d) == c
}

/// The number that a text of decimal digits stands for.
pub open spec fn decimal_value(text: Seq<char>) -> nat
    decreases text.len(),
{
    if text.len() == 0 {
        0
    } else {
        decimal_value(text.drop_last()) * 10 + choose|d: nat| d < 10 && digit_char(d) == text.last()
    }
}

/// The digits have ten different characters, none of them a sign or a
/// separator.
pub proof fn lemma_digit_chars(a: nat, b: nat)
    requires
        a < 10,
        b < 10,
    ensures
        digit_char(a) == digit_char(b) ==> a == b,
        is_digit(digit_char(a)),
        (choose|d: nat| d < 10 && digit_char(d) == digit_char(a)) == a,
        !is_digit('-'),
        !is_digit('_'),
        !is_digit('/'),
{
    let found = choose|d: nat| d < 10 && digit_char(d) == digit_char(a);
    assert(a < 10 && digit_char(a) == digit_char(a));
}

/// The decimal text of a number consists of digits, at least one, and
/// stands for that number.
pub proof fn lemma_decimal_text(n: nat)
    ensures
        decimal(n).len() >= 1,
        forall|i: int| 0 <= i < decimal(n).len() ==> is_digit(#[trigger] decimal(n)[i]),
        decimal_value(decimal(n)) == n,
    decreases n,
{
    lemma_digit_chars(n % 10, 0);
    if n < 10 {
        let text = decimal(n);
        assert(text.drop_last() =~= Seq::<char>::empty());
        assert(decimal_value(text.drop_last()) == 0) by {
            reveal_with_fuel(decimal_value, 1);
        }
        assert(text.last() == digit_char(n));
    } else {
        lemma_decimal_text(n / 10);
        let text = decimal(n);
        assert(text.drop_last() =~= decimal(n / 10));
        assert(text.last() == digit_char(n % 10));
        assert forall|i: int| 0 <= i < text.len() implies is_digit(#[trigger] text[i]) by {
            if i < text.len() - 1 {
                assert(text[i] == decimal(n / 10)[i]);
            }
        }
    }
}

/// Two numbers with the same decimal text are the same number.
pub proof fn lemma_decimal_unique(a: nat, b: nat)
    requires
        decimal(a) == decimal(b),
    ensures
        a == b,
{
    lemma_decimal_text(a);
    lemma_decimal_text(b);
}

/// A number below a hundred has a text of exactly two digits when written
/// two wide, and two such numbers with the same text are the same number.
pub proof fn lemma_two_wide(a: nat, b: nat)
    requires
        a < 100,
        b < 100,
    ensures
        decimal_two_wide(a).len() == 2,
        is_digit(decimal_two_wide(a)[0]),
        is_digit(decimal_two_wide(a)[1]),
        decimal_two_wide(a) == decimal_two_wide(b) ==> a == b,
{
    reveal_with_fuel(decimal, 2);
    lemma_digit_chars(a / 10, b / 10);
    lemma_digit_chars(a % 10, b % 10);
    assert(decimal_two_wide(a) =~= seq![digit_char(a / 10), digit_char(a % 10)]);
    assert(decimal_two_wide(b) =~= seq![digit_char(b / 10), digit_char(b % 10)]);
    if decimal_two_wide(a) == decimal_two_wide(b) {
        assert(decimal_two_wide(a)[0] == decimal_two_wide(b)[0]);
        assert(decimal_two_wide(a)[1] == decimal_two_wide(b)[1]);
    }
}

/// Two integers with the same signed decimal text are the same integer.
pub proof fn lemma_signed_decimal_unique(a: int, b: int)
    requires
        signed_decimal(a) == signed_decimal(b),
    ensures
        a == b,
{
    lemma_digit_chars(0, 0);
    let text_a = signed_decimal(a);
    let text_b = signed_decimal(b);
    if a < 0 {
        lemma_decimal_text((-a) as nat);
        assert(text_a[0] == '-');
        if b >= 0 {
            lemma_decimal_text(b as nat);
            assert(is_digit(text_b[0]));
        } else {
            lemma_decimal_text((-b) as nat);
            assert(decimal((-a) as nat) =~= text_a.subrange(1, text_a.len() as int));
            assert(decimal((-b) as nat) =~= text_b.subrange(1, text_b.len() as int));
            lemma_decimal_unique((-a) as nat, (-b) as nat);
        }
    } else {
        lemma_decimal_text(a as nat);
        assert(is_digit(text_a[0]));
        if b < 0 {
            lemma_decimal_text((-b) as nat);
            assert(text_b[0] == '-');
        } else {
            lemma_decimal_unique(a as nat, b as nat);
        }
    }
}

/// A text that ends in a separator and a number can be taken apart in one
/// way only: where two such texts are the same, so are the numbers and what
/// stands before the separators.
pub proof fn lemma_split_at_separator(
    left: Seq<char>,
    a: nat,
    right: Seq<char>,
    b: nat,
    separator: char,
)
    requires
        !is_digit(separator),
        left.push(separator) + decimal(a) == right.push(separator) + decimal(b),
    ensures
        left == right,
        a == b,
{
    lemma_decimal_text(a);
    lemma_decimal_text(b);
    let whole = left.push(separator) + decimal(a);
    let other = right.push(separator) + decimal(b);
    assert(whole.len() == left.len() + 1 + decimal(a).len());
    assert(other.len() == right.len() + 1 + decimal(b).len());
    if left.len() > right.len() {
        let at = left.len() as int;
        assert(whole[at] == separator);
        assert(other[at] == decimal(b)[at - right.len() - 1]);
        assert(false);
    }
    if left.len() < right.len() {
        let at = right.len() as int;
        assert(other[at] == separator);
        assert(whole[at] == decimal(a)[at - left.len() - 1]);
        assert(false);
    }
    assert(left =~= right) by {
        assert forall|i: int| 0 <= i < left.len() implies left[i] == right[i] by {
            assert(whole[i] == left[i]);
            assert(other[i] == right[i]);
        }
    }
    assert(decimal(a) =~= decimal(b)) by {
        assert forall|i: int| 0 <= i < decimal(a).len() implies decimal(a)[i] == decimal(b)[i] by {
            assert(whole[left.len() + 1 + i] == decimal(a)[i]);
            assert(other[right.len() + 1 + i] == decimal(b)[i]);
        }
    }
    lemma_decimal_unique(a, b);
}

/// The text of one decimal digit.
pub fn digit_text(d: u64) -> (text: &'static str)
    requires
        d < 10,
    ensures
        text@ == seq![digit_char(d as nat)],
{
    proof {
        reveal_strlit("0");
        reveal_strlit("1");
        reveal_strlit("2");
        reveal_strlit("3");
        reveal_strlit("4");
        reveal_strlit("5");
        reveal_strlit("6");
        reveal_strlit("7");
        reveal_strlit("8");
        reveal_strlit("9");
    }
    if d == 0 {
        "0"
    } else if d == 1 {
        "1"
    } else if d == 2 {
        "2"
    } else if d == 3 {
        "3"
    } else if d == 4 {
        "4"
    } else if d == 5 {
        "5"
    } else if d == 6 {
        "6"
    } else if d == 7 {
        "7"
    } else if d == 8 {
        "8"
    } else {
        "9"
    }
}

/// Appends the decimal text of `n` to `out`.
pub fn push_decimal(out: &mut String, n: u64)
    ensures
        final(out)@ == old(out)@ + decimal(n as nat),
    decreases n,
{
    if n >= 10 {
        push_decimal(out, n / 10);
    }
    out.append(digit_text(n % 10));
}

/// Appends the decimal text of `n` to `out`, at least two characters wide.
pub fn push_decimal_two_wide(out: &mut String, n: u64)
    ensures
        final(out)@ == old(out)@ + decimal_two_wide(n as nat),
{
    if n < 10 {
        out.append("0");
        proof {
            reveal_strlit("0");
        }
    }
    push_decimal(out, n);
}

/// Appends the decimal text of `n` to `out`, with a minus sign where `n` is
/// negative.
pub fn push_signed_decimal(out: &mut String, n: i32)
    ensures
        final(out)@ == old(out)@ + signed_decimal(n as int),
{
    let wide: i64 = n as i64;
    if wide < 0 {
        out.append("-");
        proof {
            reveal_strlit("-");
        }
        push_decimal(out, (-wide) as u64);
    } else {
        push_decimal(out, wide as u64);
    }
}

} // verus!
