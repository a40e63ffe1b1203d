//! Unsigned integers as decimal text.

use vstd::prelude::*;
use vstd::string::StringExecFns;

verus! {

/// The character that writes the digit `d`.
pub open spec fn digit_char(d: nat) -> char {
    if d == 0 {
        '0'
    } else if d == 1 {
        '1'
    } else if d == 2 {
        '2'
    } else if d == 3 {
        '3'
    } else if d == 4 {
        '4'
    } else if d == 5 {
        '5'
    } else if d == 6 {
        '6'
    } else if d == 7 {
        '7'
    } else if d == 8 {
        '8'
    } else {
        '9'
    }
}

/// The decimal numeral of `n`: most significant digit first, no sign and no
/// leading zero, `"0"` for zero.
pub open spec fn decimal(n: nat) -> Seq<char>
    decreases n,
{
    if n < 10 {
        seq![digit_char(n)]
    } else {
        decimal(n / 10).push(digit_char(n % 10))
    }
}

/// The one-character text of a digit.
fn digit_text(d: u64) -> (text: &'static str)
    requires
        d < 10,
    ensures
        text@ == seq![digit_char(d as nat)],
{
    proof {
        reveal_strlit("0");
        reveal_strlit("1");
        reveal_strlit("2");
        reveal_strlit("3");
        reveal_strlit("4");
        reveal_strlit("5");
        reveal_strlit("6");
        reveal_strlit("7");
        reveal_strlit("8");
        reveal_strlit("9");
    }
    if d == 0 {
        "0"
    } else if d == 1 {
        "1"
    } else if d == 2 {
        "2"
    } else if d == 3 {
        "3"
    } else if d == 4 {
        "4"
    } else if d == 5 {
        "5"
    } else if d == 6 {
        "6"
    } else if d == 7 {
        "7"
    } else if d == 8 {
        "8"
    } else {
        "9"
    }
}

/// Appends the decimal numeral of `n` to `out`.
pub fn push_decimal(out: &mut String, n: u64)
    ensures
        final(out)@ == old(out)@ + decimal(n as nat),
    decreases n,
{
    if n >= 10 {
        push_decimal(out, n / 10);
    }
    out.append(digit_text(n % 10));
}

/// The decimal numeral of `n` as a string.
pub fn to_decimal(n: u64) -> (text: String)
    ensures
        text@ == decimal(n as nat),
{
    let mut text = String::new();
    push_decimal(&mut text, n);
    text
}

/// Every numeral has a digit, and a number of two digits or more has a
/// numeral of two characters or more.
pub proof fn lemma_decimal_len(n: nat)
    ensures
        decimal(n).len() >= 1,
        n < 10 <==> decimal(n).len() == 1,
    decreases n,
{
    if n >= 10 {
        lemma_decimal_len(n / 10);
    }
}

/// A numeral holds digits only.
pub proof fn lemma_decimal_digits(n: nat, i: int)
    requires
        0 <= i < decimal(n).len(),
    ensures
        exists|d: nat| d < 10 && decimal(n)[i] == digit_char(d),
    decreases n,
{
    if n >= 10 && i < decimal(n / 10).len() {
        lemma_decimal_digits(n / 10, i);
    }
}

/// Two numbers with the same numeral are the same number.
pub proof fn lemma_decimal_is_injective(a: nat, b: nat)
    requires
        decimal(a) == decimal(b),
    ensures
        a == b,
    decreases a,
{
    lemma_decimal_len(a);
    lemma_decimal_len(b);
    if a < 10 {
        assert(decimal(a)[0] == digit_char(a));
        assert(decimal(b)[0] == digit_char(b));
    } else {
        let left = decimal(a / 10).push(digit_char(a % 10));
        let right = decimal(b / 10).push(digit_char(b % 10));
        assert(left.drop_last() =~= decimal(a / 10));
        assert(right.drop_last() =~= decimal(b / 10));
        assert(left.last() == digit_char(a % 10));
        assert(right.last() == digit_char(b % 10));
        lemma_decimal_is_injective(a / 10, b / 10);
    }
}

/// The first characters of a numeral are the numeral of a number that is no
/// larger, and not of zero unless the number is zero.
pub proof fn lemma_decimal_prefix(n: nat, len: int) -> (head: nat)
    requires
        1 <= len <= decimal(n).len(),
    ensures
        decimal(n).take(len) == decimal(head),
        head <= n,
        n >= 1 ==> head >= 1,
    decreases n,
{
    lemma_decimal_len(n);
    if len == decimal(n).len() {
        assert(decimal(n).take(len) =~= decimal(n));
        n
    } else {
        assert(decimal(n).take(len) =~= decimal(n / 10).take(len));
        lemma_decimal_prefix(n / 10, len)
    }
}

/// The digit that `c` writes, if it writes one.
fn digit_of(c: char) -> (digit: Option<u64>)
    ensures
        match digit {
            Some(d) => d < 10 && c == digit_char(d as nat),
            None => forall|d: nat| d < 10 ==> c != digit_char(d),
        },
{
    if c == '0' {
        Some(0)
    } else if c == '1' {
        Some(1)
    } else if c == '2' {
        Some(2)
    } else if c == '3' {
        Some(3)
    } else if c == '4' {
        Some(4)
    } else if c == '5' {
        Some(5)
    } else if c == '6' {
        Some(6)
    } else if c == '7' {
        Some(7)
    } else if c == '8' {
        Some(8)
    } else if c == '9' {
        Some(9)
    } else {
        None
    }
}

/// Whether `text` is the numeral of a number that fits 64 bits.
pub open spec fn is_numeral(text: Seq<char>) -> bool {
    exists|n: u64| text == decimal(n as nat)
}

/// The number whose numeral `text` is, if it is that of one that fits 64
/// bits.
pub open spec fn decimal_value(text: Seq<char>) -> Option<u64> {
    if is_numeral(text) {
        Some(choose|n: u64| text == decimal(n as nat))
    } else {
        None
    }
}

/// Reading a numeral gives back the number it was written for.
pub proof fn lemma_value_of_decimal(n: u64)
    ensures
        is_numeral(decimal(n as nat)),
        decimal_value(decimal(n as nat)) == Some(n),
{
    let found = choose|m: u64| decimal(n as nat) == decimal(m as nat);
    lemma_decimal_is_injective(n as nat, found as nat);
}

/// Reads a decimal numeral: the number whose numeral `text` is, or `None`
/// where it is the numeral of no `u64`. So an empty text, a sign, a space, a
/// leading zero or a number beyond the largest `u64` all give `None`.
pub fn parse_decimal(text: &str) -> (number: Option<u64>)
    ensures
        number == decimal_value(text@),
        match number {
            Some(n) => text@ == decimal(n as nat),
            None => forall|n: u64| text@ != decimal(n as nat),
        },
{
    let number = read_numeral(text);
    proof {
        if let Some(n) = number {
            lemma_value_of_decimal(n);
        }
    }
    number
}

/// Reads a numeral digit by digit.
fn read_numeral(text: &str) -> (number: Option<u64>)
    ensures
        match number {
            Some(n) => text@ == decimal(n as nat),
            None => forall|n: u64| text@ != decimal(n as nat),
        },
{
    let len = text.unicode_len();
    if len == 0 {
        assert forall|n: u64| text@ != decimal(n as nat) by {
            lemma_decimal_len(n as nat);
        }
        return None;
    }
    let mut value: u64 = 0;
    let mut i: usize = 0;
    while i < len
        invariant
            i <= len,
            len == text@.len(),
            i >= 1 ==> text@.take(i as int) == decimal(value as nat),
        decreases len - i,
    {
        let digit = match digit_of(text.get_char(i)) {
            Some(digit) => digit,
            None => {
                assert forall|n: u64| text@ != decimal(n as nat) by {
                    if text@ == decimal(n as nat) {
                        lemma_decimal_digits(n as nat, i as int);
                    }
                }
                return None;
            },
        };
        if i == 0 {
            value = digit;
        } else {
            let ghost grown = value as nat * 10 + digit as nat;
            proof {
                if value > 0 {
                    assert(text@.take(i + 1) =~= text@.take(i as int).push(text@[i as int]));
                    assert(text@.take(i + 1) == decimal(grown));
                }
            }
            if value == 0 || value > (u64::MAX - digit) / 10 {
                assert forall|n: u64| text@ != decimal(n as nat) by {
                    if text@ == decimal(n as nat) {
                        lemma_decimal_len(n as nat);
                        if value == 0 {
                            let head = lemma_decimal_prefix(n as nat, i as int);
                            lemma_decimal_is_injective(head, 0);
                        } else {
                            let head = lemma_decimal_prefix(n as nat, i + 1);
                            lemma_decimal_is_injective(head, grown);
                        }
                    }
                }
                return None;
            }
            value = value * 10 + digit;
        }
        i = i + 1;
    }
    assert(text@.take(len as int) =~= text@);
    Some(value)
}

} // verus!
