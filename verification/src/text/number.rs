use crate::text::chars::chars_of;
use vstd::prelude::*;

verus! {

/// The character that writes the digit `d`.
pub open spec fn digit_char(d: nat) -> char
    recommends
        d < 10,
{
    if d == 0 {
        '0'
    } else if d == 1 {
        '1'
    } else if d == 2 {
        '2'
    } else if d == 3 {
        '3'
    } else if d == 4 {
        '4'
    } else if d == 5 {
        '5'
    } else if d == 6 {
        '6'
    } else if d == 7 {
        '7'
    } else if d == 8 {
        '8'
    } else {
        '9'
    }
}

/// `n` written in base ten, without sign or leading zeros.
pub open spec fn decimal(n: nat) -> Seq<char>
    decreases n,
{
    if n < 10 {
        seq![digit_char(n)]
    } else {
        decimal(n / 10).push(digit_char(n % 10))
    }
}

/// `i` written in base ten, with a leading `-` when it is negative.
pub open spec fn signed_decimal(i: int) -> Seq<char> {
    if i < 0 {
        seq!['-'] + decimal((-i) as nat)
    } else {
        decimal(i as nat)
    }
}

/// The text that writes the digit `d`.
fn digit_text(d: u64) -> (t: &'static str)
    requires
        d < 10,
    ensures
        t@ == seq![digit_char(d as nat)],
{
    proof {
        reveal_strlit("0");
        reveal_strlit("1");
        reveal_strlit("2");
        reveal_strlit("3");
        reveal_strlit("4");
        reveal_strlit("5");
        reveal_strlit("6");
        reveal_strlit("7");
        reveal_strlit("8");
        reveal_strlit("9");
    }
    if d == 0 {
        "0"
    } else if d == 1 {
        "1"
    } else if d == 2 {
        "2"
    } else if d == 3 {
        "3"
    } else if d == 4 {
        "4"
    } else if d == 5 {
        "5"
    } else if d == 6 {
        "6"
    } else if d == 7 {
        "7"
    } else if d == 8 {
        "8"
    } else {
        "9"
    }
}

/// Writes `n` in base ten.
pub fn decimal_text(n: u64) -> (t: String)
    ensures
        t@ == decimal(n as nat),
    decreases n,
{
    if n < 10 {
        String::from_str(digit_text(n))
    } else {
        let mut t = decimal_text(n / 10);
        t.append(digit_text(n % 10));
        t
    }
}

/// Writes `i` in base ten, with a leading `-` when it is negative.
pub fn signed_decimal_text(i: i64) -> (t: String)
    ensures
        t@ == signed_decimal(i as int),
{
    if i < 0 {
        let magnitude: u64 = if i == i64::MIN {
            9223372036854775808u64
        } else {
            (-i) as u64
        };
        proof {
            reveal_strlit("-");
        }
        let mut t = String::from_str("-");
        let digits = decimal_text(magnitude);
        t.append(digits.as_str());
        t
    } else {
        decimal_text(i as u64)
    }
}

/// The value of a decimal digit, if `c` is one.
pub open spec fn digit_of(c: char) -> Option<nat> {
    if c == '0' {
        Some(0)
    } else if c == '1' {
        Some(1)
    } else if c == '2' {
        Some(2)
    } else if c == '3' {
        Some(3)
    } else if c == '4' {
        Some(4)
    } else if c == '5' {
        Some(5)
    } else if c == '6' {
        Some(6)
    } else if c == '7' {
        Some(7)
    } else if c == '8' {
        Some(8)
    } else if c == '9' {
        Some(9)
    } else {
        None
    }
}

/// Whether every character of `s` is a decimal digit.
pub open spec fn all_digits(s: Seq<char>) -> bool {
    forall|i: int| 0 <= i < s.len() ==> (#[trigger] digit_of(s[i])) is Some
}

/// The number that the digits `s` write in base ten.
pub open spec fn digits_value(s: Seq<char>) -> nat
    decreases s.len(),
{
    if s.len() == 0 {
        0
    } else {
        digits_value(s.drop_last()) * 10 + match digit_of(s.last()) {
            Some(d) => d,
            None => 0,
        }
    }
}

/// The integer that `s` writes: an optional `+` or `-`, then one digit or more, and
/// nothing else.
pub open spec fn parse_decimal(s: Seq<char>) -> Option<int> {
    if s.len() == 0 {
        None
    } else {
        let signed = s[0] == '-' || s[0] == '+';
        let digits = if signed {
            s.drop_first()
        } else {
            s
        };
        if digits.len() == 0 || !all_digits(digits) {
            None
        } else if s[0] == '-' {
            Some(-(digits_value(digits) as int))
        } else {
            Some(digits_value(digits) as int)
        }
    }
}

/// The integer that `s` writes, if it lies between `min` and `max`.
pub open spec fn parse_within(s: Seq<char>, min: int, max: int) -> Option<int> {
    match parse_decimal(s) {
        Some(v) => if min <= v <= max {
            Some(v)
        } else {
            None
        },
        None => None,
    }
}

/// The digits read so far never write more than all of them do.
proof fn lemma_digits_value_grows(s: Seq<char>, k: int)
    requires
        0 <= k <= s.len(),
    ensures
        digits_value(s.take(k)) <= digits_value(s),
    decreases s.len(),
{
    if k == s.len() {
        assert(s.take(k) =~= s);
    } else {
        lemma_digits_value_grows(s.drop_last(), k);
        assert(s.drop_last().take(k) =~= s.take(k));
    }
}

/// The value of `c` as a decimal digit, if it is one.
fn digit_value(c: char) -> (d: Option<u64>)
    ensures
        match d {
            Some(v) => digit_of(c) == Some(v as nat) && v < 10,
            None => digit_of(c) is None,
        },
{
    if c == '0' {
        Some(0)
    } else if c == '1' {
        Some(1)
    } else if c == '2' {
        Some(2)
    } else if c == '3' {
        Some(3)
    } else if c == '4' {
        Some(4)
    } else if c == '5' {
        Some(5)
    } else if c == '6' {
        Some(6)
    } else if c == '7' {
        Some(7)
    } else if c == '8' {
        Some(8)
    } else if c == '9' {
        Some(9)
    } else {
        None
    }
}

/// Reads a signed decimal integer that must lie between `min` and `max`.
pub fn parse_integer(s: &str, min: i64, max: i64) -> (value: Option<i64>)
    ensures
        match value {
            Some(v) => parse_within(s@, min as int, max as int) == Some(v as int),
            None => parse_within(s@, min as int, max as int) is None,
        },
{
    let text = chars_of(s);
    if text.len() == 0 {
        return None;
    }
    let negative = text[0] == '-';
    let first: usize = if negative || text[0] == '+' {
        1
    } else {
        0
    };
    if first == text.len() {
        return None;
    }
    let limit: u64 = if negative {
        9223372036854775808u64
    } else {
        i64::MAX as u64
    };
    let ghost digits = text@.subrange(first as int, text.len() as int);
    assert(digits =~= if first == 1 {
        s@.drop_first()
    } else {
        s@
    });
    let mut acc: u64 = 0;
    let mut i: usize = first;
    assert(digits.take(0) =~= Seq::<char>::empty());
    while i < text.len()
        invariant
            text@ == s@,
            first <= i <= text.len(),
            text.len() > 0,
            negative == (text@[0] == '-'),
            first == 1 <==> (text@[0] == '-' || text@[0] == '+'),
            negative ==> limit == -i64::MIN,
            !negative ==> limit == i64::MAX,
            digits == text@.subrange(first as int, text.len() as int),
            digits == if first == 1 {
                s@.drop_first()
            } else {
                s@
            },
            all_digits(digits.take(i - first)),
            acc == digits_value(digits.take(i - first)),
            acc <= limit <= 9223372036854775808u64,
        decreases text.len() - i,
    {
        let ghost k = i - first;
        match digit_value(text[i]) {
            None => {
                assert(digits[k] == text@[i as int]);
                return None;
            },
            Some(d) => {
                let next: u128 = acc as u128 * 10 + d as u128;
                proof {
                    assert(digits.take(k + 1).drop_last() =~= digits.take(k));
                    assert(digits.take(k + 1).last() == text@[i as int]);
                    assert(digits_value(digits.take(k + 1)) == next);
                    assert forall|j: int| 0 <= j < k + 1 implies (#[trigger] digit_of(
                        digits.take(k + 1)[j],
                    )) is Some by {
                        if j < k {
                            assert(digits.take(k + 1)[j] == digits.take(k)[j]);
                        }
                    }
                }
                if next > limit as u128 {
                    proof {
                        lemma_digits_value_grows(digits, k + 1);
                    }
                    return None;
                }
                acc = next as u64;
            },
        }
        i += 1;
    }
    assert(digits.take(i - first) =~= digits);
    let read: i64 = if !negative {
        acc as i64
    } else if acc == 9223372036854775808u64 {
        i64::MIN
    } else {
        -(acc as i64)
    };
    if min <= read && read <= max {
        Some(read)
    } else {
        None
    }
}

/// A number as it is written holds digits only, one at least, and they write the
/// number.
pub proof fn lemma_decimal_reads_back(n: nat)
    ensures
        decimal(n).len() >= 1,
        all_digits(decimal(n)),
        digits_value(decimal(n)) == n,
        digit_of(decimal(n)[0]) is Some,
    decreases n,
{
    if n < 10 {
        assert(decimal(n).drop_last() =~= Seq::<char>::empty());
        assert(digits_value(decimal(n).drop_last()) == 0);
    } else {
        lemma_decimal_reads_back(n / 10);
        let shorter = decimal(n / 10);
        assert(decimal(n).drop_last() =~= shorter);
        assert(decimal(n).last() == digit_char(n % 10));
        assert(decimal(n)[0] == shorter[0]);
        assert forall|i: int| 0 <= i < decimal(n).len() implies (#[trigger] digit_of(
            decimal(n)[i],
        )) is Some by {
            if i < shorter.len() {
                assert(decimal(n)[i] == shorter[i]);
            }
        }
    }
}

/// Reading an integer as it is written, sign and all, gives the integer back.
pub proof fn lemma_signed_decimal_reads_back(i: int)
    ensures
        parse_decimal(signed_decimal(i)) == Some(i),
{
    if i < 0 {
        let digits = decimal((-i) as nat);
        lemma_decimal_reads_back((-i) as nat);
        assert(signed_decimal(i).drop_first() =~= digits);
        assert(signed_decimal(i)[0] == '-');
    } else {
        lemma_decimal_reads_back(i as nat);
        let first = decimal(i as nat)[0];
        assert(first != '-' && first != '+');
    }
}

} // verus!
