//! Integers as decimal text, written and read.

use vstd::prelude::*;

verus! {

/// The character of one decimal digit.
pub open spec fn digit_char(d: int) -> char {
    if d == 0 {
        '0'
    } else if d == 1 {
        '1'
    } else if d == 2 {
        '2'
    } else if d == 3 {
        '3'
    } else if d == 4 {
        '4'
    } else if d == 5 {
        '5'
    } else if d == 6 {
        '6'
    } else if d == 7 {
        '7'
    } else if d == 8 {
        '8'
    } else {
        '9'
    }
}

/// The digits of a natural number, most significant first, without leading
/// zeros (zero itself is the single digit `0`).
pub open spec fn decimal_nat(n: nat) -> Seq<char>
    decreases n,
{
    if n < 10 {
        seq![digit_char(n as int)]
    } else {
        decimal_nat(n / 10).push(digit_char((n % 10) as int))
    }
}

/// The decimal text of an integer: a minus sign before the digits of a
/// negative number, no sign otherwise.
pub open spec fn decimal(n: int) -> Seq<char> {
    if n < 0 {
        seq!['-'] + decimal_nat((-n) as nat)
    } else {
        decimal_nat(n as nat)
    }
}

fn digit_str(d: u64) -> (s: &'static str)
    requires
        d < 10,
    ensures
        s@ == seq![digit_char(d as int)],
{
    proof {
        reveal_strlit("0");
        reveal_strlit("1");
        reveal_strlit("2");
        reveal_strlit("3");
        reveal_strlit("4");
        reveal_strlit("5");
        reveal_strlit("6");
        reveal_strlit("7");
        reveal_strlit("8");
        reveal_strlit("9");
    }
    let s = if d == 0 {
        "0"
    } else if d == 1 {
        "1"
    } else if d == 2 {
        "2"
    } else if d == 3 {
        "3"
    } else if d == 4 {
        "4"
    } else if d == 5 {
        "5"
    } else if d == 6 {
        "6"
    } else if d == 7 {
        "7"
    } else if d == 8 {
        "8"
    } else {
        "9"
    };
    assert(s@ =~= seq![digit_char(d as int)]);
    s
}

fn append_decimal_nat(out: &mut String, n: u64)
    ensures
        final(out)@ == old(out)@ + decimal_nat(n as nat),
    decreases n,
{
    if n >= 10 {
        append_decimal_nat(out, n / 10);
    }
    out.append(digit_str(n % 10));
    proof {
        let head = old(out)@;
        if n >= 10 {
            assert(out@ =~= head + decimal_nat((n / 10) as nat).push(digit_char((n % 10) as int)));
        } else {
            assert(out@ =~= head + seq![digit_char(n as int)]);
        }
    }
}

/// Appends the decimal text of `n` to `out`.
pub fn append_decimal(out: &mut String, n: i64)
    ensures
        final(out)@ == old(out)@ + decimal(n as int),
{
    if n < 0 {
        proof {
            reveal_strlit("-");
        }
        out.append("-");
        let magnitude: u64 = ((-(n + 1)) as u64) + 1;
        append_decimal_nat(out, magnitude);
        assert(out@ =~= old(out)@ + (seq!['-'] + decimal_nat((-n) as nat)));
    } else {
        append_decimal_nat(out, n as u64);
    }
}

/// The decimal text of `n`.
pub fn decimal_string(n: i64) -> (s: String)
    ensures
        s@ == decimal(n as int),
{
    let mut s = String::new();
    append_decimal(&mut s, n);
    s
}

/// Whether a character is one of the digits `0` to `9`.
pub open spec fn is_digit(c: char) -> bool {
    '0' <= c && c <= '9'
}

/// The value of a digit.
pub open spec fn digit_value(c: char) -> int {
    (c as u32) as int - 48
}

/// Whether a text is made of digits only.
pub open spec fn all_digits(s: Seq<char>) -> bool {
    forall|i: int| 0 <= i < s.len() ==> is_digit(#[trigger] s[i])
}

/// The number that a text of digits writes, read from the left; leading
/// zeros count for nothing.
pub open spec fn digits_value(s: Seq<char>) -> int
    decreases s.len(),
{
    if s.len() == 0 {
        0
    } else {
        10 * digits_value(s.drop_last()) + digit_value(s.last())
    }
}

/// Whether a text starts with a sign.
pub open spec fn is_signed(s: Seq<char>) -> bool {
    s.len() > 0 && (s[0] == '-' || s[0] == '+')
}

/// The integer that a text writes: an optional sign, `+` or `-`, and after
/// it one digit or more and nothing else. Any other text writes no integer.
pub open spec fn parsed_integer(s: Seq<char>) -> Option<int> {
    let digits = if is_signed(s) {
        s.skip(1)
    } else {
        s
    };
    if digits.len() > 0 && all_digits(digits) {
        if s[0] == '-' {
            Some(-digits_value(digits))
        } else {
            Some(digits_value(digits))
        }
    } else {
        None
    }
}

/// The 64-bit integer that a text writes: the integer it writes, where it
/// writes one that 64 bits can hold.
pub open spec fn parsed_i64(s: Seq<char>) -> Option<i64> {
    match parsed_integer(s) {
        Some(n) => if i64::MIN <= n <= i64::MAX {
            Some(n as i64)
        } else {
            None
        },
        None => None,
    }
}

/// The first digits of a text of digits write no more than all of them.
pub proof fn lemma_digits_value_grows(s: Seq<char>, k: int)
    requires
        all_digits(s),
        0 <= k <= s.len(),
    ensures
        0 <= digits_value(s.take(k)) <= digits_value(s),
    decreases s.len() - k,
{
    if k == s.len() {
        assert(s.take(k) =~= s);
        lemma_digits_value_nonnegative(s);
    } else {
        lemma_digits_value_grows(s, k + 1);
        let longer = s.take(k + 1);
        assert(longer.drop_last() =~= s.take(k));
        assert(is_digit(s[k]));
        assert(longer.last() == s[k]);
        lemma_digits_value_nonnegative(s.take(k));
    }
}

/// A text of digits writes no negative number.
pub proof fn lemma_digits_value_nonnegative(s: Seq<char>)
    requires
        all_digits(s),
    ensures
        0 <= digits_value(s),
    decreases s.len(),
{
    if s.len() > 0 {
        assert(is_digit(s.last()));
        lemma_digits_value_nonnegative(s.drop_last());
    }
}

/// The digits of a natural number are digits, at least one, and write that
/// number.
pub proof fn lemma_decimal_nat_reads_back(n: nat)
    ensures
        decimal_nat(n).len() > 0,
        all_digits(decimal_nat(n)),
        digits_value(decimal_nat(n)) == n,
    decreases n,
{
    let last = digit_char((n % 10) as int);
    assert(is_digit(last) && digit_value(last) == n % 10);
    if n < 10 {
        assert(decimal_nat(n).drop_last() =~= Seq::<char>::empty());
        assert(digits_value(Seq::<char>::empty()) == 0);
        assert(decimal_nat(n).last() == last);
    } else {
        lemma_decimal_nat_reads_back(n / 10);
        let head = decimal_nat(n / 10);
        assert(decimal_nat(n).drop_last() =~= head);
        assert(decimal_nat(n).last() == last);
        assert forall|i: int| 0 <= i < decimal_nat(n).len() implies is_digit(
            #[trigger] decimal_nat(n)[i],
        ) by {
            if i < head.len() {
                assert(decimal_nat(n)[i] == head[i]);
            }
        }
    }
}

/// What is written is read back: the decimal text of a 64-bit integer writes
/// that integer.
pub proof fn lemma_decimal_reads_back(n: i64)
    ensures
        parsed_i64(decimal(n as int)) == Some(n),
{
    if n < 0 {
        let digits = decimal_nat((-n) as nat);
        lemma_decimal_nat_reads_back((-n) as nat);
        assert(decimal(n as int).skip(1) =~= digits);
        assert(decimal(n as int)[0] == '-');
    } else {
        let digits = decimal_nat(n as nat);
        lemma_decimal_nat_reads_back(n as nat);
        assert(is_digit(digits[0]));
    }
}

proof fn lemma_char_floor(c: char)
    ensures
        '\0' <= c,
{
}

proof fn lemma_beyond_ascii(s: Seq<char>)
    requires
        !vstd::utf8::is_ascii_chars(s),
    ensures
        exists|i: int| 0 <= i < s.len() && #[trigger] s[i] > '\u{7f}',
{
    if !(exists|i: int| 0 <= i < s.len() && #[trigger] s[i] > '\u{7f}') {
        assert forall|i: int| 0 <= i < s.len() implies '\0' <= #[trigger] s[i] <= '\u{7f}' by {
            lemma_char_floor(s[i]);
            assert(!(s[i] > '\u{7f}'));
        }
        assert(vstd::utf8::is_ascii_chars(s));
    }
}

proof fn lemma_ascii_byte(c: char, b: u8)
    requires
        c <= '\u{7f}',
        b == c as u8,
    ensures
        b as int == (c as u32) as int,
        is_digit(c) <==> 48 <= b <= 57,
        c == '-' <==> b == 45,
        c == '+' <==> b == 43,
{
    assert('0' as u32 == 48);
    assert('9' as u32 == 57);
    assert('-' as u32 == 45);
    assert('+' as u32 == 43);
    assert((c as u32) < 128);
}

/// Reads a 64-bit integer from its decimal text.
///
/// The text is an optional sign, `+` or `-`, and one digit or more after it.
/// Anything else, blanks included, and any number that 64 bits cannot hold,
/// gives `None`.
pub fn parse_i64(text: &str) -> (r: Option<i64>)
    ensures
        r == parsed_i64(text@),
{
    broadcast use vstd::string::is_ascii_spec_bytes;

    let ghost s = text@;
    if !text.is_ascii() {
        proof {
            lemma_beyond_ascii(s);
            let i = choose|i: int| 0 <= i < s.len() && #[trigger] s[i] > '\u{7f}';
            if is_signed(s) {
                assert(i > 0);
                assert(s.skip(1)[i - 1] == s[i]);
                assert(!is_digit(s.skip(1)[i - 1]));
            } else {
                assert(!is_digit(s[i]));
            }
        }
        return None;
    }
    let bytes = text.as_bytes();
    let n = bytes.len();
    assert(n == s.len());
    assert(forall|i: int| 0 <= i < n ==> #[trigger] bytes@[i] == s[i] as u8);
    assert(forall|i: int| 0 <= i < n ==> (#[trigger] s[i]) <= '\u{7f}');
    if n == 0 {
        return None;
    }
    let negative = bytes[0] == 45u8;
    let start: usize = if bytes[0] == 45u8 || bytes[0] == 43u8 {
        1
    } else {
        0
    };
    assert(bytes@[0] == s[0] as u8);
    assert(s[0] <= '\u{7f}');
    proof {
        lemma_ascii_byte(s[0], bytes@[0]);
    }
    assert(is_signed(s) == (start == 1));
    assert(negative == (s[0] == '-'));
    let ghost digits = if is_signed(s) {
        s.skip(1)
    } else {
        s
    };
    assert(digits.len() == n - start);
    if start == n {
        return None;
    }
    let mut magnitude: i128 = 0;
    let mut i: usize = start;
    while i < n
        invariant
            start <= i <= n,
            s == text@,
            n == s.len(),
            n == bytes@.len(),
            n > 0,
            negative == (s[0] == '-'),
            digits == if is_signed(s) {
                s.skip(1)
            } else {
                s
            },
            digits.len() == n - start,
            forall|k: int| 0 <= k < n - start ==> digits[k] == s[k + start],
            forall|k: int| 0 <= k < n ==> #[trigger] bytes@[k] == s[k] as u8,
            forall|k: int| 0 <= k < n ==> (#[trigger] s[k]) <= '\u{7f}',
            all_digits(digits.take(i - start)),
            magnitude == digits_value(digits.take(i - start)),
            0 <= magnitude <= 0x8000_0000_0000_0000,
        decreases n - i,
    {
        let b = bytes[i];
        assert(b == bytes@[i as int]);
        let ghost c = digits[i - start];
        assert(c == s[i as int]);
        assert(bytes@[i as int] == c as u8);
        assert(c <= '\u{7f}');
        proof {
            lemma_ascii_byte(c, b);
        }
        if b < 48u8 || b > 57u8 {
            assert(!is_digit(c));
            return None;
        }
        assert(is_digit(c));
        assert(digit_value(c) == b - 48);
        proof {
            let longer = digits.take(i - start + 1);
            assert(longer.drop_last() =~= digits.take(i - start));
            assert(longer.last() == c);
            assert forall|k: int| 0 <= k < longer.len() implies is_digit(#[trigger] longer[k]) by {
                if k < i - start {
                    assert(digits.take(i - start)[k] == longer[k]);
                }
            }
        }
        magnitude = magnitude * 10 + (b - 48u8) as i128;
        if magnitude > 0x8000_0000_0000_0000 {
            proof {
                if all_digits(digits) {
                    lemma_digits_value_grows(digits, i - start + 1);
                }
            }
            return None;
        }
        i += 1;
    }
    assert(digits.take(n - start) =~= digits);
    if negative {
        Some((-magnitude) as i64)
    } else if magnitude > i64::MAX as i128 {
        None
    } else {
        Some(magnitude as i64)
    }
}

} // verus!
