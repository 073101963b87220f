//! Decimal numerals: what a string of digits denotes and how a number is written.

use crate::text::push_char;
use vstd::prelude::*;

verus! {

/// `c` is one of `0` to `9`.
pub open spec fn is_digit(c: char) -> bool {
    48 <= c as int <= 57
}

/// The number that the digit `c` stands for.
pub open spec fn digit_value(c: char) -> nat {
    (c as int - 48) as nat
}

/// The digit that stands for `d`, for `d` below ten.
pub open spec fn digit_char(d: nat) -> char {
    (d + 48) as u8 as char
}

/// Every character of `s` is a digit.
pub open spec fn all_digits(s: Seq<char>) -> bool {
    forall|i: int| 0 <= i < s.len() ==> is_digit(#[trigger] s[i])
}

/// The number that a string of digits denotes, the last digit counting least.
pub open spec fn digits_value(s: Seq<char>) -> nat
    decreases s.len(),
{
    if s.len() == 0 {
        0
    } else {
        digits_value(s.drop_last()) * 10 + digit_value(s.last())
    }
}

/// `s` without one leading `+`, if it has one.
pub open spec fn unsigned_body(s: Seq<char>) -> Seq<char> {
    if s.len() > 0 && s[0] == '+' {
        s.drop_first()
    } else {
        s
    }
}

/// The number that an unsigned numeral denotes: an optional `+`, then one digit
/// or more, and nothing else. Anything else denotes nothing.
pub open spec fn numeral_value(s: Seq<char>) -> Option<nat> {
    let body = unsigned_body(s);
    if body.len() > 0 && all_digits(body) {
        Some(digits_value(body))
    } else {
        None
    }
}

/// The shortest string of digits that denotes `n`.
pub open spec fn decimal_text(n: nat) -> Seq<char>
    decreases n,
{
    if n < 10 {
        seq![digit_char(n)]
    } else {
        decimal_text(n / 10).push(digit_char(n % 10))
    }
}

/// `count` zeros.
pub open spec fn zeros(count: nat) -> Seq<char> {
    Seq::new(count, |i: int| '0')
}

/// `n` in decimal, with zeros in front up to `width` characters.
pub open spec fn padded_text(n: nat, width: nat) -> Seq<char> {
    let text = decimal_text(n);
    if text.len() >= width {
        text
    } else {
        zeros((width - text.len()) as nat) + text
    }
}

/// A digit's character and its value are inverse to each other.
pub proof fn lemma_digit_char(d: nat)
    requires
        d < 10,
    ensures
        is_digit(digit_char(d)),
        digit_value(digit_char(d)) == d,
        digit_char(d) != '/',
        digit_char(d) != '+',
{
}

/// Appending one digit multiplies by ten and adds the digit.
pub proof fn lemma_digits_push(s: Seq<char>, c: char)
    ensures
        digits_value(s.push(c)) == digits_value(s) * 10 + digit_value(c),
{
    assert(s.push(c).drop_last() =~= s);
}

/// A longer string of digits denotes no less than the part it begins with.
pub proof fn lemma_digits_prefix(s: Seq<char>, k: int)
    requires
        0 <= k <= s.len(),
    ensures
        digits_value(s.take(k)) <= digits_value(s),
    decreases s.len() - k,
{
    if k < s.len() {
        lemma_digits_prefix(s, k + 1);
        assert(s.take(k + 1).drop_last() =~= s.take(k));
    } else {
        assert(s.take(k) =~= s);
    }
}

/// The decimal text of a number consists of digits, is not empty, and denotes the number.
pub proof fn lemma_decimal_text(n: nat)
    ensures
        decimal_text(n).len() >= 1,
        all_digits(decimal_text(n)),
        digits_value(decimal_text(n)) == n,
    decreases n,
{
    if n < 10 {
        lemma_digit_char(n);
        let s = seq![digit_char(n)];
        assert(s.drop_last() =~= Seq::<char>::empty());
        assert(digits_value(s.drop_last()) == 0);
    } else {
        lemma_decimal_text(n / 10);
        lemma_digit_char(n % 10);
        lemma_digits_push(decimal_text(n / 10), digit_char(n % 10));
    }
}

/// Zeros in front change nothing of what a string of digits denotes.
pub proof fn lemma_leading_zeros(count: nat, s: Seq<char>)
    ensures
        digits_value(zeros(count) + s) == digits_value(s),
        all_digits(s) ==> all_digits(zeros(count) + s),
    decreases s.len(),
{
    let whole = zeros(count) + s;
    if s.len() == 0 {
        assert(whole =~= zeros(count));
        lemma_zeros_value(count);
    } else {
        lemma_leading_zeros(count, s.drop_last());
        assert(whole.drop_last() =~= zeros(count) + s.drop_last());
        assert(whole.last() == s.last());
    }
}

/// A string of zeros denotes zero.
pub proof fn lemma_zeros_value(count: nat)
    ensures
        digits_value(zeros(count)) == 0,
    decreases count,
{
    if count > 0 {
        lemma_zeros_value((count - 1) as nat);
        assert(zeros(count).drop_last() =~= zeros((count - 1) as nat));
    }
}

/// The padded text of a number is a numeral that denotes the number.
pub proof fn lemma_padded_text(n: nat, width: nat)
    ensures
        padded_text(n, width).len() >= 1,
        padded_text(n, width).len() >= width,
        all_digits(padded_text(n, width)),
        digits_value(padded_text(n, width)) == n,
        numeral_value(padded_text(n, width)) == Some(n),
{
    lemma_decimal_text(n);
    let text = decimal_text(n);
    if text.len() < width {
        lemma_leading_zeros((width - text.len()) as nat, text);
    }
    let p = padded_text(n, width);
    assert(is_digit(p[0]));
    assert(unsigned_body(p) == p);
}

/// A numeral with a `+` in front of its decimal text denotes the number too.
pub proof fn lemma_signed_text(n: nat)
    ensures
        numeral_value(seq!['+'] + decimal_text(n)) == Some(n),
{
    lemma_decimal_text(n);
    let s = seq!['+'] + decimal_text(n);
    assert(s[0] == '+');
    assert(s.drop_first() =~= decimal_text(n));
}

/// What reading `s` as an unsigned numeral no greater than `max` gives.
pub open spec fn bounded_numeral(s: Seq<char>, max: nat) -> Option<nat> {
    match numeral_value(s) {
        Some(n) => if n <= max {
            Some(n)
        } else {
            None
        },
        None => None,
    }
}

/// The value of `c` where it is a digit.
pub fn digit_of(c: char) -> (r: Option<u8>)
    ensures
        r == (if is_digit(c) {
            Some(digit_value(c) as u8)
        } else {
            None
        }),
{
    let code: u32 = c as u32;
    if 48 <= code && code <= 57 {
        Some((code - 48) as u8)
    } else {
        None
    }
}

/// Reads `chars[from..to]` as an unsigned numeral: an optional `+`, then digits
/// only. Gives the number it denotes, or nothing where it is no numeral or
/// denotes more than `max`.
pub fn parse_unsigned(chars: &Vec<char>, from: usize, to: usize, max: u32) -> (r: Option<u32>)
    requires
        from <= to <= chars.len(),
    ensures
        match r {
            Some(n) => bounded_numeral(chars@.subrange(from as int, to as int), max as nat)
                == Some(n as nat),
            None => bounded_numeral(chars@.subrange(from as int, to as int), max as nat) is None,
        },
{
    let ghost whole = chars@.subrange(from as int, to as int);
    let mut i: usize = from;
    if i < to && chars[i] == '+' {
        i = i + 1;
    }
    let start: usize = i;
    let ghost body = chars@.subrange(start as int, to as int);
    assert(body =~= unsigned_body(whole));
    if start == to {
        return None;
    }
    let mut acc: u64 = 0;
    while i < to
        invariant
            from <= start <= i <= to <= chars.len(),
            start < to,
            whole == chars@.subrange(from as int, to as int),
            body == chars@.subrange(start as int, to as int),
            body == unsigned_body(whole),
            all_digits(body.take(i - start)),
            acc == digits_value(body.take(i - start)),
            acc <= max,
        decreases to - i,
    {
        assert(chars@[i as int] == body[i - start]);
        let digit: u8 = match digit_of(chars[i]) {
            Some(d) => d,
            None => {
                return None;
            },
        };
        let next: u64 = acc * 10 + digit as u64;
        proof {
            let k = i - start;
            assert(body.take(k + 1) =~= body.take(k).push(body[k]));
            lemma_digits_push(body.take(k), body[k]);
            assert(next == digits_value(body.take(k + 1)));
            assert forall|j: int| 0 <= j < k + 1 implies is_digit(
                #[trigger] body.take(k + 1)[j],
            ) by {
                if j < k {
                    assert(body.take(k)[j] == body.take(k + 1)[j]);
                }
            }
        }
        if next > max as u64 {
            proof {
                lemma_digits_prefix(body, i - start + 1);
            }
            return None;
        }
        acc = next;
        i = i + 1;
    }
    assert(body.take(i - start) =~= body);
    Some(acc as u32)
}

/// Writes `n` in decimal, with no more digits than it needs.
pub fn render_decimal(n: u32) -> (s: String)
    ensures
        s@ == decimal_text(n as nat),
    decreases n,
{
    let digit: char = ((n % 10) as u8 + 48) as char;
    if n < 10 {
        let mut s = String::new();
        push_char(&mut s, digit);
        assert(s@ =~= seq![digit_char(n as nat)]);
        s
    } else {
        let mut s = render_decimal(n / 10);
        push_char(&mut s, digit);
        s
    }
}

} // verus!
