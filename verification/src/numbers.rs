use vstd::prelude::*;
use vstd::string::*;

verus! {

/// The ASCII digit that writes `d`, for `d` in `0..10`.
pub open spec fn digit_char(d: nat) -> char {
    if d == 0 { '0' }
    else if d == 1 { '1' }
    else if d == 2 { '2' }
    else if d == 3 { '3' }
    else if d == 4 { '4' }
    else if d == 5 { '5' }
    else if d == 6 { '6' }
    else if d == 7 { '7' }
    else if d == 8 { '8' }
    else { '9' }
}

/// The decimal text of `n`: its digits, most significant first, with no sign and no leading zero.
pub open spec fn decimal(n: nat) -> Seq<char>
    decreases n,
{
    if n < 10 {
        seq![digit_char(n)]
    } else {
        decimal(n / 10) + seq![digit_char(n % 10)]
    }
}

/// Whether `c` is an ASCII digit.
pub open spec fn is_digit(c: char) -> bool {
    '0' <= c && c <= '9'
}

/// The number that the ASCII digit `c` stands for.
pub open spec fn digit_value(c: char) -> nat {
    (c as int - '0' as int) as nat
}

/// The number that a string of ASCII digits writes in base ten.
pub open spec fn digits_value(s: Seq<char>) -> nat
    decreases s.len(),
{
    if s.len() == 0 {
        0
    } else {
        digits_value(s.drop_last()) * 10 + digit_value(s.last())
    }
}

/// The digits of an unsigned number's text: the text without one leading `+`.
pub open spec fn unsigned_digits(s: Seq<char>) -> Seq<char> {
    if s.len() > 0 && s[0] == '+' {
        s.drop_first()
    } else {
        s
    }
}

/// The value of an unsigned decimal text, where it is one: an optional `+`,
/// then at least one ASCII digit and nothing else.
pub open spec fn unsigned_value(s: Seq<char>) -> Option<nat> {
    let digits = unsigned_digits(s);
    if digits.len() > 0 && forall|i: int| 0 <= i < digits.len() ==> is_digit(#[trigger] digits[i]) {
        Some(digits_value(digits))
    } else {
        None
    }
}

/// What parsing `s` as a `usize` gives: its unsigned value, where that fits.
pub open spec fn usize_of(s: Seq<char>) -> Option<usize> {
    match unsigned_value(s) {
        Some(n) => if n <= usize::MAX { Some(n as usize) } else { None },
        None => None,
    }
}

/// The one-character text of a digit.
fn digit_text(d: u64) -> (text: &'static str)
    requires
        d < 10,
    ensures
        text@ == seq![digit_char(d as nat)],
{
    proof {
        reveal_strlit("0"); reveal_strlit("1"); reveal_strlit("2"); reveal_strlit("3");
        reveal_strlit("4"); reveal_strlit("5"); reveal_strlit("6"); reveal_strlit("7");
        reveal_strlit("8"); reveal_strlit("9");
    }
    if d == 0 { "0" }
    else if d == 1 { "1" }
    else if d == 2 { "2" }
    else if d == 3 { "3" }
    else if d == 4 { "4" }
    else if d == 5 { "5" }
    else if d == 6 { "6" }
    else if d == 7 { "7" }
    else if d == 8 { "8" }
    else { "9" }
}

/// Writes `n` in decimal, as `to_string` does for unsigned integers.
pub fn u64_text(n: u64) -> (text: String)
    ensures
        text@ == decimal(n as nat),
    decreases n,
{
    if n < 10 {
        String::from_str(digit_text(n))
    } else {
        let mut text = u64_text(n / 10);
        text.append(digit_text(n % 10));
        text
    }
}

/// Writes `n` in decimal, as `to_string` does for unsigned integers.
pub fn usize_text(n: usize) -> (text: String)
    ensures
        text@ == decimal(n as nat),
{
    u64_text(n as u64)
}

/// Parses `s` as `str::parse::<usize>` does: `None` where that gives an error.
pub fn parse_usize(s: &str) -> (value: Option<usize>)
    ensures
        value == usize_of(s@),
{
    let len = s.unicode_len();
    let mut start: usize = 0;
    if len > 0 && s.get_char(0) == '+' {
        start = 1;
    }
    let ghost digits = unsigned_digits(s@);
    proof {
        assert(digits =~= s@.subrange(start as int, len as int));
    }
    if start == len {
        return None;
    }
    let mut acc: usize = 0;
    let mut i: usize = start;
    while i < len
        invariant
            len == s@.len(),
            start <= i <= len,
            digits =~= s@.subrange(start as int, len as int),
            digits == unsigned_digits(s@),
            forall|j: int| 0 <= j < i - start ==> is_digit(#[trigger] digits[j]),
            acc as nat == digits_value(digits.take(i - start)),
        decreases len - i,
    {
        let c = s.get_char(i);
        if !('0' <= c && c <= '9') {
            proof {
                assert(digits[i - start] == c);
            }
            return None;
        }
        let d = (c as u32 - '0' as u32) as usize;
        proof {
            assert(digits[i - start] == c);
            assert(digits.take(i - start + 1).drop_last() =~= digits.take(i - start));
            assert(digits_value(digits.take(i - start + 1)) == digits_value(digits.take(i - start)) * 10 + d);
        }
        match acc.checked_mul(10) {
            Some(m) => match m.checked_add(d) {
                Some(v) => {
                    acc = v;
                }
                None => {
                    proof {
                        assert(m == acc * 10);
                        lemma_digits_value_grows(digits, (i - start + 1) as nat);
                    }
                    return None;
                }
            },
            None => {
                proof {
                    lemma_digits_value_grows(digits, (i - start + 1) as nat);
                }
                return None;
            }
        }
        i = i + 1;
    }
    proof {
        assert(digits.take(len - start) =~= digits);
    }
    Some(acc)
}

/// Whether `s` writes an integer: an optional sign, `+` or `-`, then at least one
/// ASCII digit and nothing else.
pub open spec fn is_integer_text(s: Seq<char>) -> bool {
    signed_digits(s).len() > 0 && forall|i: int| 0 <= i < signed_digits(s).len() ==> is_digit(#[trigger] signed_digits(s)[i])
}

/// The digits of an integer's text: the text without one leading sign.
pub open spec fn signed_digits(s: Seq<char>) -> Seq<char> {
    if s.len() > 0 && (s[0] == '+' || s[0] == '-') { s.drop_first() } else { s }
}

/// Tells whether `s` writes an integer.
pub fn integer_text(s: &str) -> (b: bool)
    ensures
        b == is_integer_text(s@),
{
    let len = s.unicode_len();
    let mut start: usize = 0;
    if len > 0 {
        let c = s.get_char(0);
        if c == '+' || c == '-' {
            start = 1;
        }
    }
    let ghost digits = signed_digits(s@);
    proof {
        assert(digits =~= s@.subrange(start as int, len as int));
    }
    if start == len {
        return false;
    }
    let mut i: usize = start;
    while i < len
        invariant
            len == s@.len(),
            start <= i <= len,
            digits =~= s@.subrange(start as int, len as int),
            digits == signed_digits(s@),
            forall|j: int| 0 <= j < i - start ==> is_digit(#[trigger] digits[j]),
        decreases len - i,
    {
        let c = s.get_char(i);
        proof {
            assert(digits[i - start] == c);
        }
        if !('0' <= c && c <= '9') {
            proof {
                assert(!is_digit(digits[i - start]));
                assert(!is_integer_text(s@));
            }
            return false;
        }
        i = i + 1;
    }
    true
}

proof fn lemma_digit_char_value(d: nat)
    requires
        d < 10,
    ensures
        is_digit(digit_char(d)),
        digit_value(digit_char(d)) == d,
{
    assert('0' as int == 48 && '1' as int == 49 && '2' as int == 50 && '3' as int == 51 && '4' as int == 52);
    assert('5' as int == 53 && '6' as int == 54 && '7' as int == 55 && '8' as int == 56 && '9' as int == 57);
}

/// Decimal text reads back: the text of `n` is all digits, has no leading zero unless
/// `n` is 0, and is worth `n`; so parsing it as a `usize`, with or without a leading
/// `+`, gives `n` back.
pub proof fn lemma_decimal_reads_back(n: nat)
    ensures
        decimal(n).len() > 0,
        forall|i: int| 0 <= i < decimal(n).len() ==> is_digit(#[trigger] decimal(n)[i]),
        n > 0 ==> decimal(n)[0] != '0',
        digits_value(decimal(n)) == n,
        n <= usize::MAX ==> usize_of(decimal(n)) == Some(n as usize),
        n <= usize::MAX ==> usize_of(seq!['+'] + decimal(n)) == Some(n as usize),
    decreases n,
{
    if n < 10 {
        lemma_digit_char_value(n);
        assert(decimal(n).drop_last() =~= Seq::<char>::empty());
    } else {
        lemma_decimal_reads_back(n / 10);
        lemma_digit_char_value(n % 10);
        vstd::arithmetic::div_mod::lemma_fundamental_div_mod(n as int, 10);
        let init = decimal(n / 10);
        let d = decimal(n);
        assert(d.drop_last() =~= init);
        assert forall|i: int| 0 <= i < d.len() implies is_digit(#[trigger] d[i]) by {
            if i < init.len() {
                assert(d[i] == init[i]);
            }
        }
        assert(d[0] == init[0]);
    }
    assert(unsigned_digits(decimal(n)) == decimal(n));
    assert((seq!['+'] + decimal(n)).drop_first() =~= decimal(n));
}

/// Parsing accepts exactly an optional `+` followed by digits whose value fits: a result
/// is always the value of the digits, and a text with any other character, a `-`, or
/// nothing after the sign gives none.
pub proof fn lemma_usize_of_accepts(s: Seq<char>)
    ensures
        usize_of(s) matches Some(n) ==> unsigned_digits(s).len() > 0 && n == digits_value(unsigned_digits(s))
            && forall|i: int| 0 <= i < unsigned_digits(s).len() ==> is_digit(#[trigger] unsigned_digits(s)[i]),
        s.len() > 0 && s[0] == '-' ==> usize_of(s) is None,
        s.len() == 0 ==> usize_of(s) is None,
        s == seq!['+'] ==> usize_of(s) is None,
{
    if s.len() > 0 && s[0] == '-' {
        assert(unsigned_digits(s) == s);
        assert(!is_digit(unsigned_digits(s)[0]));
    }
    if s == seq!['+'] {
        assert(unsigned_digits(s).len() == 0);
    }
}

/// A longer run of digits is worth at least as much as its prefix.
proof fn lemma_digits_value_grows(s: Seq<char>, k: nat)
    requires
        k <= s.len(),
    ensures
        digits_value(s.take(k as int)) <= digits_value(s),
    decreases s.len() - k,
{
    if k < s.len() {
        lemma_digits_value_grows(s, k + 1);
        assert(s.take(k + 1 as int).drop_last() =~= s.take(k as int));
    } else {
        assert(s.take(k as int) =~= s);
    }
}

} // verus!
