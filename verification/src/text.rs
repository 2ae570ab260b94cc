//! Characters, decimal numbers and small string helpers shared by the
//! other modules.

use vstd::prelude::*;
use vstd::std_specs::iter::IteratorSpec;

verus! {

/// `String::push` of std appends one character to the end of the string.
pub assume_specification[ String::push ](s: &mut String, c: char)
    ensures
        final(s)@ == old(s)@.push(c),
;

/// `==` on string slices, as std defines it: the two hold the same characters.
pub assume_specification[ <str as PartialEq>::eq ](a: &str, b: &str) -> (r: bool)
    ensures
        r == (a@ == b@),
;

/// Whether two string slices hold the same characters.
pub fn same_text(a: &str, b: &str) -> (r: bool)
    ensures
        r == (a@ == b@),
{
    a.eq(b)
}

/// The characters of `s`, in order.
pub fn chars_of(s: &str) -> (v: Vec<char>)
    ensures
        v@ == s@,
{
    let mut v: Vec<char> = Vec::new();
    for c in it: s.chars()
        invariant
            it.seq() == s@,
            v@ == s@.take(it.index() as int),
    {
        v.push(c);
    }
    v
}

/// Whether `c` is one of the ten ASCII digits.
pub open spec fn is_digit(c: char) -> bool {
    '0' <= c <= '9'
}

/// The number that the ASCII digit `c` stands for.
pub open spec fn digit_value(c: char) -> int {
    c as int - 48
}

/// The ASCII digit for `d`, which is below ten.
pub open spec fn digit_char(d: int) -> char {
    (d + 48) as char
}

/// Whether every character of `s` is an ASCII digit.
pub open spec fn all_digits(s: Seq<char>) -> bool {
    forall|i: int| 0 <= i < s.len() ==> is_digit(#[trigger] s[i])
}

/// The number that a run of ASCII digits denotes in base ten; zero for the
/// empty run.
pub open spec fn digits_value(s: Seq<char>) -> nat
    decreases s.len(),
{
    if s.len() == 0 {
        0
    } else {
        (digits_value(s.drop_last()) * 10 + digit_value(s.last())) as nat
    }
}

/// The base-ten digits of `n`, most significant first, without leading zeros.
pub open spec fn decimal_digits(n: nat) -> Seq<char>
    decreases n,
{
    if n < 10 {
        seq![digit_char(n as int)]
    } else {
        decimal_digits(n / 10).push(digit_char((n % 10) as int))
    }
}

/// The base-ten text of an integer: a minus sign for a negative number, then
/// its digits.
pub open spec fn decimal(n: int) -> Seq<char> {
    if n < 0 {
        seq!['-'] + decimal_digits((-n) as nat)
    } else {
        decimal_digits(n as nat)
    }
}

/// The digits of `n`, but nothing at all for zero: what is still to be
/// written once the low digits of a number have been taken off.
spec fn leading_digits(n: nat) -> Seq<char> {
    if n == 0 {
        Seq::empty()
    } else {
        decimal_digits(n)
    }
}

proof fn lemma_leading_digits_step(n: nat)
    requires
        n > 0,
    ensures
        leading_digits(n) == leading_digits(n / 10).push(digit_char((n % 10) as int)),
{
    if n < 10 {
        assert(n / 10 == 0);
        assert(n % 10 == n);
        assert(decimal_digits(n) =~= Seq::<char>::empty().push(digit_char(n as int)));
    } else {
        assert(n / 10 > 0);
    }
}

/// Every character of a decimal digit string is a digit.
pub proof fn lemma_decimal_digits_all_digits(n: nat)
    ensures
        all_digits(decimal_digits(n)),
        decimal_digits(n).len() >= 1,
    decreases n,
{
    if n >= 10 {
        lemma_decimal_digits_all_digits(n / 10);
    }
}

/// Reading the digits of a number back gives the number.
pub proof fn lemma_digits_value_of_decimal_digits(n: nat)
    ensures
        digits_value(decimal_digits(n)) == n,
    decreases n,
{
    if n < 10 {
        let s = decimal_digits(n);
        assert(s.drop_last() =~= Seq::<char>::empty());
        assert(digits_value(s.drop_last()) == 0);
    } else {
        lemma_digits_value_of_decimal_digits(n / 10);
        let s = decimal_digits(n);
        assert(s.drop_last() =~= decimal_digits(n / 10));
    }
}

/// Appends the base-ten digits of `n` to `s`.
pub fn push_decimal(s: &mut String, n: u64)
    ensures
        final(s)@ == old(s)@ + decimal_digits(n as nat),
{
    let ghost magnitude: nat = n as nat;
    let ghost front: Seq<char> = s@;
    let mut m: u64 = n;
    let mut low: Vec<char> = Vec::new();
    let d0: u8 = (m % 10) as u8;
    low.push((48u8 + d0) as char);
    proof {
        if magnitude == 0 {
            assert(decimal_digits(0) =~= leading_digits(0).push(digit_char(0)));
        } else {
            lemma_leading_digits_step(magnitude);
        }
        assert(low@.reverse() =~= seq![digit_char(d0 as int)]);
        assert(leading_digits(magnitude / 10) + low@.reverse() =~= leading_digits(
            magnitude / 10,
        ).push(digit_char(d0 as int)));
    }
    m = m / 10;
    while m > 0
        invariant
            decimal_digits(magnitude) == leading_digits(m as nat) + low@.reverse(),
            low.len() >= 1,
        decreases m,
    {
        let d: u8 = (m % 10) as u8;
        proof {
            lemma_leading_digits_step(m as nat);
            assert(leading_digits(m as nat) + low@.reverse() =~= leading_digits((m / 10) as nat)
                + low@.push(digit_char(d as int)).reverse());
        }
        low.push((48u8 + d) as char);
        m = m / 10;
    }
    let mut i: usize = low.len();
    while i > 0
        invariant
            i <= low.len(),
            s@ == front + low@.reverse().take((low.len() - i) as int),
        decreases i,
    {
        i = i - 1;
        s.push(low[i]);
        proof {
            let r = low@.reverse();
            let k = (low.len() - i - 1) as int;
            assert(r.take(k + 1) =~= r.take(k).push(low@[i as int]));
        }
    }
    proof {
        assert(low@.reverse().take(low.len() as int) =~= low@.reverse());
        assert(leading_digits(0) + low@.reverse() =~= low@.reverse());
    }
}

/// The base-ten text of `n`.
pub fn decimal_string(n: i64) -> (s: String)
    ensures
        s@ == decimal(n as int),
{
    let mut s = String::new();
    if n < 0 {
        s.push('-');
        let magnitude: u64 = if n == i64::MIN {
            9223372036854775808u64
        } else {
            (-n) as u64
        };
        push_decimal(&mut s, magnitude);
        proof {
            assert(Seq::<char>::empty().push('-') =~= seq!['-']);
        }
    } else {
        push_decimal(&mut s, n as u64);
        proof {
            assert(Seq::<char>::empty() + decimal_digits(n as nat) =~= decimal_digits(n as nat));
        }
    }
    s
}

/// The base-ten text of `n`.
pub fn decimal_string_unsigned(n: u64) -> (s: String)
    ensures
        s@ == decimal_digits(n as nat),
{
    let mut s = String::new();
    push_decimal(&mut s, n);
    proof {
        assert(Seq::<char>::empty() + decimal_digits(n as nat) =~= decimal_digits(n as nat));
    }
    s
}

/// Adding a digit to a run never makes its value smaller.
pub proof fn lemma_digits_value_push(run: Seq<char>, c: char)
    ensures
        digits_value(run.push(c)) == (digits_value(run) * 10 + digit_value(c)) as nat,
        is_digit(c) ==> digits_value(run.push(c)) >= digits_value(run),
{
    assert(run.push(c).drop_last() =~= run);
}

/// Whether the characters of `s` from `from` up to `to` are all digits.
pub fn digits_only(s: &Vec<char>, from: usize, to: usize) -> (r: bool)
    requires
        from <= to <= s.len(),
    ensures
        r == all_digits(s@.subrange(from as int, to as int)),
{
    let ghost run = s@.subrange(from as int, to as int);
    let mut i: usize = from;
    while i < to
        invariant
            from <= i <= to <= s.len(),
            run == s@.subrange(from as int, to as int),
            forall|j: int| 0 <= j < i - from ==> is_digit(#[trigger] run[j]),
        decreases to - i,
    {
        let c: char = s[i];
        if !(c >= '0' && c <= '9') {
            proof {
                assert(!is_digit(run[i - from]));
            }
            return false;
        }
        i = i + 1;
    }
    true
}

/// What a run of characters denotes if all of them are digits and the
/// number is at most `cap`.
pub open spec fn spec_read_digits(run: Seq<char>, cap: nat) -> Option<nat> {
    if all_digits(run) && digits_value(run) <= cap {
        Some(digits_value(run))
    } else {
        None
    }
}

/// Reads the characters of `s` from `from` up to `to` as a run of digits.
/// Gives the number they denote, unless one of them is no digit or the
/// number is above `cap`. The empty run denotes zero.
pub fn read_digits(s: &Vec<char>, from: usize, to: usize, cap: u64) -> (r: Option<u64>)
    requires
        from <= to <= s.len(),
    ensures
        r matches Some(v) ==> spec_read_digits(s@.subrange(from as int, to as int), cap as nat)
            == Some(v as nat),
        r is None ==> spec_read_digits(s@.subrange(from as int, to as int), cap as nat) is None,
{
    let ghost run = s@.subrange(from as int, to as int);
    let mut value: u128 = 0;
    let mut over: bool = false;
    let mut i: usize = from;
    while i < to
        invariant
            from <= i <= to <= s.len(),
            run == s@.subrange(from as int, to as int),
            all_digits(run.take(i - from)),
            !over ==> value == digits_value(run.take(i - from)) && value <= cap,
            over ==> digits_value(run.take(i - from)) > cap,
        decreases to - i,
    {
        let c: char = s[i];
        proof {
            assert(run[i - from] == c);
            assert(run.take(i - from + 1) =~= run.take(i - from).push(c));
            lemma_digits_value_push(run.take(i - from), c);
        }
        if !(c >= '0' && c <= '9') {
            proof {
                assert(!is_digit(run[i - from]));
            }
            return None;
        }
        if !over {
            let next: u128 = value * 10 + ((c as u32 - 48) as u128);
            if next > cap as u128 {
                over = true;
            } else {
                value = next;
            }
        }
        i = i + 1;
    }
    proof {
        assert(run.take(to - from) =~= run);
    }
    if over {
        None
    } else {
        Some(value as u64)
    }
}

/// The integer that `s` denotes: an optional sign, then at least one digit.
/// There is none where `s` has another shape or the integer does not fit
/// in `i64`.
pub open spec fn spec_parse_i64(s: Seq<char>) -> Option<i64> {
    let signed = s.len() > 0 && (s[0] == '-' || s[0] == '+');
    let digits = if signed {
        s.skip(1)
    } else {
        s
    };
    if digits.len() == 0 || !all_digits(digits) {
        None
    } else if s[0] == '-' {
        if digits_value(digits) <= 0x8000_0000_0000_0000 {
            Some((-digits_value(digits)) as i64)
        } else {
            None
        }
    } else {
        if digits_value(digits) <= i64::MAX {
            Some(digits_value(digits) as i64)
        } else {
            None
        }
    }
}

/// Reads a decimal integer with an optional sign.
pub fn parse_i64(text: &str) -> (r: Option<i64>)
    ensures
        r == spec_parse_i64(text@),
{
    let s = chars_of(text);
    let n: usize = s.len();
    if n == 0 {
        return None;
    }
    let negative: bool = s[0] == '-';
    let start: usize = if negative || s[0] == '+' {
        1
    } else {
        0
    };
    if start == n {
        return None;
    }
    proof {
        assert(s@.subrange(start as int, n as int) =~= if start == 1 {
            s@.skip(1)
        } else {
            s@
        });
    }
    if negative {
        match read_digits(&s, start, n, 0x8000_0000_0000_0000) {
            Some(v) => {
                if v == 0x8000_0000_0000_0000 {
                    Some(i64::MIN)
                } else {
                    Some(-(v as i64))
                }
            },
            None => None,
        }
    } else {
        match read_digits(&s, start, n, 0x7fff_ffff_ffff_ffff) {
            Some(v) => Some(v as i64),
            None => None,
        }
    }
}

} // verus!

