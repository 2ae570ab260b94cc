//! Video lengths: reading the provider's duration tokens and writing a
//! length for people to read.

use crate::text::{
    decimal, decimal_digits, decimal_string, digits_value, is_digit,
    lemma_decimal_digits_all_digits, lemma_digits_value_of_decimal_digits,
    lemma_digits_value_push,
};
use vstd::prelude::*;

verus! {

/// How many seconds one unit of `c` lasts: an hour, a minute or a second.
/// Any other character is no unit and counts for nothing.
pub open spec fn unit_seconds(c: char) -> int {
    if c == 'H' {
        3600
    } else if c == 'M' {
        60
    } else if c == 'S' {
        1
    } else {
        0
    }
}

/// Where the longest run of digits that ends just before `end` begins.
pub open spec fn run_start(s: Seq<char>, end: int) -> int
    decreases end,
{
    if 0 < end <= s.len() && is_digit(s[end - 1]) {
        run_start(s, end - 1)
    } else {
        end
    }
}

/// The longest run of digits that ends just before `end`.
pub open spec fn run_before(s: Seq<char>, end: int) -> Seq<char> {
    s.subrange(run_start(s, end), end)
}

/// What the character at `i` adds to the length: the number written just
/// before it, times its unit. A digit adds nothing by itself, nor does a
/// unit with no number before it or with a number above `i32::MAX`.
pub open spec fn contribution(s: Seq<char>, i: int) -> int {
    let run = run_before(s, i);
    if !is_digit(s[i]) && run.len() > 0 && digits_value(run) <= i32::MAX {
        digits_value(run) * unit_seconds(s[i])
    } else {
        0
    }
}

/// The seconds that the first `n` characters of `s` add up to.
pub open spec fn total_seconds(s: Seq<char>, n: int) -> int
    decreases n,
{
    if n <= 0 {
        0
    } else {
        total_seconds(s, n - 1) + contribution(s, n - 1)
    }
}

/// Whether `text` begins with the marker of a duration token.
pub open spec fn has_duration_prefix(text: Seq<char>) -> bool {
    text.len() >= 2 && text[0] == 'P' && text[1] == 'T'
}

/// The length that a duration token denotes. There is none without the
/// marker `PT` in front, and none where the length does not fit in `i32`.
pub open spec fn spec_parse_duration(text: Seq<char>) -> Option<i32> {
    if has_duration_prefix(text) {
        let body = text.skip(2);
        let total = total_seconds(body, body.len() as int);
        if total <= i32::MAX {
            Some(total as i32)
        } else {
            None
        }
    } else {
        None
    }
}

proof fn lemma_run_start_bounds(s: Seq<char>, end: int)
    requires
        0 <= end <= s.len(),
    ensures
        0 <= run_start(s, end) <= end,
    decreases end,
{
    if 0 < end && is_digit(s[end - 1]) {
        lemma_run_start_bounds(s, end - 1);
    }
}

proof fn lemma_run_step(s: Seq<char>, i: int)
    requires
        0 <= i < s.len(),
    ensures
        is_digit(s[i]) ==> run_before(s, i + 1) == run_before(s, i).push(s[i]),
        !is_digit(s[i]) ==> run_before(s, i + 1) == Seq::<char>::empty(),
{
    lemma_run_start_bounds(s, i);
    if is_digit(s[i]) {
        assert(run_start(s, i + 1) == run_start(s, i));
        assert(s.subrange(run_start(s, i), i + 1) =~= s.subrange(run_start(s, i), i).push(s[i]));
    } else {
        assert(run_start(s, i + 1) == i + 1);
        assert(s.subrange(i + 1, i + 1) =~= Seq::<char>::empty());
    }
}

proof fn lemma_contribution_nonnegative(s: Seq<char>, i: int)
    ensures
        contribution(s, i) >= 0,
{
    let run = run_before(s, i);
    assert(digits_value(run) * unit_seconds(s[i]) >= 0) by (nonlinear_arith)
        requires
            digits_value(run) >= 0,
            unit_seconds(s[i]) >= 0,
    ;
}

proof fn lemma_total_monotonic(s: Seq<char>, n: int, m: int)
    requires
        n <= m,
    ensures
        total_seconds(s, n) <= total_seconds(s, m),
        0 <= total_seconds(s, n),
    decreases m - n, n,
{
    if n < m {
        lemma_total_monotonic(s, n, m - 1);
        if m > 0 {
            lemma_contribution_nonnegative(s, m - 1);
        }
    } else if n > 0 {
        lemma_total_monotonic(s, n - 1, n - 1);
        lemma_contribution_nonnegative(s, n - 1);
    }
}

/// No token denotes a negative length.
pub proof fn lemma_parsed_duration_not_negative(text: Seq<char>)
    ensures
        spec_parse_duration(text) matches Some(d) ==> d >= 0,
{
    let body = text.skip(2);
    lemma_total_monotonic(body, 0, body.len() as int);
}

/// Reads a duration token such as `PT4M13S` or `PT1H2M10S` into seconds.
pub fn parse_youtube_duration(duration: &str) -> (r: Option<i32>)
    ensures
        r == spec_parse_duration(duration@),
        r matches Some(d) ==> d >= 0,
{
    let ghost text = duration@;
    let ghost body = text.skip(2);
    let mut seen: u8 = 0;
    let mut total: i64 = 0;
    let mut run_some: bool = false;
    let mut run_fits: bool = true;
    let mut run_val: i64 = 0;
    for c in it: duration.chars()
        invariant
            it.seq() == text,
            text == duration@,
            body == text.skip(2),
            seen as int == if it.index() < 2 {
                it.index() as int
            } else {
                2
            },
            seen >= 1 ==> text[0] == 'P',
            seen >= 2 ==> text[1] == 'T',
            seen < 2 ==> total == 0 && !run_some && run_fits && run_val == 0,
            seen == 2 ==> {
                let n = it.index() as int - 2;
                let run = run_before(body, n);
                &&& total == total_seconds(body, n)
                &&& 0 <= total <= i32::MAX
                &&& run_some == (run.len() > 0)
                &&& run_fits ==> run_val == digits_value(run) && run_val <= i32::MAX
                &&& !run_fits ==> digits_value(run) > i32::MAX
            },
    {
        let ghost i = it.index() as int;
        assert(text[i] == c);
        if seen == 0 {
            if c != 'P' {
                return None;
            }
            seen = 1;
        } else if seen == 1 {
            if c != 'T' {
                return None;
            }
            seen = 2;
            proof {
                assert(run_before(body, 0) =~= Seq::<char>::empty());
            }
        } else {
            let ghost n = i - 2;
            proof {
                assert(body[n] == c);
                lemma_run_step(body, n);
                lemma_digits_value_push(run_before(body, n), c);
            }
            if c >= '0' && c <= '9' {
                let d: i64 = (c as u32 - 48) as i64;
                if run_fits {
                    let next: i64 = run_val * 10 + d;
                    if next > 2147483647 {
                        run_fits = false;
                    } else {
                        run_val = next;
                    }
                }
                run_some = true;
            } else {
                if run_some && run_fits {
                    let unit: i64 = if c == 'H' {
                        3600
                    } else if c == 'M' {
                        60
                    } else if c == 'S' {
                        1
                    } else {
                        0
                    };
                    assert(0 <= run_val * unit <= 2147483647 * 3600) by (nonlinear_arith)
                        requires
                            0 <= run_val <= 2147483647,
                            0 <= unit <= 3600,
                    ;
                    total = total + run_val * unit;
                    if total > 2147483647 {
                        proof {
                            lemma_total_monotonic(body, n + 1, body.len() as int);
                        }
                        return None;
                    }
                }
                run_some = false;
                run_fits = true;
                run_val = 0;
            }
        }
    }
    if seen == 2 {
        Some(total as i32)
    } else {
        None
    }
}

/// A length written with hours, minutes and seconds. Hours are left out
/// when there are none, minutes when there are neither hours nor minutes.
pub open spec fn rendered(h: int, m: int, s: int) -> Seq<char> {
    if h > 0 {
        decimal(h) + "小时"@ + decimal(m) + "分"@ + decimal(s) + "秒"@
    } else if m > 0 {
        decimal(m) + "分"@ + decimal(s) + "秒"@
    } else {
        decimal(s) + "秒"@
    }
}

/// How a length in seconds reads: split into hours, minutes and seconds.
/// A negative length has neither hours nor minutes, and its seconds are
/// what is left over after whole minutes, with the sign kept.
pub open spec fn spec_format_duration(seconds: int) -> Seq<char> {
    if seconds >= 0 {
        rendered(seconds / 3600, (seconds % 3600) / 60, seconds % 60)
    } else {
        rendered(0, 0, -((-seconds) % 60))
    }
}

/// Writes a length in seconds for people to read, such as `4分13秒`.
pub fn format_duration(seconds: i32) -> (r: String)
    ensures
        r@ == spec_format_duration(seconds as int),
{
    if seconds < 0 {
        let left: i64 = -((-(seconds as i64)) % 60);
        let mut out = decimal_string(left);
        out.append("秒");
        return out;
    }
    let hours: i32 = seconds / 3600;
    let minutes: i32 = (seconds % 3600) / 60;
    let secs: i32 = seconds % 60;
    if hours > 0 {
        let mut out = decimal_string(hours as i64);
        out.append("小时");
        out.append(decimal_string(minutes as i64).as_str());
        out.append("分");
        out.append(decimal_string(secs as i64).as_str());
        out.append("秒");
        out
    } else if minutes > 0 {
        let mut out = decimal_string(minutes as i64);
        out.append("分");
        out.append(decimal_string(secs as i64).as_str());
        out.append("秒");
        out
    } else {
        let mut out = decimal_string(secs as i64);
        out.append("秒");
        out
    }
}

/// One part of a duration token: a number and its unit letter, or nothing.
pub open spec fn token_part(n: Option<nat>, unit: char) -> Seq<char> {
    match n {
        Some(v) => decimal_digits(v).push(unit),
        None => Seq::empty(),
    }
}

/// The duration token for the given hours, minutes and seconds, each part
/// present or not, in that order.
pub open spec fn duration_token(h: Option<nat>, m: Option<nat>, s: Option<nat>) -> Seq<char> {
    seq!['P', 'T'] + token_part(h, 'H') + token_part(m, 'M') + token_part(s, 'S')
}

/// The number that a part of a token stands for: zero when it is absent.
pub open spec fn part_value(n: Option<nat>) -> nat {
    match n {
        Some(v) => v,
        None => 0,
    }
}

proof fn lemma_run_start_prefix(x: Seq<char>, y: Seq<char>, end: int)
    requires
        0 <= end <= x.len(),
    ensures
        run_start(x + y, end) == run_start(x, end),
    decreases end,
{
    if 0 < end {
        assert((x + y)[end - 1] == x[end - 1]);
        if is_digit(x[end - 1]) {
            lemma_run_start_prefix(x, y, end - 1);
        }
    }
}

proof fn lemma_total_prefix(x: Seq<char>, y: Seq<char>, n: int)
    requires
        0 <= n <= x.len(),
    ensures
        total_seconds(x + y, n) == total_seconds(x, n),
    decreases n,
{
    if n > 0 {
        lemma_total_prefix(x, y, n - 1);
        let i = n - 1;
        lemma_run_start_prefix(x, y, i);
        lemma_run_start_bounds(x, i);
        assert((x + y)[i] == x[i]);
        assert((x + y).subrange(run_start(x, i), i) =~= x.subrange(run_start(x, i), i));
    }
}

proof fn lemma_digits_are_skipped(s: Seq<char>, from: int, j: int)
    requires
        0 <= from,
        0 <= j,
        from + j <= s.len(),
        from == 0 || !is_digit(s[from - 1]),
        forall|k: int| from <= k < from + j ==> is_digit(#[trigger] s[k]),
    ensures
        total_seconds(s, from + j) == total_seconds(s, from),
        run_start(s, from + j) == from,
    decreases j,
{
    if j > 0 {
        lemma_digits_are_skipped(s, from, j - 1);
        assert(is_digit(s[from + j - 1]));
    }
}

proof fn lemma_total_after_part(a: Seq<char>, v: nat, unit: char)
    requires
        a.len() == 0 || !is_digit(a.last()),
        !is_digit(unit),
        v <= i32::MAX,
    ensures
        ({
            let s = a + decimal_digits(v).push(unit);
            total_seconds(s, s.len() as int) == total_seconds(a, a.len() as int) + v
                * unit_seconds(unit)
        }),
{
    let digits = decimal_digits(v);
    let s = a + digits.push(unit);
    let from = a.len() as int;
    let k = digits.len() as int;
    lemma_decimal_digits_all_digits(v);
    lemma_digits_value_of_decimal_digits(v);
    lemma_total_prefix(a, digits.push(unit), from);
    assert forall|i: int| from <= i < from + k implies is_digit(#[trigger] s[i]) by {
        assert(s[i] == digits[i - from]);
    }
    if from > 0 {
        assert(s[from - 1] == a.last());
    }
    lemma_digits_are_skipped(s, from, k);
    assert(s.subrange(from, from + k) =~= digits);
    assert(s[from + k] == unit);
    assert(s.len() == from + k + 1);
}

proof fn lemma_part_ends_without_digit(a: Seq<char>, n: Option<nat>, unit: char)
    requires
        a.len() == 0 || !is_digit(a.last()),
        !is_digit(unit),
    ensures
        ({
            let s = a + token_part(n, unit);
            s.len() == 0 || !is_digit(s.last())
        }),
{
    match n {
        Some(v) => {
            let s = a + decimal_digits(v).push(unit);
            assert(s.last() == unit);
        },
        None => {
            assert(a + Seq::<char>::empty() =~= a);
        },
    }
}

proof fn lemma_total_with_part(a: Seq<char>, n: Option<nat>, unit: char)
    requires
        a.len() == 0 || !is_digit(a.last()),
        !is_digit(unit),
        part_value(n) <= i32::MAX,
    ensures
        ({
            let s = a + token_part(n, unit);
            total_seconds(s, s.len() as int) == total_seconds(a, a.len() as int) + part_value(n)
                * unit_seconds(unit)
        }),
{
    match n {
        Some(v) => {
            lemma_total_after_part(a, v, unit);
        },
        None => {
            assert(a + Seq::<char>::empty() =~= a);
        },
    }
}

/// Reading a token and writing the length back keeps its parts. For hours
/// `h`, minutes `m` below sixty and seconds `s` below sixty, each written
/// in the token or left out, the token reads as `3600 h + 60 m + s`, and
/// that length is written with the same `h`, `m` and `s`: without hours
/// when the token has none.
pub proof fn lemma_parse_then_format(h: Option<nat>, m: Option<nat>, s: Option<nat>)
    requires
        part_value(m) < 60,
        part_value(s) < 60,
        3600 * part_value(h) + 60 * part_value(m) + part_value(s) <= i32::MAX,
    ensures
        ({
            let total = 3600 * part_value(h) + 60 * part_value(m) + part_value(s);
            &&& spec_parse_duration(duration_token(h, m, s)) == Some(total as i32)
            &&& spec_format_duration(total as int) == rendered(
                part_value(h) as int,
                part_value(m) as int,
                part_value(s) as int,
            )
        }),
{
    let token = duration_token(h, m, s);
    let b0 = Seq::<char>::empty();
    let b1 = b0 + token_part(h, 'H');
    let b2 = b1 + token_part(m, 'M');
    let b3 = b2 + token_part(s, 'S');
    assert(token.skip(2) =~= b3);
    assert(token[0] == 'P' && token[1] == 'T');
    lemma_total_with_part(b0, h, 'H');
    lemma_part_ends_without_digit(b0, h, 'H');
    lemma_total_with_part(b1, m, 'M');
    lemma_part_ends_without_digit(b1, m, 'M');
    lemma_total_with_part(b2, s, 'S');
    let hv = part_value(h) as int;
    let mv = part_value(m) as int;
    let sv = part_value(s) as int;
    let total = 3600 * hv + 60 * mv + sv;
    assert(total / 3600 == hv && total % 3600 == 60 * mv + sv) by (nonlinear_arith)
        requires
            total == 3600 * hv + 60 * mv + sv,
            0 <= mv < 60,
            0 <= sv < 60,
            0 <= hv,
    ;
    assert((60 * mv + sv) / 60 == mv && (60 * mv + sv) % 60 == sv) by (nonlinear_arith)
        requires
            0 <= mv < 60,
            0 <= sv < 60,
    ;
    assert(total % 60 == sv) by (nonlinear_arith)
        requires
            total == 3600 * hv + 60 * mv + sv,
            0 <= sv < 60,
            0 <= hv,
            0 <= mv,
    ;
}

} // verus!
