//! Operator commands of the review loop and the parser that maps one
//! input token to a command: single letters for navigation and
//! actions, a decimal integer to jump to a page, anything else is
//! unrecognized.

use vstd::prelude::*;

verus! {

/// One operator command, as parsed from a single input token.
#[derive(Clone, Copy, Debug, PartialEq, Eq, Structural)]
pub enum Command {
    Next,
    Prev,
    Validate,
    Reject,
    Quit,
    Goto(i32),
    Unknown,
}

pub open spec fn is_ascii_digit(c: char) -> bool {
    '0' <= c && c <= '9'
}

pub open spec fn digit_val(c: char) -> int {
    c as int - '0' as int
}

pub open spec fn all_digits(s: Seq<char>) -> bool {
    forall|i: int| 0 <= i < s.len() ==> is_ascii_digit(s[i])
}

/// The integer denoted by a sequence of decimal digits.
pub open spec fn dec_value(s: Seq<char>) -> int
    decreases s.len(),
{
    if s.len() == 0 {
        0
    } else {
        dec_value(s.drop_last()) * 10 + digit_val(s.last())
    }
}

/// The digits of an integer literal: everything after an optional
/// leading sign.
pub open spec fn digits_part(s: Seq<char>) -> Seq<char> {
    if s.len() > 0 && (s[0] == '+' || s[0] == '-') {
        s.drop_first()
    } else {
        s
    }
}

pub open spec fn is_negative_literal(s: Seq<char>) -> bool {
    s.len() > 0 && s[0] == '-'
}

/// An integer literal is an optional sign followed by at least one
/// decimal digit, with nothing else.
pub open spec fn is_int_literal(s: Seq<char>) -> bool {
    digits_part(s).len() > 0 && all_digits(digits_part(s))
}

pub open spec fn literal_value(s: Seq<char>) -> int {
    if is_negative_literal(s) {
        -dec_value(digits_part(s))
    } else {
        dec_value(digits_part(s))
    }
}

/// What parsing an `i32` from a token yields: its value when the token
/// is an integer literal in range, nothing otherwise.
pub open spec fn spec_parse_i32(s: Seq<char>) -> Option<i32> {
    if is_int_literal(s) && -0x8000_0000 <= literal_value(s) <= 0x7FFF_FFFF {
        Some(literal_value(s) as i32)
    } else {
        None
    }
}

pub proof fn lemma_dec_value_nonneg(s: Seq<char>)
    requires
        all_digits(s),
    ensures
        dec_value(s) >= 0,
    decreases s.len(),
{
    if s.len() > 0 {
        assert(all_digits(s.drop_last())) by {
            assert forall|i: int| 0 <= i < s.drop_last().len() implies is_ascii_digit(
                s.drop_last()[i],
            ) by {
                assert(s.drop_last()[i] == s[i]);
            }
        }
        lemma_dec_value_nonneg(s.drop_last());
    }
}

/// Reading one more digit multiplies the value so far by at least ten:
/// a strict prefix of a digit string denotes at most a tenth of the
/// whole.
pub proof fn lemma_dec_value_grows(s: Seq<char>, i: int)
    requires
        all_digits(s),
        0 <= i < s.len(),
    ensures
        dec_value(s) >= 10 * dec_value(s.take(i)),
    decreases s.len(),
{
    lemma_dec_value_nonneg(s.take(i));
    assert(all_digits(s.drop_last())) by {
        assert forall|j: int| 0 <= j < s.drop_last().len() implies is_ascii_digit(
            s.drop_last()[j],
        ) by {
            assert(s.drop_last()[j] == s[j]);
        }
    }
    if i == s.len() - 1 {
        assert(s.take(i) =~= s.drop_last());
    } else {
        lemma_dec_value_grows(s.drop_last(), i);
        assert(s.drop_last().take(i) =~= s.take(i));
        lemma_dec_value_nonneg(s.drop_last());
    }
}

/// Parse a decimal `i32` from a token: an optional sign, then decimal
/// digits; out-of-range values and any other shape are rejected.
pub fn parse_i32(s: &str) -> (r: Option<i32>)
    ensures
        r == spec_parse_i32(s@),
{
    let n = s.unicode_len();
    if n == 0 {
        return None;
    }
    let first = s.get_char(0);
    let signed = first == '-' || first == '+';
    let start: usize = if signed { 1 } else { 0 };
    let neg = first == '-';
    proof {
        if signed {
            assert(digits_part(s@) =~= s@.subrange(1, n as int));
        } else {
            assert(digits_part(s@) =~= s@.subrange(0, n as int));
        }
    }
    if n == start {
        return None;
    }
    let mut acc: u64 = 0;
    let mut i: usize = start;
    while i < n
        invariant
            start <= i <= n,
            n == s@.len(),
            start <= 1,
            n > start,
            digits_part(s@) =~= s@.subrange(start as int, n as int),
            neg == is_negative_literal(s@),
            all_digits(s@.subrange(start as int, i as int)),
            acc == dec_value(s@.subrange(start as int, i as int)),
        decreases n - i,
    {
        let c = s.get_char(i);
        let u = c as u32;
        if u < 48 || u > 57 {
            proof {
                assert(digits_part(s@)[i - start] == s@[i as int]);
                assert(!is_ascii_digit(s@[i as int]));
            }
            return None;
        }
        if acc >= 0x8000_0000u64 {
            proof {
                if is_int_literal(s@) {
                    let dp = digits_part(s@);
                    assert(dp.take(i - start) =~= s@.subrange(start as int, i as int));
                    lemma_dec_value_grows(dp, i - start);
                }
            }
            return None;
        }
        let d = (u - 48) as u64;
        proof {
            let prev = s@.subrange(start as int, i as int);
            let cur = s@.subrange(start as int, i as int + 1);
            assert(cur.drop_last() =~= prev);
            assert(cur.last() == s@[i as int]);
            assert(is_ascii_digit(s@[i as int]));
            assert(digit_val(s@[i as int]) == d as int);
            assert(all_digits(cur)) by {
                assert forall|j: int| 0 <= j < cur.len() implies is_ascii_digit(cur[j]) by {
                    if j < i - start {
                        assert(cur[j] == prev[j]);
                    }
                }
            }
        }
        acc = acc * 10 + d;
        i = i + 1;
    }
    proof {
        assert(s@.subrange(start as int, n as int) =~= digits_part(s@));
    }
    if neg {
        if acc > 0x8000_0000u64 {
            None
        } else {
            let v: i64 = -(acc as i64);
            Some(v as i32)
        }
    } else {
        if acc > 0x7FFF_FFFFu64 {
            None
        } else {
            Some(acc as i32)
        }
    }
}

/// What a trimmed input token means: the single-letter commands, then
/// an integer page jump, anything else unrecognized.
pub open spec fn spec_parse_command(s: Seq<char>) -> Command {
    if s.len() == 1 && s[0] == 'n' {
        Command::Next
    } else if s.len() == 1 && s[0] == 'p' {
        Command::Prev
    } else if s.len() == 1 && s[0] == 'v' {
        Command::Validate
    } else if s.len() == 1 && s[0] == 'r' {
        Command::Reject
    } else if s.len() == 1 && s[0] == 'q' {
        Command::Quit
    } else if spec_parse_i32(s) is Some {
        Command::Goto(spec_parse_i32(s)->Some_0)
    } else {
        Command::Unknown
    }
}

/// Map one input token (already trimmed) to an operator command.
pub fn parse_command(input: &str) -> (c: Command)
    ensures
        c == spec_parse_command(input@),
{
    let n = input.unicode_len();
    if n == 1 {
        let ch = input.get_char(0);
        if ch == 'n' {
            return Command::Next;
        }
        if ch == 'p' {
            return Command::Prev;
        }
        if ch == 'v' {
            return Command::Validate;
        }
        if ch == 'r' {
            return Command::Reject;
        }
        if ch == 'q' {
            return Command::Quit;
        }
    }
    match parse_i32(input) {
        Some(v) => Command::Goto(v),
        None => Command::Unknown,
    }
}

} // verus!
