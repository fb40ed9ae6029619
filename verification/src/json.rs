//! Character-level building blocks for the self-describing JSON text the
//! bridge hands back to its host: decimal rendering of integers, string
//! escaping, and a validator for pre-rendered number tokens.
use vstd::prelude::*;

verus! {

/// The character for one decimal digit.
pub open spec fn digit_char(d: nat) -> char {
    if d == 0 {
        '0'
    } else if d == 1 {
        '1'
    } else if d == 2 {
        '2'
    } else if d == 3 {
        '3'
    } else if d == 4 {
        '4'
    } else if d == 5 {
        '5'
    } else if d == 6 {
        '6'
    } else if d == 7 {
        '7'
    } else if d == 8 {
        '8'
    } else {
        '9'
    }
}

/// The decimal rendering of a natural number, most significant digit first,
/// with no leading zeros (a lone zero for 0).
pub open spec fn dec_digits(n: nat) -> Seq<char>
    decreases n,
{
    if n < 10 {
        seq![digit_char(n)]
    } else {
        dec_digits(n / 10).push(digit_char(n % 10))
    }
}

/// The decimal rendering of an integer: a minus sign before the digits of the
/// magnitude when negative.
pub open spec fn dec_int(n: int) -> Seq<char> {
    if n < 0 {
        seq!['-'] + dec_digits((-n) as nat)
    } else {
        dec_digits(n as nat)
    }
}

fn digit_of(d: u64) -> (c: char)
    requires
        d < 10,
    ensures
        c == digit_char(d as nat),
{
    if d == 0 {
        '0'
    } else if d == 1 {
        '1'
    } else if d == 2 {
        '2'
    } else if d == 3 {
        '3'
    } else if d == 4 {
        '4'
    } else if d == 5 {
        '5'
    } else if d == 6 {
        '6'
    } else if d == 7 {
        '7'
    } else if d == 8 {
        '8'
    } else {
        '9'
    }
}

/// Appends the decimal rendering of `n` to the output buffer.
pub fn push_u64(out: &mut Vec<char>, n: u64)
    ensures
        final(out)@ == old(out)@ + dec_digits(n as nat),
    decreases n,
{
    if n < 10 {
        out.push(digit_of(n));
        assert(final(out)@ =~= old(out)@ + dec_digits(n as nat));
    } else {
        push_u64(out, n / 10);
        out.push(digit_of(n % 10));
        assert(final(out)@ =~= old(out)@ + dec_digits(n as nat));
    }
}

/// Appends the decimal rendering of a signed integer to the output buffer.
pub fn push_i64(out: &mut Vec<char>, n: i64)
    ensures
        final(out)@ == old(out)@ + dec_int(n as int),
{
    if n >= 0 {
        push_u64(out, n as u64);
    } else {
        out.push('-');
        let mag: u64 = ((-(n + 1)) as u64) + 1;
        assert(mag as nat == (-(n as int)) as nat);
        push_u64(out, mag);
        assert(final(out)@ =~= old(out)@ + dec_int(n as int));
    }
}

/// The character for one hexadecimal digit, lower case.
pub open spec fn hex_char(d: nat) -> char {
    if d < 10 {
        digit_char(d)
    } else if d == 10 {
        'a'
    } else if d == 11 {
        'b'
    } else if d == 12 {
        'c'
    } else if d == 13 {
        'd'
    } else if d == 14 {
        'e'
    } else {
        'f'
    }
}

fn hex_of(d: u32) -> (c: char)
    requires
        d < 16,
    ensures
        c == hex_char(d as nat),
{
    if d < 10 {
        digit_of(d as u64)
    } else if d == 10 {
        'a'
    } else if d == 11 {
        'b'
    } else if d == 12 {
        'c'
    } else if d == 13 {
        'd'
    } else if d == 14 {
        'e'
    } else {
        'f'
    }
}

/// How one character appears inside a JSON string literal: the two-character
/// escapes for quote, backslash and the common control characters, a
/// `\u00..` escape for the remaining control characters, and the character
/// itself otherwise.
pub open spec fn escaped_char(c: char) -> Seq<char> {
    if c == '"' {
        seq!['\\', '"']
    } else if c == '\\' {
        seq!['\\', '\\']
    } else if c == '\u{8}' {
        seq!['\\', 'b']
    } else if c == '\u{c}' {
        seq!['\\', 'f']
    } else if c == '\n' {
        seq!['\\', 'n']
    } else if c == '\r' {
        seq!['\\', 'r']
    } else if c == '\t' {
        seq!['\\', 't']
    } else if (c as u32) < 32 {
        seq!['\\', 'u', '0', '0', hex_char((c as u32 / 16) as nat), hex_char((c as u32 % 16) as nat)]
    } else {
        seq![c]
    }
}

/// The escaped form of a whole character sequence.
pub open spec fn escape_chars(s: Seq<char>) -> Seq<char>
    decreases s.len(),
{
    if s.len() == 0 {
        Seq::empty()
    } else {
        escape_chars(s.drop_last()) + escaped_char(s.last())
    }
}

/// A JSON string literal: the escaped characters between double quotes.
pub open spec fn json_string(s: Seq<char>) -> Seq<char> {
    seq!['"'] + escape_chars(s) + seq!['"']
}

fn push_escaped(out: &mut Vec<char>, c: char)
    ensures
        final(out)@ == old(out)@ + escaped_char(c),
{
    if c == '"' {
        out.push('\\');
        out.push('"');
    } else if c == '\\' {
        out.push('\\');
        out.push('\\');
    } else if c == '\u{8}' {
        out.push('\\');
        out.push('b');
    } else if c == '\u{c}' {
        out.push('\\');
        out.push('f');
    } else if c == '\n' {
        out.push('\\');
        out.push('n');
    } else if c == '\r' {
        out.push('\\');
        out.push('r');
    } else if c == '\t' {
        out.push('\\');
        out.push('t');
    } else if (c as u32) < 32 {
        let v = c as u32;
        out.push('\\');
        out.push('u');
        out.push('0');
        out.push('0');
        out.push(hex_of(v / 16));
        out.push(hex_of(v % 16));
    } else {
        out.push(c);
    }
    assert(final(out)@ =~= old(out)@ + escaped_char(c));
}

/// Appends the characters of `s` unchanged.
pub fn push_str_chars(out: &mut Vec<char>, s: &str)
    ensures
        final(out)@ == old(out)@ + s@,
{
    let n = s.unicode_len();
    let mut i: usize = 0;
    while i < n
        invariant
            n == s@.len(),
            i <= n,
            out@ == old(out)@ + s@.take(i as int),
        decreases n - i,
    {
        let c = s.get_char(i);
        out.push(c);
        assert(out@ =~= old(out)@ + s@.take(i as int + 1));
        i = i + 1;
    }
    assert(s@.take(n as int) =~= s@);
}

/// Appends the JSON string literal for `s`.
pub fn push_json_string(out: &mut Vec<char>, s: &str)
    ensures
        final(out)@ == old(out)@ + json_string(s@),
{
    out.push('"');
    let n = s.unicode_len();
    let mut i: usize = 0;
    while i < n
        invariant
            n == s@.len(),
            i <= n,
            out@ == old(out)@ + seq!['"'] + escape_chars(s@.take(i as int)),
        decreases n - i,
    {
        let c = s.get_char(i);
        push_escaped(out, c);
        proof {
            assert(s@.take(i as int + 1).drop_last() =~= s@.take(i as int));
            assert(s@.take(i as int + 1).last() == s@[i as int]);
        }
        i = i + 1;
    }
    out.push('"');
    proof {
        assert(s@.take(n as int) =~= s@);
        assert(final(out)@ =~= old(out)@ + json_string(s@));
    }
}

/// Whether `c` is a decimal digit.
pub open spec fn is_digit(c: char) -> bool {
    48 <= (c as u32) && (c as u32) <= 57
}

/// The states of the recognizer for JSON number tokens. A token is read left
/// to right: an optional minus sign, an integer part (a lone zero, or a
/// nonzero digit followed by digits), an optional fraction, an optional
/// exponent.
#[derive(Clone, Copy, PartialEq, Eq, Structural)]
pub enum NumState {
    Start,
    Minus,
    Zero,
    IntPart,
    Dot,
    Frac,
    ExpMark,
    ExpSign,
    ExpPart,
    Reject,
}

/// One transition of the number recognizer.
pub open spec fn num_step(st: NumState, c: char) -> NumState {
    match st {
        NumState::Start => if c == '-' {
            NumState::Minus
        } else if c == '0' {
            NumState::Zero
        } else if is_digit(c) {
            NumState::IntPart
        } else {
            NumState::Reject
        },
        NumState::Minus => if c == '0' {
            NumState::Zero
        } else if is_digit(c) {
            NumState::IntPart
        } else {
            NumState::Reject
        },
        NumState::Zero => if c == '.' {
            NumState::Dot
        } else if c == 'e' || c == 'E' {
            NumState::ExpMark
        } else {
            NumState::Reject
        },
        NumState::IntPart => if is_digit(c) {
            NumState::IntPart
        } else if c == '.' {
            NumState::Dot
        } else if c == 'e' || c == 'E' {
            NumState::ExpMark
        } else {
            NumState::Reject
        },
        NumState::Dot => if is_digit(c) {
            NumState::Frac
        } else {
            NumState::Reject
        },
        NumState::Frac => if is_digit(c) {
            NumState::Frac
        } else if c == 'e' || c == 'E' {
            NumState::ExpMark
        } else {
            NumState::Reject
        },
        NumState::ExpMark => if c == '+' || c == '-' {
            NumState::ExpSign
        } else if is_digit(c) {
            NumState::ExpPart
        } else {
            NumState::Reject
        },
        NumState::ExpSign => if is_digit(c) {
            NumState::ExpPart
        } else {
            NumState::Reject
        },
        NumState::ExpPart => if is_digit(c) {
            NumState::ExpPart
        } else {
            NumState::Reject
        },
        NumState::Reject => NumState::Reject,
    }
}

/// The recognizer's state after reading the first `n` characters of `s`.
pub open spec fn num_run(s: Seq<char>, n: int) -> NumState
    decreases n,
{
    if n <= 0 {
        NumState::Start
    } else {
        num_step(num_run(s, n - 1), s[n - 1])
    }
}

/// Whether a state of the recognizer ends a complete token.
pub open spec fn num_accepting(st: NumState) -> bool {
    st is Zero || st is IntPart || st is Frac || st is ExpPart
}

/// Whether `s` is a complete JSON number token.
pub open spec fn is_json_number(s: Seq<char>) -> bool {
    num_accepting(num_run(s, s.len() as int))
}

fn num_step_exec(st: NumState, c: char) -> (r: NumState)
    ensures
        r == num_step(st, c),
{
    let v = c as u32;
    let digit = 48 <= v && v <= 57;
    match st {
        NumState::Start => if c == '-' {
            NumState::Minus
        } else if c == '0' {
            NumState::Zero
        } else if digit {
            NumState::IntPart
        } else {
            NumState::Reject
        },
        NumState::Minus => if c == '0' {
            NumState::Zero
        } else if digit {
            NumState::IntPart
        } else {
            NumState::Reject
        },
        NumState::Zero => if c == '.' {
            NumState::Dot
        } else if c == 'e' || c == 'E' {
            NumState::ExpMark
        } else {
            NumState::Reject
        },
        NumState::IntPart => if digit {
            NumState::IntPart
        } else if c == '.' {
            NumState::Dot
        } else if c == 'e' || c == 'E' {
            NumState::ExpMark
        } else {
            NumState::Reject
        },
        NumState::Dot => if digit {
            NumState::Frac
        } else {
            NumState::Reject
        },
        NumState::Frac => if digit {
            NumState::Frac
        } else if c == 'e' || c == 'E' {
            NumState::ExpMark
        } else {
            NumState::Reject
        },
        NumState::ExpMark => if c == '+' || c == '-' {
            NumState::ExpSign
        } else if digit {
            NumState::ExpPart
        } else {
            NumState::Reject
        },
        NumState::ExpSign => if digit {
            NumState::ExpPart
        } else {
            NumState::Reject
        },
        NumState::ExpPart => if digit {
            NumState::ExpPart
        } else {
            NumState::Reject
        },
        NumState::Reject => NumState::Reject,
    }
}

/// Decides whether `s` is a complete JSON number token.
pub fn check_json_number(s: &str) -> (r: bool)
    ensures
        r == is_json_number(s@),
{
    let n = s.unicode_len();
    let mut st = NumState::Start;
    let mut i: usize = 0;
    while i < n
        invariant
            n == s@.len(),
            i <= n,
            st == num_run(s@, i as int),
        decreases n - i,
    {
        let c = s.get_char(i);
        st = num_step_exec(st, c);
        i = i + 1;
    }
    match st {
        NumState::Zero => true,
        NumState::IntPart => true,
        NumState::Frac => true,
        NumState::ExpPart => true,
        _ => false,
    }
}

/// Relies on `String::from_iter` over characters: collecting a sequence of
/// characters yields the string of exactly those characters, in order.
#[verifier::external_body]
pub(crate) fn chars_to_string(v: Vec<char>) -> (r: String)
    ensures
        r@ == v@,
{
    String::from_iter(v)
}

} // verus!
