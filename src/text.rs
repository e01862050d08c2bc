use vstd::prelude::*;
use vstd::string::*;

verus! {

/// Relies on `String::push`: appends one character at the end.
pub assume_specification[ String::push ](s: &mut String, ch: char)
    ensures
        final(s)@ == old(s)@.push(ch),
;

/// Whether std counts a character as white space (`char::is_whitespace`).
pub uninterp spec fn white_space(c: char) -> bool;

/// Relies on `char::is_whitespace`, whose answer depends on the character alone.
#[verifier::external_body]
fn is_white_space(c: char) -> (r: bool)
    ensures
        r == white_space(c),
{
    c.is_whitespace()
}

/// The ASCII digit for `d`, taken below ten.
pub open spec fn digit_char(d: nat) -> char {
    ((d + 48) as u32) as char
}

/// The decimal text of `n`, without sign or leading zeros.
pub open spec fn decimal(n: nat) -> Seq<char>
    decreases n,
{
    if n < 10 {
        seq![digit_char(n)]
    } else {
        decimal(n / 10).push(digit_char(n % 10))
    }
}

/// Appends the decimal text of `n`.
pub fn push_decimal(out: &mut String, n: u16)
    ensures
        final(out)@ == old(out)@ + decimal(n as nat),
    decreases n,
{
    if n >= 10 {
        push_decimal(out, n / 10);
    }
    let d: u8 = (n % 10) as u8;
    let c: char = (48u8 + d) as char;
    assert(c == digit_char((n % 10) as nat));
    out.push(c);
    assert(out@ =~= old(out)@ + decimal(n as nat));
}

/// Whether every character of `s` is an ASCII digit.
pub open spec fn all_digits(s: Seq<char>) -> bool {
    forall|i: int| 0 <= i < s.len() ==> '0' <= #[trigger] s[i] <= '9'
}

/// The number that a run of ASCII digits spells in decimal.
pub open spec fn digits_value(s: Seq<char>) -> nat
    decreases s.len(),
{
    if s.len() == 0 {
        0
    } else {
        digits_value(s.drop_last()) * 10 + ((s.last() as u32) - 48) as nat
    }
}

/// The integer that `s` spells: an optional `+` or `-`, then one or more
/// ASCII digits, nothing else (no white space).
pub open spec fn integer_value(s: Seq<char>) -> Option<int> {
    let signed = s.len() > 0 && (s[0] == '-' || s[0] == '+');
    let body = if signed { s.drop_first() } else { s };
    if body.len() > 0 && all_digits(body) {
        if s[0] == '-' {
            Some(-(digits_value(body) as int))
        } else {
            Some(digits_value(body) as int)
        }
    } else {
        None
    }
}

/// The signed byte that `s` spells, if it spells one in range.
pub open spec fn parse_i8(s: Seq<char>) -> Option<i8> {
    match integer_value(s) {
        Some(v) => if -128 <= v <= 127 {
            Some(v as i8)
        } else {
            None
        },
        None => None,
    }
}

proof fn lemma_digits_grow(s: Seq<char>, c: char)
    requires
        '0' <= c <= '9',
    ensures
        digits_value(s.push(c)) == digits_value(s) * 10 + ((c as u32) - 48) as nat,
        digits_value(s.push(c)) >= digits_value(s),
{
    assert(s.push(c).drop_last() =~= s);
}

/// Reads a signed byte written in decimal, as `str::parse::<i8>` does.
pub fn parse_signed_byte(s: &str) -> (r: Option<i8>)
    ensures
        r == parse_i8(s@),
{
    let n = s.unicode_len();
    if n == 0 {
        return None;
    }
    let first = s.get_char(0);
    let negative = first == '-';
    let start: usize = if first == '-' || first == '+' { 1 } else { 0 };
    if start == n {
        return None;
    }
    let ghost body = s@.subrange(start as int, n as int);
    assert(start == 1 ==> s@.drop_first() =~= body);
    assert(start == 0 ==> s@ =~= body);
    assert(s@.subrange(start as int, start as int) =~= Seq::<char>::empty());
    // `acc` is the value read so far, held at 129 once it passes the range.
    let mut acc: u32 = 0;
    let mut i: usize = start;
    while i < n
        invariant
            start <= i <= n,
            n == s@.len(),
            body == s@.subrange(start as int, n as int),
            start == 1 ==> s@.drop_first() == body,
            start == 0 ==> s@ == body,
            (s@[0] == '-' || s@[0] == '+') <==> start == 1,
            all_digits(s@.subrange(start as int, i as int)),
            acc == if digits_value(s@.subrange(start as int, i as int)) < 129 {
                digits_value(s@.subrange(start as int, i as int))
            } else {
                129
            },
        decreases n - i,
    {
        let c = s.get_char(i);
        if !('0' <= c && c <= '9') {
            assert(!all_digits(body)) by {
                assert(body[i - start] == c);
            }
            return None;
        }
        proof {
            let pre = s@.subrange(start as int, i as int);
            assert(s@.subrange(start as int, i + 1) =~= pre.push(c));
            lemma_digits_grow(pre, c);
        }
        let d: u32 = (c as u32) - 48;
        acc = acc * 10 + d;
        if acc > 129 {
            acc = 129;
        }
        i = i + 1;
    }
    assert(s@.subrange(start as int, n as int) =~= body);
    if negative {
        if acc <= 128 {
            Some((0 - (acc as i32)) as i8)
        } else {
            None
        }
    } else if acc <= 127 {
        Some(acc as i8)
    } else {
        None
    }
}

/// Whether `s` ends with `c` once white space at both ends is cut off.
pub open spec fn ends_with_trimmed(s: Seq<char>, c: char) -> bool
    decreases s.len(),
{
    if s.len() == 0 {
        false
    } else if white_space(s.last()) {
        ends_with_trimmed(s.drop_last(), c)
    } else {
        s.last() == c
    }
}

/// Decides `s.trim().ends_with(c)`.
pub fn trimmed_ends_with(s: &str, c: char) -> (r: bool)
    ensures
        r == ends_with_trimmed(s@, c),
{
    let mut i: usize = s.unicode_len();
    assert(s@.subrange(0, i as int) =~= s@);
    while i > 0
        invariant
            i <= s@.len(),
            ends_with_trimmed(s@, c) == ends_with_trimmed(s@.subrange(0, i as int), c),
        decreases i,
    {
        let last = s.get_char(i - 1);
        assert(s@.subrange(0, i as int).drop_last() =~= s@.subrange(0, i - 1));
        if !is_white_space(last) {
            return last == c;
        }
        i = i - 1;
    }
    false
}

} // verus!
