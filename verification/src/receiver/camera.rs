//! The camera server's text protocol: the commands sent to it and the
//! reading of its `status_us` reply.

use vstd::prelude::*;

verus! {

/// The decimal digit character of a value below 10.
pub open spec fn digit_char(d: int) -> char {
    if d == 0 { '0' } else if d == 1 { '1' } else if d == 2 { '2' } else if d == 3 { '3' }
    else if d == 4 { '4' } else if d == 5 { '5' } else if d == 6 { '6' } else if d == 7 { '7' }
    else if d == 8 { '8' } else { '9' }
}

/// The decimal representation of a natural number, without leading zeros.
pub open spec fn decimal(n: nat) -> Seq<char>
    decreases n,
{
    if n < 10 {
        seq![digit_char(n as int)]
    } else {
        decimal(n / 10) + seq![digit_char((n % 10) as int)]
    }
}

/// The decimal representation of an integer: a minus sign before the
/// digits of a negative one.
pub open spec fn signed_decimal(n: int) -> Seq<char> {
    if n < 0 {
        seq!['-'] + decimal((-n) as nat)
    } else {
        decimal(n as nat)
    }
}

fn digit_str(d: u128) -> (s: &'static str)
    requires
        d < 10,
    ensures
        s@ == seq![digit_char(d as int)],
{
    if d == 0 { proof { reveal_strlit("0"); } "0" }
    else if d == 1 { proof { reveal_strlit("1"); } "1" }
    else if d == 2 { proof { reveal_strlit("2"); } "2" }
    else if d == 3 { proof { reveal_strlit("3"); } "3" }
    else if d == 4 { proof { reveal_strlit("4"); } "4" }
    else if d == 5 { proof { reveal_strlit("5"); } "5" }
    else if d == 6 { proof { reveal_strlit("6"); } "6" }
    else if d == 7 { proof { reveal_strlit("7"); } "7" }
    else if d == 8 { proof { reveal_strlit("8"); } "8" }
    else { proof { reveal_strlit("9"); } "9" }
}

/// Appends the decimal digits of `n` to `s`.
pub fn push_decimal(s: &mut String, n: u128)
    ensures
        final(s)@ == old(s)@ + decimal(n as nat),
    decreases n,
{
    if n < 10 {
        s.append(digit_str(n));
    } else {
        push_decimal(s, n / 10);
        s.append(digit_str(n % 10));
        assert(old(s)@ + decimal((n / 10) as nat) + seq![digit_char((n % 10) as int)] =~= old(s)@ + decimal(n as nat));
    }
}

/// The decimal text of a signed integer.
pub fn signed_decimal_string(n: i64) -> (s: String)
    ensures
        s@ == signed_decimal(n as int),
{
    let mut s = String::new();
    if n < 0 {
        proof { reveal_strlit("-"); }
        s.append("-");
        let m: u128 = (0i128 - n as i128) as u128;
        push_decimal(&mut s, m);
    } else {
        push_decimal(&mut s, n as u128);
        assert(Seq::<char>::empty() + decimal(n as nat) =~= decimal(n as nat));
    }
    s
}

/// The command that starts recording, stamped with the session's elapsed
/// microseconds: `start:<elapsed_us>`.
pub open spec fn start_command_text(elapsed_us: nat) -> Seq<char> {
    seq!['s', 't', 'a', 'r', 't', ':'] + decimal(elapsed_us)
}

/// The start command for a session that has run `elapsed_us` microseconds.
pub fn start_command(elapsed_us: u128) -> (s: String)
    ensures
        s@ == start_command_text(elapsed_us as nat),
{
    let mut s = String::new();
    proof { reveal_strlit("start:"); }
    s.append("start:");
    push_decimal(&mut s, elapsed_us);
    s
}

/// The command that stops recording.
pub fn stop_command() -> (s: &'static str)
    ensures
        s@ == seq!['s', 't', 'o', 'p'],
{
    proof { reveal_strlit("stop"); }
    "stop"
}

/// The command that asks for the elapsed recording time.
pub fn status_command() -> (s: &'static str)
    ensures
        s@ == seq!['s', 't', 'a', 't', 'u', 's', '_', 'u', 's'],
{
    proof { reveal_strlit("status_us"); }
    "status_us"
}

/// Whether a character is whitespace (Unicode `White_Space`, as
/// `char::is_whitespace`).
pub open spec fn is_whitespace(c: char) -> bool {
    c == ' ' || ('\u{9}' <= c && c <= '\u{D}') || c == '\u{85}' || c == '\u{A0}' || c == '\u{1680}'
        || ('\u{2000}' <= c && c <= '\u{200A}') || c == '\u{2028}' || c == '\u{2029}' || c == '\u{202F}'
        || c == '\u{205F}' || c == '\u{3000}'
}

/// `s` without leading and trailing whitespace.
pub open spec fn trim_chars(s: Seq<char>) -> Seq<char>
    decreases s.len(),
{
    if s.len() > 0 && is_whitespace(s[0]) {
        trim_chars(s.drop_first())
    } else if s.len() > 0 && is_whitespace(s.last()) {
        trim_chars(s.drop_last())
    } else {
        s
    }
}

/// ASCII lowercase of a character; others unchanged.
pub open spec fn ascii_lower(c: char) -> char {
    if 'A' <= c && c <= 'Z' { ((c as u32) + 32) as char } else { c }
}

/// Whether two texts are equal ignoring ASCII case.
pub open spec fn eq_ignore_ascii_case(a: Seq<char>, b: Seq<char>) -> bool {
    a.len() == b.len() && forall|i: int| 0 <= i < a.len() ==> ascii_lower(a[i]) == ascii_lower(b[i])
}

/// The value of a digit character.
pub open spec fn digit_value(c: char) -> int {
    c as int - '0' as int
}

/// The value of a run of decimal digits.
pub open spec fn digits_value(s: Seq<char>) -> nat
    decreases s.len(),
{
    if s.len() == 0 {
        0
    } else {
        (digits_value(s.drop_last()) * 10 + digit_value(s.last())) as nat
    }
}

/// Whether every character is an ASCII digit.
pub open spec fn all_digits(s: Seq<char>) -> bool {
    forall|i: int| 0 <= i < s.len() ==> '0' <= #[trigger] s[i] && s[i] <= '9'
}

/// The digits of an unsigned number as `str::parse` reads it: an optional
/// `+`, then at least one digit.
pub open spec fn unsigned_digits(s: Seq<char>) -> Seq<char> {
    if s.len() > 0 && s[0] == '+' { s.drop_first() } else { s }
}

/// What `str::parse::<u64>` gives: the value when the text is an optional
/// `+` followed by digits whose value fits in 64 bits.
pub open spec fn parse_u64_spec(s: Seq<char>) -> Option<u64> {
    let d = unsigned_digits(s);
    if d.len() > 0 && all_digits(d) && digits_value(d) <= u64::MAX {
        Some(digits_value(d) as u64)
    } else {
        None
    }
}

/// The camera server's reply to `status_us` could not be read.
#[derive(Debug, Clone, Copy, PartialEq, Eq, Structural)]
pub enum StatusReplyError {
    /// `ELAPSED_US:` followed by something that is not a 64-bit number.
    InvalidNumber,
    /// Neither `IDLE` nor `ELAPSED_US:<n>`.
    Unexpected,
}

/// The prefix of an elapsed-time reply.
pub open spec fn elapsed_prefix() -> Seq<char> {
    seq!['E', 'L', 'A', 'P', 'S', 'E', 'D', '_', 'U', 'S', ':']
}

/// The meaning of a (trimmed) `status_us` reply: `IDLE` in any ASCII case is
/// no recording; `ELAPSED_US:` and a number (whitespace around it allowed)
/// is the elapsed recording time in microseconds.
pub open spec fn status_reply(r: Seq<char>) -> Result<Option<u64>, StatusReplyError> {
    if eq_ignore_ascii_case(r, seq!['I', 'D', 'L', 'E']) {
        Ok(None)
    } else if r.len() >= 11 && r.take(11) == elapsed_prefix() {
        match parse_u64_spec(trim_chars(r.skip(11))) {
            Some(v) => Ok(Some(v)),
            None => Err(StatusReplyError::InvalidNumber),
        }
    } else {
        Err(StatusReplyError::Unexpected)
    }
}

fn is_ws(c: char) -> (r: bool)
    ensures
        r == is_whitespace(c),
{
    c == ' ' || ('\u{9}' <= c && c <= '\u{D}') || c == '\u{85}' || c == '\u{A0}' || c == '\u{1680}'
        || ('\u{2000}' <= c && c <= '\u{200A}') || c == '\u{2028}' || c == '\u{2029}' || c == '\u{202F}'
        || c == '\u{205F}' || c == '\u{3000}'
}

fn same_ignoring_case(c: char, u: char) -> (r: bool)
    requires
        'A' <= u <= 'Z',
    ensures
        r == (ascii_lower(c) == ascii_lower(u)),
{
    let cu = c as u32;
    let uu = u as u32;
    proof {
        if 'A' <= c && c <= 'Z' {
            assert(ascii_lower(c) as u32 == cu + 32);
        }
        assert(ascii_lower(u) as u32 == uu + 32);
    }
    cu == uu || cu == uu + 32
}

/// Reads the camera server's `status_us` reply.
pub fn parse_status_reply(reply: &str) -> (r: Result<Option<u64>, StatusReplyError>)
    ensures
        r == status_reply(reply@),
{
    let n = reply.unicode_len();
    proof { reveal_strlit("IDLE"); }
    let idle = "IDLE";
    if n == 4 {
        let mut same = true;
        let mut i: usize = 0;
        while i < 4
            invariant
                i <= 4,
                n == 4,
                n == reply@.len(),
                idle@ == seq!['I', 'D', 'L', 'E'],
                same == (forall|j: int| 0 <= j < i ==> ascii_lower(reply@[j]) == ascii_lower(idle@[j])),
            decreases 4 - i,
        {
            if !same_ignoring_case(reply.get_char(i), idle.get_char(i)) {
                same = false;
            }
            i += 1;
        }
        if same {
            return Ok(None);
        }
    }
    proof { reveal_strlit("ELAPSED_US:"); }
    let prefix = "ELAPSED_US:";
    if n < 11 {
        return Err(StatusReplyError::Unexpected);
    }
    let mut i: usize = 0;
    while i < 11
        invariant
            i <= 11 <= n,
            n == reply@.len(),
            prefix@ == elapsed_prefix(),
            forall|j: int| 0 <= j < i ==> reply@[j] == prefix@[j],
        decreases 11 - i,
    {
        if reply.get_char(i) != prefix.get_char(i) {
            assert(reply@.take(11) != elapsed_prefix()) by {
                assert(reply@.take(11)[i as int] != elapsed_prefix()[i as int]);
            }
            return Err(StatusReplyError::Unexpected);
        }
        i += 1;
    }
    assert(reply@.take(11) =~= elapsed_prefix());
    let rest = reply.substring_char(11, n);
    match parse_u64_trimmed(rest) {
        Some(v) => Ok(Some(v)),
        None => Err(StatusReplyError::InvalidNumber),
    }
}

/// `s` without leading and trailing whitespace (`str::trim`).
pub fn trim_text(s: &str) -> (r: &str)
    ensures
        r@ == trim_chars(s@),
{
    let n = s.unicode_len();
    let mut a: usize = 0;
    let mut b: usize = n;
    assert(s@.subrange(0, n as int) =~= s@);
    while a < b && (is_ws(s.get_char(a)) || is_ws(s.get_char(b - 1)))
        invariant
            a <= b <= n,
            n == s@.len(),
            trim_chars(s@) == trim_chars(s@.subrange(a as int, b as int)),
        decreases b - a,
    {
        let ghost sub = s@.subrange(a as int, b as int);
        if is_ws(s.get_char(a)) {
            assert(sub.drop_first() =~= s@.subrange(a as int + 1, b as int));
            a += 1;
        } else {
            assert(sub.drop_last() =~= s@.subrange(a as int, b as int - 1));
            b -= 1;
        }
    }
    let ghost t = s@.subrange(a as int, b as int);
    assert(trim_chars(t) == t);
    s.substring_char(a, b)
}

/// `s.trim().parse::<u64>().ok()`.
fn parse_u64_trimmed(s: &str) -> (r: Option<u64>)
    ensures
        r == parse_u64_spec(trim_chars(s@)),
{
    let t = trim_text(s);
    let b = t.unicode_len();
    let mut start: usize = 0;
    if start < b && t.get_char(start) == '+' {
        start += 1;
    }
    assert(unsigned_digits(t@) =~= t@.subrange(start as int, b as int));
    if start == b {
        return None;
    }
    let mut value: u64 = 0;
    let mut i: usize = start;
    while i < b
        invariant
            start <= i <= b,
            start < b,
            b == t@.len(),
            t@ == trim_chars(s@),
            unsigned_digits(t@) == t@.subrange(start as int, b as int),
            all_digits(t@.subrange(start as int, i as int)),
            value as nat == digits_value(t@.subrange(start as int, i as int)),
        decreases b - i,
    {
        let c = t.get_char(i);
        assert(t@.subrange(start as int, i as int + 1).drop_last() =~= t@.subrange(start as int, i as int));
        if !('0' <= c && c <= '9') {
            assert(!all_digits(t@.subrange(start as int, b as int))) by {
                assert(t@.subrange(start as int, b as int)[i - start] == c);
            }
            return None;
        }
        let d: u64 = (c as u32 - '0' as u32) as u64;
        if value > (u64::MAX - d) / 10 {
            proof {
                let whole = t@.subrange(start as int, b as int);
                assert(whole.take((i - start) as int + 1) =~= t@.subrange(start as int, i as int + 1));
                assert(digits_value(t@.subrange(start as int, i as int + 1)) == value * 10 + d);
                if all_digits(whole) {
                    lemma_digits_value_grows(whole, (i - start) as int + 1);
                }
            }
            return None;
        }
        value = value * 10 + d;
        i += 1;
    }
    Some(value)
}

/// A longer run of digits is worth at least as much as its prefix.
proof fn lemma_digits_value_grows(s: Seq<char>, k: int)
    requires
        0 <= k <= s.len(),
        all_digits(s),
    ensures
        digits_value(s) >= digits_value(s.take(k)),
    decreases s.len(),
{
    if k < s.len() {
        assert(s.drop_last().take(k) =~= s.take(k));
        assert(all_digits(s.drop_last()));
        lemma_digits_value_grows(s.drop_last(), k);
        assert('0' <= s.last());
    } else {
        assert(s.take(k) =~= s);
    }
}

} // verus!
