//! Parsing a pool's replication factor out of its size-option string.
//!
//! The cluster reports a pool's configured size as free-form text such as
//! `"size: 3"`. The replication factor is the last whitespace-delimited
//! token of that text, read as an unsigned 32-bit integer; anything else is
//! rejected.

use vstd::prelude::*;

verus! {

/// Whitespace as the size-option text splits tokens: exactly the characters
/// with the Unicode `White_Space` property, as `char::is_whitespace` has
/// them.
pub open spec fn is_space(c: char) -> bool {
    c == ' ' || c == '\t' || c == '\n' || c == '\r' || c == '\u{b}' || c == '\u{c}' || c
        == '\u{85}' || c == '\u{a0}' || c == '\u{1680}' || ('\u{2000}' <= c && c <= '\u{200a}') || c
        == '\u{2028}' || c == '\u{2029}' || c == '\u{202f}' || c == '\u{205f}' || c == '\u{3000}'
}

/// A decimal digit.
pub open spec fn is_digit(c: char) -> bool {
    '0' <= c && c <= '9'
}

/// The numeric value of a decimal digit.
pub open spec fn digit_val(c: char) -> int
    recommends
        is_digit(c),
{
    c as u32 - '0' as u32
}

/// The value of a digit string, most significant digit first.
pub open spec fn digits_value(s: Seq<char>) -> int
    decreases s.len(),
{
    if s.len() == 0 {
        0
    } else {
        digits_value(s.drop_last()) * 10 + digit_val(s.last())
    }
}

/// Every character of `s` is a decimal digit.
pub open spec fn all_digits(s: Seq<char>) -> bool {
    forall|i: int| 0 <= i < s.len() ==> is_digit(#[trigger] s[i])
}

/// A token with an optional leading `+` removed: what remains must be the
/// digits of the number.
pub open spec fn strip_plus(tok: Seq<char>) -> Seq<char> {
    if tok.len() > 0 && tok[0] == '+' {
        tok.subrange(1, tok.len() as int)
    } else {
        tok
    }
}

/// What reading a token as a `u32` yields: after an optional leading `+`
/// there must be at least one character, all characters must be decimal
/// digits, and the value must fit in 32 bits.
pub open spec fn parsed_u32(tok: Seq<char>) -> Option<u32> {
    let digits = strip_plus(tok);
    if digits.len() > 0 && all_digits(digits) && digits_value(digits) <= u32::MAX {
        Some(digits_value(digits) as u32)
    } else {
        None
    }
}

/// `s` with its trailing whitespace removed.
pub open spec fn trim_trailing(s: Seq<char>) -> Seq<char>
    decreases s.len(),
{
    if s.len() == 0 {
        s
    } else if is_space(s.last()) {
        trim_trailing(s.drop_last())
    } else {
        s
    }
}

/// The longest whitespace-free suffix of `s`.
pub open spec fn tail_token(s: Seq<char>) -> Seq<char>
    decreases s.len(),
{
    if s.len() == 0 {
        s
    } else if is_space(s.last()) {
        Seq::empty()
    } else {
        tail_token(s.drop_last()).push(s.last())
    }
}

/// The last whitespace-delimited token of `s`, if `s` has one.
pub open spec fn last_token(s: Seq<char>) -> Option<Seq<char>> {
    let t = trim_trailing(s);
    if t.len() == 0 {
        None
    } else {
        Some(tail_token(t))
    }
}

/// The replication factor encoded in a size-option string: its last
/// whitespace-delimited token read as a `u32`, or nothing when no token is
/// there or the token is not such a number.
pub open spec fn pool_size_of(s: Seq<char>) -> Option<u32> {
    match last_token(s) {
        None => None,
        Some(tok) => parsed_u32(tok),
    }
}

/// The error text reported for a digit string that does not read as a `u32`,
/// mirroring how the standard integer parser scans: left to right, a
/// character that is no digit is reported where it is met, and a value that
/// leaves the 32-bit range is reported at the digit where it first does.
/// `acc` is the value of the digits already consumed.
pub open spec fn digit_scan_error(digits: Seq<char>, acc: int) -> Seq<char>
    decreases digits.len(),
{
    if digits.len() == 0 || !is_digit(digits[0]) {
        "invalid digit found in string"@
    } else if acc * 10 + digit_val(digits[0]) > u32::MAX {
        "number too large to fit in target type"@
    } else {
        digit_scan_error(digits.drop_first(), acc * 10 + digit_val(digits[0]))
    }
}

/// The error text `parse_pool_size` reports when it rejects `s`.
pub open spec fn parse_error_of(s: Seq<char>) -> Seq<char> {
    match last_token(s) {
        None => "Invalid size string returned from librados: "@ + s,
        Some(tok) => digit_scan_error(strip_plus(tok), 0),
    }
}

/// When everything from position `i` on is whitespace and the character just
/// before `i` (if any) is not, trimming stops exactly at `i`.
proof fn lemma_trim_trailing(s: Seq<char>, i: int)
    requires
        0 <= i <= s.len(),
        forall|j: int| i <= j < s.len() ==> is_space(#[trigger] s[j]),
        i == 0 || !is_space(s[i - 1]),
    ensures
        trim_trailing(s) == s.subrange(0, i),
    decreases s.len(),
{
    if i == s.len() {
        if s.len() == 0 {
            assert(trim_trailing(s) =~= s.subrange(0, i));
        } else {
            assert(!is_space(s.last()));
            assert(trim_trailing(s) =~= s.subrange(0, i));
        }
    } else {
        assert(is_space(s.last()));
        assert(s.drop_last() =~= s.subrange(0, s.len() - 1));
        lemma_trim_trailing(s.drop_last(), i);
        assert(s.drop_last().subrange(0, i) =~= s.subrange(0, i));
    }
}

/// When everything from position `i` on is not whitespace and the character
/// just before `i` (if any) is, the tail token is exactly the suffix from `i`.
proof fn lemma_tail_token(s: Seq<char>, i: int)
    requires
        0 <= i <= s.len(),
        forall|j: int| i <= j < s.len() ==> !is_space(#[trigger] s[j]),
        i == 0 || is_space(s[i - 1]),
    ensures
        tail_token(s) == s.subrange(i, s.len() as int),
    decreases s.len(),
{
    if i == s.len() {
        if s.len() == 0 {
            assert(tail_token(s) =~= s.subrange(i, s.len() as int));
        } else {
            assert(is_space(s.last()));
            assert(tail_token(s) =~= s.subrange(i, s.len() as int));
        }
    } else {
        assert(!is_space(s.last()));
        assert(s.drop_last() =~= s.subrange(0, s.len() - 1));
        lemma_tail_token(s.drop_last(), i);
        assert(s.drop_last().subrange(i, s.len() - 1) =~= s.subrange(i, s.len() - 1));
        assert(tail_token(s) =~= s.subrange(i, s.len() as int));
    }
}

/// Appending decimal digits never shrinks a non-negative digit value.
proof fn lemma_digits_value_grows(s: Seq<char>, k: int)
    requires
        0 <= k <= s.len(),
        forall|j: int| k <= j < s.len() ==> is_digit(#[trigger] s[j]),
        digits_value(s.subrange(0, k)) >= 0,
    ensures
        digits_value(s) >= digits_value(s.subrange(0, k)),
    decreases s.len() - k,
{
    if k == s.len() {
        assert(s.subrange(0, k) =~= s);
    } else {
        assert(s.drop_last() =~= s.subrange(0, s.len() - 1));
        assert(s.drop_last().subrange(0, k) =~= s.subrange(0, k));
        lemma_digits_value_grows(s.drop_last(), k);
        assert(is_digit(s.last()));
        assert(digit_val(s.last()) >= 0);
        assert(digits_value(s) == digits_value(s.drop_last()) * 10 + digit_val(s.last()));
        assert(digits_value(s.drop_last()) * 10 >= digits_value(s.drop_last())) by {
            assert(digits_value(s.drop_last()) >= 0);
        }
    }
}

/// True exactly when `c` is token-splitting whitespace.
fn is_space_char(c: char) -> (b: bool)
    ensures
        b == is_space(c),
{
    c == ' ' || c == '\t' || c == '\n' || c == '\r' || c == '\u{b}' || c == '\u{c}' || c
        == '\u{85}' || c == '\u{a0}' || c == '\u{1680}' || ('\u{2000}' <= c && c <= '\u{200a}') || c
        == '\u{2028}' || c == '\u{2029}' || c == '\u{202f}' || c == '\u{205f}' || c == '\u{3000}'
}

/// True exactly when `c` is a decimal digit.
fn is_digit_char(c: char) -> (b: bool)
    ensures
        b == is_digit(c),
{
    '0' <= c && c <= '9'
}

/// Read the replication factor out of a pool's size-option string.
///
/// Succeeds exactly when the last whitespace-delimited token of `s` is an
/// unsigned 32-bit decimal integer (an optional leading `+` is accepted), and
/// then returns that integer's value; otherwise the error carries the text
/// that `parse_error_of` gives.
#[verifier::loop_isolation(false)]
#[verifier::rlimit(60)]
pub fn parse_pool_size(s: &str) -> (r: Result<u32, String>)
    ensures
        match r {
            Ok(n) => pool_size_of(s@) == Some(n),
            Err(m) => pool_size_of(s@) is None && m@ == parse_error_of(s@),
        },
{
    let len = s.unicode_len();

    let mut end = len;
    while end > 0 && is_space_char(s.get_char(end - 1))
        invariant
            end <= len,
            len == s@.len(),
            forall|j: int| end <= j < len ==> is_space(#[trigger] s@[j]),
        decreases end,
    {
        end = end - 1;
    }
    proof {
        lemma_trim_trailing(s@, end as int);
    }
    if end == 0 {
        let mut msg = ("Invalid size string returned from librados: ").to_owned();
        msg.append(s);
        return Err(msg);
    }

    let mut start = end;
    while start > 0 && !is_space_char(s.get_char(start - 1))
        invariant
            start <= end <= len,
            len == s@.len(),
            forall|j: int| start <= j < end ==> !is_space(#[trigger] s@[j]),
        decreases start,
    {
        start = start - 1;
    }
    let ghost trimmed = s@.subrange(0, end as int);
    proof {
        assert(start < end) by {
            assert(!is_space(s@[end - 1]));
        }
        lemma_tail_token(trimmed, start as int);
        assert(trimmed.subrange(start as int, end as int) =~= s@.subrange(
            start as int,
            end as int,
        ));
    }
    let ghost tok = s@.subrange(start as int, end as int);
    proof {
        assert(last_token(s@) == Some(tok));
    }

    let mut i = start;
    if s.get_char(i) == '+' {
        i = i + 1;
    }
    let ghost digits = s@.subrange(i as int, end as int);
    proof {
        if tok[0] == '+' {
            assert(tok.subrange(1, tok.len() as int) =~= digits);
        } else {
            assert(tok =~= digits);
        }
    }
    if i == end {
        return Err(("invalid digit found in string").to_owned());
    }

    let mut val: u64 = 0;
    let mut k = i;
    proof {
        assert(digits.subrange(0, digits.len() as int) =~= digits);
    }
    while k < end
        invariant
            i <= k <= end <= len,
            len == s@.len(),
            digits == s@.subrange(i as int, end as int),
            forall|j: int| i <= j < k ==> is_digit(#[trigger] s@[j]),
            val == digits_value(s@.subrange(i as int, k as int)),
            val <= u32::MAX,
            digit_scan_error(digits.subrange(k - i, digits.len() as int), val as int)
                == digit_scan_error(digits, 0),
        decreases end - k,
    {
        let ghost suffix = digits.subrange(k - i, digits.len() as int);
        proof {
            assert(suffix[0] == s@[k as int]);
        }
        let c = s.get_char(k);
        if !is_digit_char(c) {
            proof {
                assert(!is_digit(digits[k - i]));
            }
            return Err(("invalid digit found in string").to_owned());
        }
        let d = (c as u32 - '0' as u32) as u64;
        proof {
            assert(s@.subrange(i as int, k + 1).drop_last() =~= s@.subrange(i as int, k as int));
            assert(s@.subrange(i as int, k + 1).last() == s@[k as int]);
        }
        val = val * 10 + d;
        if val > u32::MAX as u64 {
            proof {
                let done = s@.subrange(i as int, k + 1);
                if all_digits(digits) {
                    assert(done =~= digits.subrange(0, k + 1 - i));
                    lemma_digits_value_grows(digits, k + 1 - i);
                }
            }
            return Err(("number too large to fit in target type").to_owned());
        }
        proof {
            assert(suffix.drop_first() =~= digits.subrange(k + 1 - i, digits.len() as int));
        }
        k = k + 1;
    }
    proof {
        assert(digits =~= s@.subrange(i as int, k as int));
        assert(all_digits(digits));
    }
    Ok(val as u32)
}

} // verus!
