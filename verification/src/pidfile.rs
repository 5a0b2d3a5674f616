//! Parsing the worker's PID file.
//!
//! During the restart handshake the successor's PID file is read, its
//! surrounding whitespace trimmed, and the remainder parsed as a signed
//! decimal integer. [`parse_pid`] is that parser; [`parsed_pid`] is its
//! exact mathematical description.

use vstd::prelude::*;
use vstd::string::StrSliceExecFns;

verus! {

/// ASCII whitespace, as found around the digits of a PID file.
pub open spec fn is_ascii_space(c: char) -> bool {
    c == ' ' || c == '\t' || c == '\n' || c == '\r' || c == '\u{0b}' || c == '\u{0c}'
}

/// `s` with its leading whitespace removed.
pub open spec fn spec_trim_front(s: Seq<char>) -> Seq<char>
    decreases s.len(),
{
    if s.len() > 0 && is_ascii_space(s[0]) {
        spec_trim_front(s.drop_first())
    } else {
        s
    }
}

/// `s` with its trailing whitespace removed.
pub open spec fn spec_trim_back(s: Seq<char>) -> Seq<char>
    decreases s.len(),
{
    if s.len() > 0 && is_ascii_space(s.last()) {
        spec_trim_back(s.drop_last())
    } else {
        s
    }
}

/// `s` with whitespace removed at both ends.
pub open spec fn spec_trim(s: Seq<char>) -> Seq<char> {
    spec_trim_back(spec_trim_front(s))
}

/// A decimal digit.
pub open spec fn is_dec_digit(c: char) -> bool {
    '0' <= c && c <= '9'
}

/// The numeric value of a decimal digit.
pub open spec fn digit_val(c: char) -> int {
    c as int - '0' as int
}

/// Every character of `s` is a decimal digit.
pub open spec fn all_dec_digits(s: Seq<char>) -> bool {
    forall|i: int| 0 <= i < s.len() ==> is_dec_digit(s[i])
}

/// The value of a sequence of decimal digits, most significant first.
pub open spec fn digits_val(s: Seq<char>) -> int
    decreases s.len(),
{
    if s.len() == 0 {
        0
    } else {
        digits_val(s.drop_last()) * 10 + digit_val(s.last())
    }
}

/// The value of `s` read as an optionally signed decimal integer literal:
/// an optional `+` or `-`, then one or more digits, nothing else.
pub open spec fn int_literal_value(s: Seq<char>) -> Option<int> {
    if s.len() > 0 && (s[0] == '-' || s[0] == '+') {
        let mag = s.subrange(1, s.len() as int);
        if mag.len() > 0 && all_dec_digits(mag) {
            Some(if s[0] == '-' { -digits_val(mag) } else { digits_val(mag) })
        } else {
            None
        }
    } else if s.len() > 0 && all_dec_digits(s) {
        Some(digits_val(s))
    } else {
        None
    }
}

/// What a PID file's contents denote: trim whitespace, parse as a signed
/// decimal integer, and require the value to fit a 32-bit process ID.
pub open spec fn parsed_pid(s: Seq<char>) -> Option<int> {
    match int_literal_value(spec_trim(s)) {
        Some(v) => if -0x8000_0000 <= v <= 0x7fff_ffff {
            Some(v)
        } else {
            None
        },
        None => None,
    }
}

proof fn lemma_trim_front_is_subrange(s: Seq<char>, start: int)
    requires
        0 <= start <= s.len(),
        forall|j: int| 0 <= j < start ==> is_ascii_space(s[j]),
        start == s.len() || !is_ascii_space(s[start]),
    ensures
        spec_trim_front(s) == s.subrange(start, s.len() as int),
    decreases start,
{
    if start == 0 {
        assert(s.subrange(0, s.len() as int) =~= s);
    } else {
        let rest = s.drop_first();
        lemma_trim_front_is_subrange(rest, start - 1);
        assert(rest.subrange(start - 1, rest.len() as int) =~= s.subrange(start, s.len() as int));
    }
}

proof fn lemma_trim_back_is_subrange(s: Seq<char>, end: int)
    requires
        0 <= end <= s.len(),
        forall|j: int| end <= j < s.len() ==> is_ascii_space(s[j]),
        end == 0 || !is_ascii_space(s[end - 1]),
    ensures
        spec_trim_back(s) == s.subrange(0, end),
    decreases s.len(),
{
    if end == s.len() {
        if s.len() == 0 {
            assert(s.subrange(0, 0) =~= s);
        } else {
            assert(s.subrange(0, s.len() as int) =~= s);
        }
    } else {
        let rest = s.drop_last();
        lemma_trim_back_is_subrange(rest, end);
        assert(rest.subrange(0, end) =~= s.subrange(0, end));
    }
}

/// The value of a digit string is never negative.
proof fn lemma_digits_val_nonneg(s: Seq<char>)
    requires
        all_dec_digits(s),
    ensures
        digits_val(s) >= 0,
    decreases s.len(),
{
    if s.len() > 0 {
        let front = s.drop_last();
        assert(all_dec_digits(front));
        lemma_digits_val_nonneg(front);
    }
}

/// Extending a digit string to the right never shrinks its value.
proof fn lemma_digits_val_prefix_le(s: Seq<char>, k: int)
    requires
        all_dec_digits(s),
        0 <= k <= s.len(),
    ensures
        digits_val(s.subrange(0, k)) <= digits_val(s),
    decreases s.len() - k,
{
    if k == s.len() {
        assert(s.subrange(0, k) =~= s);
    } else {
        let front = s.subrange(0, k + 1);
        assert(front.drop_last() =~= s.subrange(0, k));
        assert(all_dec_digits(front.drop_last()));
        lemma_digits_val_nonneg(front.drop_last());
        assert(digits_val(s.subrange(0, k)) <= digits_val(front));
        lemma_digits_val_prefix_le(s, k + 1);
    }
}

/// Trims ASCII whitespace from both ends of `s` and parses the remainder as
/// a signed 32-bit decimal integer: exactly what the restart handshake does
/// with the successor's PID file.
#[verifier::loop_isolation(false)]
pub fn parse_pid(s: &str) -> (r: Option<i32>)
    ensures
        r is Some <==> parsed_pid(s@) is Some,
        r is Some ==> r->0 as int == parsed_pid(s@)->0,
{
    let n = s.unicode_len();

    let mut start: usize = 0;
    while start < n && is_space_char(s.get_char(start))
        invariant
            0 <= start <= n,
            n == s@.len(),
            forall|j: int| 0 <= j < start ==> is_ascii_space(s@[j]),
        decreases n - start,
    {
        start = start + 1;
    }

    let mut end: usize = n;
    while end > start && is_space_char(s.get_char(end - 1))
        invariant
            start <= end <= n,
            n == s@.len(),
            forall|j: int| 0 <= j < start ==> is_ascii_space(s@[j]),
            start == n || !is_ascii_space(s@[start as int]),
            forall|j: int| end <= j < n ==> is_ascii_space(s@[j]),
        decreases end,
    {
        end = end - 1;
    }

    let ghost trimmed = s@.subrange(start as int, end as int);
    proof {
        lemma_trim_front_is_subrange(s@, start as int);
        let tail = s@.subrange(start as int, s@.len() as int);
        lemma_trim_back_is_subrange(tail, end - start);
        assert(tail.subrange(0, end - start) =~= trimmed);
        assert(spec_trim(s@) == trimmed);
    }

    if start == end {
        return None;
    }

    let first = s.get_char(start);
    let negative = first == '-';
    let digits_start: usize = if negative || first == '+' {
        start + 1
    } else {
        start
    };
    let ghost mag = if negative || first == '+' {
        trimmed.subrange(1, trimmed.len() as int)
    } else {
        trimmed
    };
    proof {
        assert(mag =~= s@.subrange(digits_start as int, end as int));
    }

    if digits_start == end {
        return None;
    }

    // Accumulate the magnitude; anything above 2^31 cannot be a PID whatever
    // the sign, and with the bound the arithmetic below stays well inside i64.
    let mut acc: i64 = 0;
    let mut i: usize = digits_start;
    while i < end
        invariant
            digits_start <= i <= end <= n,
            n == s@.len(),
            digits_start < end,
            mag =~= s@.subrange(digits_start as int, end as int),
            forall|j: int| digits_start <= j < i ==> is_dec_digit(s@[j]),
            acc == digits_val(s@.subrange(digits_start as int, i as int)),
            0 <= acc <= 0x8000_0000,
        decreases end - i,
    {
        let c = s.get_char(i);
        let cv = c as u32;
        if cv < 48 || cv > 57 {
            proof {
                assert(mag[i - digits_start] == s@[i as int]);
                assert(!is_dec_digit(c));
                assert(!all_dec_digits(mag));
                assert(trimmed[0] == first);
                assert(int_literal_value(trimmed) is None);
                assert(parsed_pid(s@) is None);
            }
            return None;
        }
        let d: i64 = cv as i64 - 48;
        let next = acc * 10 + d;
        proof {
            assert(is_dec_digit(c));
            assert(d == digit_val(c));
            let prefix = s@.subrange(digits_start as int, i + 1);
            assert(prefix.drop_last() =~= s@.subrange(digits_start as int, i as int));
            assert(prefix.last() == c);
            assert(digits_val(prefix) == acc * 10 + d);
        }
        if next > 0x8000_0000 {
            proof {
                let prefix = s@.subrange(digits_start as int, i + 1);
                assert(trimmed[0] == first);
                if all_dec_digits(mag) {
                    assert(prefix =~= mag.subrange(0, i + 1 - digits_start));
                    lemma_digits_val_prefix_le(mag, i + 1 - digits_start);
                    assert(digits_val(mag) > 0x8000_0000);
                    lemma_digits_val_nonneg(mag);
                } else {
                    assert(int_literal_value(trimmed) is None);
                }
                assert(parsed_pid(s@) is None);
            }
            return None;
        }
        acc = next;
        i = i + 1;
    }

    proof {
        assert(s@.subrange(digits_start as int, end as int) =~= mag);
        assert(acc == digits_val(mag));
        assert forall|k: int| 0 <= k < mag.len() implies is_dec_digit(mag[k]) by {
            assert(mag[k] == s@[digits_start + k]);
        }
        assert(all_dec_digits(mag));
    }

    if negative {
        Some((-acc) as i32)
    } else if acc > 0x7fff_ffff {
        proof {
            assert(int_literal_value(trimmed) == Some(digits_val(mag)));
        }
        None
    } else {
        Some(acc as i32)
    }
}

/// ASCII whitespace test for one character.
fn is_space_char(c: char) -> (r: bool)
    ensures
        r == is_ascii_space(c),
{
    c == ' ' || c == '\t' || c == '\n' || c == '\r' || c == '\u{0b}' || c == '\u{0c}'
}

} // verus!
