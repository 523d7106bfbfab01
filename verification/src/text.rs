//! Specifications of the text operations the library relies on, and the
//! standard-library calls that perform them.
use vstd::prelude::*;
use vstd::string::*;

verus! {

/// The character of a decimal digit.
pub open spec fn digit_char(d: nat) -> char {
    if d == 0 { '0' }
    else if d == 1 { '1' }
    else if d == 2 { '2' }
    else if d == 3 { '3' }
    else if d == 4 { '4' }
    else if d == 5 { '5' }
    else if d == 6 { '6' }
    else if d == 7 { '7' }
    else if d == 8 { '8' }
    else { '9' }
}

/// Base-ten text of a natural number, without sign or leading zeros.
pub open spec fn decimal(n: nat) -> Seq<char>
    decreases n,
{
    if n < 10 {
        seq![digit_char(n)]
    } else {
        decimal(n / 10).push(digit_char(n % 10))
    }
}

/// Whether `needle` occurs in `haystack` as a contiguous run.
pub open spec fn occurs_in(haystack: Seq<char>, needle: Seq<char>) -> bool {
    exists|i: int|
        0 <= i && i + needle.len() <= haystack.len() && #[trigger] haystack.subrange(
            i,
            i + needle.len(),
        ) == needle
}

/// Left-to-right replacement of every non-overlapping occurrence of `from`.
pub open spec fn replace_all(s: Seq<char>, from: Seq<char>, to: Seq<char>) -> Seq<char>
    decreases s.len(),
{
    if from.len() == 0 || s.len() < from.len() {
        s
    } else if s.subrange(0, from.len() as int) == from {
        to + replace_all(s.subrange(from.len() as int, s.len() as int), from, to)
    } else {
        seq![s[0]] + replace_all(s.subrange(1, s.len() as int), from, to)
    }
}

/// Replacing a pattern that does not occur leaves the text unchanged.
pub proof fn lemma_replace_absent(s: Seq<char>, from: Seq<char>, to: Seq<char>)
    requires
        !occurs_in(s, from),
    ensures
        replace_all(s, from, to) == s,
    decreases s.len(),
{
    if from.len() == 0 || s.len() < from.len() {
    } else {
        if s.subrange(0, from.len() as int) == from {
            assert(occurs_in(s, from)) by {
                assert(s.subrange(0int, 0int + from.len()) == from);
            }
        }
        let rest = s.subrange(1, s.len() as int);
        assert(!occurs_in(rest, from)) by {
            if occurs_in(rest, from) {
                let i = choose|i: int|
                    0 <= i && i + from.len() <= rest.len() && #[trigger] rest.subrange(
                        i,
                        i + from.len(),
                    ) == from;
                assert(s.subrange(i + 1, i + 1 + from.len()) =~= rest.subrange(
                    i,
                    i + from.len(),
                ));
            }
        }
        lemma_replace_absent(rest, from, to);
        assert(seq![s[0]] + rest =~= s);
    }
}

/// The parts written one after another with `separator` between each two,
/// as `[String]::join` writes them.
pub open spec fn join(parts: Seq<Seq<char>>, separator: Seq<char>) -> Seq<char>
    decreases parts.len(),
{
    if parts.len() == 0 {
        Seq::empty()
    } else if parts.len() == 1 {
        parts[0]
    } else {
        join(parts.drop_last(), separator) + separator + parts.last()
    }
}

/// Unicode `White_Space` characters, the set `str::trim` removes.
pub open spec fn is_unicode_whitespace(c: char) -> bool {
    ||| ('\u{9}' <= c && c <= '\u{d}')
    ||| c == ' '
    ||| c == '\u{85}'
    ||| c == '\u{a0}'
    ||| c == '\u{1680}'
    ||| ('\u{2000}' <= c && c <= '\u{200a}')
    ||| c == '\u{2028}'
    ||| c == '\u{2029}'
    ||| c == '\u{202f}'
    ||| c == '\u{205f}'
    ||| c == '\u{3000}'
}

pub open spec fn trim_start(s: Seq<char>) -> Seq<char>
    decreases s.len(),
{
    if s.len() > 0 && is_unicode_whitespace(s[0]) {
        trim_start(s.drop_first())
    } else {
        s
    }
}

pub open spec fn trim_end(s: Seq<char>) -> Seq<char>
    decreases s.len(),
{
    if s.len() > 0 && is_unicode_whitespace(s.last()) {
        trim_end(s.drop_last())
    } else {
        s
    }
}

/// The text without leading and trailing whitespace.
pub open spec fn trim(s: Seq<char>) -> Seq<char> {
    trim_end(trim_start(s))
}

pub open spec fn is_ascii_digit(c: char) -> bool {
    '0' <= c && c <= '9'
}

/// Value of a run of decimal digits.
pub open spec fn digits_value(s: Seq<char>) -> nat
    decreases s.len(),
{
    if s.len() == 0 {
        0
    } else {
        digits_value(s.drop_last()) * 10 + ((s.last() as int - '0' as int) as nat)
    }
}

/// `u64::from_str`: an optional `+`, then one or more decimal digits whose
/// value fits in `u64`.
pub open spec fn parse_u64(s: Seq<char>) -> Option<u64> {
    let digits = if s.len() > 0 && s[0] == '+' { s.drop_first() } else { s };
    if digits.len() > 0 && (forall|i: int| 0 <= i < digits.len() ==> #[trigger] is_ascii_digit(digits[i]))
        && digits_value(digits) <= u64::MAX {
        Some(digits_value(digits) as u64)
    } else {
        None
    }
}

fn is_whitespace_char(c: char) -> (white: bool)
    ensures
        white == is_unicode_whitespace(c),
{
    let code = c as u32;
    (0x9 <= code && code <= 0xd) || code == 0x20 || code == 0x85 || code == 0xa0 || code == 0x1680
        || (0x2000 <= code && code <= 0x200a) || code == 0x2028 || code == 0x2029 || code == 0x202f
        || code == 0x205f || code == 0x3000
}

/// The text without leading and trailing whitespace (what `str::trim`
/// returns).
pub(crate) fn str_trim(s: &str) -> (trimmed: String)
    ensures
        trimmed@ == trim(s@),
{
    let n = s.unicode_len();
    let mut start: usize = 0;
    proof {
        assert(s@.subrange(0, n as int) =~= s@);
    }
    while start < n && is_whitespace_char(s.get_char(start))
        invariant
            n == s@.len(),
            start <= n,
            trim_start(s@) == trim_start(s@.subrange(start as int, n as int)),
        decreases n - start,
    {
        proof {
            assert(s@.subrange(start as int, n as int).drop_first() =~= s@.subrange(
                start + 1,
                n as int,
            ));
        }
        start += 1;
    }
    let mut end: usize = n;
    while end > start && is_whitespace_char(s.get_char(end - 1))
        invariant
            n == s@.len(),
            start <= end <= n,
            trim_end(s@.subrange(start as int, n as int)) == trim_end(
                s@.subrange(start as int, end as int),
            ),
        decreases end - start,
    {
        proof {
            assert(s@.subrange(start as int, end as int).drop_last() =~= s@.subrange(
                start as int,
                end - 1,
            ));
        }
        end -= 1;
    }
    proof {
        assert(trim_start(s@.subrange(start as int, n as int)) == s@.subrange(start as int, n as int));
        assert(trim_end(s@.subrange(start as int, end as int)) == s@.subrange(start as int, end as int));
    }
    String::from_str(s.substring_char(start, end))
}

/// Parses an unsigned decimal integer (`u64::from_str`).
#[verifier::external_body]
pub(crate) fn str_parse_u64(s: &str) -> (value: Option<u64>)
    ensures
        value == parse_u64(s@),
{
    s.parse::<u64>().ok()
}

/// Base-ten text of a number, as `ToString` writes it.
#[verifier::external_body]
pub(crate) fn decimal_text(n: u64) -> (text: String)
    ensures
        text@ == decimal(n as nat),
{
    n.to_string()
}

fn occurs_at(haystack: &str, needle: &str, at: usize) -> (found: bool)
    requires
        at + needle@.len() <= haystack@.len() <= usize::MAX,
    ensures
        found == (haystack@.subrange(at as int, at + needle@.len()) == needle@),
{
    let m = needle.unicode_len();
    let mut k: usize = 0;
    while k < m
        invariant
            m == needle@.len(),
            at + m <= haystack@.len() <= usize::MAX,
            k <= m,
            forall|j: int| 0 <= j < k ==> #[trigger] haystack@[at + j] == needle@[j],
        decreases m - k,
    {
        if haystack.get_char(at + k) != needle.get_char(k) {
            proof {
                assert(haystack@.subrange(at as int, at + m)[k as int] != needle@[k as int]);
            }
            return false;
        }
        k += 1;
    }
    proof {
        assert forall|j: int| 0 <= j < m implies #[trigger] haystack@.subrange(at as int, at + m)[j]
            == needle@[j] by {
            assert(haystack@[at + j] == needle@[j]);
        }
        assert(haystack@.subrange(at as int, at + m) =~= needle@);
    }
    true
}

/// Whether `needle` occurs in `haystack` (what `str::contains` answers).
pub(crate) fn str_contains(haystack: &str, needle: &str) -> (found: bool)
    ensures
        found == occurs_in(haystack@, needle@),
{
    let n = haystack.unicode_len();
    let m = needle.unicode_len();
    if m > n {
        return false;
    }
    if m == 0 {
        proof {
            assert(haystack@.subrange(0int, 0int + needle@.len()) =~= needle@);
        }
        return true;
    }
    let mut at: usize = 0;
    while at < n - m + 1
        invariant
            n == haystack@.len(),
            m == needle@.len(),
            1 <= m <= n,
            at <= n - m + 1,
            forall|i: int|
                0 <= i < at ==> #[trigger] haystack@.subrange(i, i + needle@.len()) != needle@,
        decreases n - m + 1 - at,
    {
        if occurs_at(haystack, needle, at) {
            proof {
                assert(haystack@.subrange(at as int, at + needle@.len()) == needle@);
            }
            return true;
        }
        at += 1;
    }
    false
}

/// Replaces every non-overlapping occurrence of `from`, scanning left to
/// right (`str::replace` with a non-empty pattern).
#[verifier::external_body]
pub(crate) fn str_replace(s: &str, from: &str, to: &str) -> (replaced: String)
    requires
        from@.len() > 0,
    ensures
        replaced@ == replace_all(s@, from@, to@),
{
    s.replace(from, to)
}

} // verus!
