//! Searching and scanning byte strings.
//!
//! Every text this crate inspects (an HTTP response, the launcher state
//! record, a window title) is handled as its UTF-8 bytes.  The predicates
//! here are the vocabulary in which the other modules state their contracts.

use vstd::prelude::*;

verus! {

/// The byte of the line feed.
pub const LF: u8 = 10;

/// The byte of the carriage return.
pub const CR: u8 = 13;

/// The byte of the space character.
pub const SP: u8 = 32;

/// The byte of the decimal point, `.`.
pub const DOT: u8 = 46;

/// The byte of the digit `0`.
pub const ZERO: u8 = 48;

/// The byte of the digit `9`.
pub const NINE: u8 = 57;

/// The byte of the horizontal tab, the first of the five control characters
/// from tab to carriage return that count as white space.
pub const TAB: u8 = 9;

/// `needle` occurs in `hay` starting at index `i`.
pub open spec fn matches_at(hay: Seq<u8>, needle: Seq<u8>, i: int) -> bool {
    &&& 0 <= i
    &&& i + needle.len() <= hay.len()
    &&& hay.subrange(i, i + needle.len()) == needle
}

/// `needle` occurs somewhere in `hay`.
pub open spec fn contains(hay: Seq<u8>, needle: Seq<u8>) -> bool {
    exists|i: int| matches_at(hay, needle, i)
}

/// `hay` begins with `needle`.
pub open spec fn has_prefix(hay: Seq<u8>, needle: Seq<u8>) -> bool {
    matches_at(hay, needle, 0)
}

/// The least index at or after `start` at which `needle` occurs in `hay`.
pub open spec fn first_match_from(hay: Seq<u8>, needle: Seq<u8>, start: int) -> Option<int>
    decreases hay.len() - start + 1,
{
    if start < 0 || start + needle.len() > hay.len() {
        None
    } else if matches_at(hay, needle, start) {
        Some(start)
    } else {
        first_match_from(hay, needle, start + 1)
    }
}

/// The least index at which `needle` occurs in `hay`.
pub open spec fn first_match(hay: Seq<u8>, needle: Seq<u8>) -> Option<int> {
    first_match_from(hay, needle, 0)
}

/// What `first_match_from` returns is an occurrence, and the earliest one.
pub proof fn lemma_first_match_from(hay: Seq<u8>, needle: Seq<u8>, start: int)
    requires
        0 <= start,
    ensures
        match first_match_from(hay, needle, start) {
            Some(i) => start <= i && matches_at(hay, needle, i) && forall|j: int|
                start <= j < i ==> !matches_at(hay, needle, j),
            None => forall|j: int| start <= j ==> !matches_at(hay, needle, j),
        },
    decreases hay.len() - start + 1,
{
    if start + needle.len() > hay.len() {
    } else if matches_at(hay, needle, start) {
    } else {
        lemma_first_match_from(hay, needle, start + 1);
    }
}

/// `first_match` finds an occurrence exactly when there is one.
pub proof fn lemma_first_match_contains(hay: Seq<u8>, needle: Seq<u8>)
    ensures
        first_match(hay, needle) is Some <==> contains(hay, needle),
{
    lemma_first_match_from(hay, needle, 0);
}

/// Whether `needle` occurs in `hay` at index `at`.
pub fn occurs_at(hay: &[u8], needle: &[u8], at: usize) -> (r: bool)
    ensures
        r == matches_at(hay@, needle@, at as int),
{
    if needle.len() > hay.len() || at > hay.len() - needle.len() {
        return false;
    }
    let mut k: usize = 0;
    while k < needle.len()
        invariant
            k <= needle.len(),
            at + needle.len() <= hay.len(),
            forall|j: int| 0 <= j < k ==> hay@[at + j] == needle@[j],
        decreases needle.len() - k,
    {
        if hay[at + k] != needle[k] {
            return false;
        }
        k += 1;
    }
    assert(hay@.subrange(at as int, at + needle@.len()) =~= needle@);
    true
}

/// The first index at or after `start` at which `needle` occurs in `hay`.
pub fn find_from(hay: &[u8], needle: &[u8], start: usize) -> (r: Option<usize>)
    ensures
        match r {
            Some(i) => first_match_from(hay@, needle@, start as int) == Some(i as int),
            None => first_match_from(hay@, needle@, start as int) is None,
        },
{
    if needle.len() > hay.len() || start > hay.len() - needle.len() {
        return None;
    }
    let last: usize = hay.len() - needle.len();
    let mut i: usize = start;
    loop
        invariant
            start <= i <= last,
            last == hay.len() - needle.len(),
            first_match_from(hay@, needle@, start as int) == first_match_from(
                hay@,
                needle@,
                i as int,
            ),
        decreases last - i,
    {
        if occurs_at(hay, needle, i) {
            return Some(i);
        }
        if i == last {
            assert(first_match_from(hay@, needle@, i + 1) is None);
            return None;
        }
        i += 1;
    }
}

/// The first index at which `needle` occurs in `hay`.
pub fn find(hay: &[u8], needle: &[u8]) -> (r: Option<usize>)
    ensures
        match r {
            Some(i) => first_match(hay@, needle@) == Some(i as int),
            None => first_match(hay@, needle@) is None,
        },
{
    find_from(hay, needle, 0)
}

/// Whether `needle` occurs anywhere in `hay`.
pub fn includes(hay: &[u8], needle: &[u8]) -> (r: bool)
    ensures
        r == contains(hay@, needle@),
{
    proof {
        lemma_first_match_contains(hay@, needle@);
    }
    find(hay, needle).is_some()
}

/// Whether `a` and `b` hold the same bytes.
pub fn same_bytes(a: &[u8], b: &[u8]) -> (r: bool)
    ensures
        r == (a@ == b@),
{
    if a.len() != b.len() {
        return false;
    }
    let r = occurs_at(a, b, 0);
    assert(a@.subrange(0, a@.len() as int) =~= a@);
    r
}

/// Whether `hay` begins with `needle`.
pub fn begins_with(hay: &[u8], needle: &[u8]) -> (r: bool)
    ensures
        r == has_prefix(hay@, needle@),
{
    occurs_at(hay, needle, 0)
}

/// A class of bytes that a scan can run over.
#[derive(Clone, Copy, Debug, PartialEq, Eq, Structural)]
pub enum ByteClass {
    /// ASCII white space: space, tab, line feed, vertical tab, form feed,
    /// carriage return.
    Space,
    /// The decimal digits `0` to `9`.
    Digit,
    /// A decimal digit or the decimal point `.`.
    Numeral,
}

/// Whether `b` is ASCII white space.
pub open spec fn is_space(b: u8) -> bool {
    b == SP || TAB <= b <= CR
}

/// Whether `b` is a decimal digit.
pub open spec fn is_digit(b: u8) -> bool {
    ZERO <= b <= NINE
}

impl ByteClass {
    /// Whether byte `b` belongs to the class.
    pub open spec fn holds(self, b: u8) -> bool {
        match self {
            ByteClass::Space => is_space(b),
            ByteClass::Digit => is_digit(b),
            ByteClass::Numeral => is_digit(b) || b == DOT,
        }
    }

    /// Whether byte `b` belongs to the class.
    pub fn admits(self, b: u8) -> (r: bool)
        ensures
            r == self.holds(b),
    {
        match self {
            ByteClass::Space => b == SP || (TAB <= b && b <= CR),
            ByteClass::Digit => ZERO <= b && b <= NINE,
            ByteClass::Numeral => (ZERO <= b && b <= NINE) || b == DOT,
        }
    }
}

/// Where the longest run of `class` bytes that starts at `from` ends: the
/// first index at or after `from` whose byte is outside the class, or the
/// length of `s` if there is none.
pub open spec fn run_end(s: Seq<u8>, class: ByteClass, from: int) -> int
    decreases s.len() - from,
{
    if 0 <= from < s.len() && class.holds(s[from]) {
        run_end(s, class, from + 1)
    } else {
        from
    }
}

/// `run_end` stops at the first byte outside the class.
pub proof fn lemma_run_end(s: Seq<u8>, class: ByteClass, from: int)
    requires
        0 <= from <= s.len(),
    ensures
        from <= run_end(s, class, from) <= s.len(),
        forall|j: int| from <= j < run_end(s, class, from) ==> class.holds(s[j]),
        run_end(s, class, from) < s.len() ==> !class.holds(s[run_end(s, class, from)]),
    decreases s.len() - from,
{
    if from < s.len() && class.holds(s[from]) {
        lemma_run_end(s, class, from + 1);
    }
}

/// A run ends where it is seen to end: if every byte from `from` up to `to`
/// is in the class and the byte at `to`, if there is one, is not, then the
/// run that starts at `from` ends at `to`.
pub proof fn lemma_run_end_at(s: Seq<u8>, class: ByteClass, from: int, to: int)
    requires
        0 <= from <= to <= s.len(),
        forall|j: int| from <= j < to ==> class.holds(s[j]),
        to < s.len() ==> !class.holds(s[to]),
    ensures
        run_end(s, class, from) == to,
    decreases to - from,
{
    if from < to {
        lemma_run_end_at(s, class, from + 1, to);
    }
}

/// The end of the run of `class` bytes that starts at index `from`.
pub fn scan(s: &[u8], class: ByteClass, from: usize) -> (r: usize)
    ensures
        r == run_end(s@, class, from as int),
        from <= r,
        from <= s@.len() ==> r <= s@.len(),
{
    let mut i: usize = from;
    while i < s.len() && class.admits(s[i])
        invariant
            from <= i,
            from <= s@.len() ==> i <= s@.len(),
            run_end(s@, class, from as int) == run_end(s@, class, i as int),
        decreases s@.len() - i,
    {
        i += 1;
    }
    i
}

/// The number that the decimal digits `s` write.
pub open spec fn digits_value(s: Seq<u8>) -> nat
    decreases s.len(),
{
    if s.len() == 0 {
        0
    } else {
        digits_value(s.drop_last()) * 10 + (s.last() - ZERO) as nat
    }
}

/// `v`, or the largest `u64` where `v` does not fit.
pub open spec fn clamp_u64(v: nat) -> u64 {
    if v > u64::MAX {
        u64::MAX
    } else {
        v as u64
    }
}

/// Whether every byte of `s` is a decimal digit.
pub open spec fn all_digits(s: Seq<u8>) -> bool {
    forall|j: int| 0 <= j < s.len() ==> is_digit(#[trigger] s[j])
}

/// The number that the decimal digits `s` write, held at `u64::MAX` where it
/// is larger.  `None` where `s` holds a byte that is no digit.
pub fn digits_to_u64(s: &[u8]) -> (r: Option<u64>)
    ensures
        r == if all_digits(s@) {
            Some(clamp_u64(digits_value(s@)))
        } else {
            None
        },
{
    let mut acc: u64 = 0;
    let mut i: usize = 0;
    while i < s.len()
        invariant
            i <= s@.len(),
            all_digits(s@.take(i as int)),
            acc == clamp_u64(digits_value(s@.take(i as int))),
        decreases s@.len() - i,
    {
        if !ByteClass::Digit.admits(s[i]) {
            return None;
        }
        let d: u64 = (s[i] - ZERO) as u64;
        proof {
            let next = s@.take(i + 1);
            assert(next.drop_last() =~= s@.take(i as int));
            assert(all_digits(next));
        }
        acc = match acc.checked_mul(10) {
            None => u64::MAX,
            Some(tens) => match tens.checked_add(d) {
                None => u64::MAX,
                Some(v) => v,
            },
        };
        i += 1;
    }
    assert(s@.take(s@.len() as int) =~= s@);
    Some(acc)
}

/// The decimal digits that write `n`, without leading zeros.
pub open spec fn decimal_digits(n: nat) -> Seq<u8>
    decreases n,
{
    if n < 10 {
        seq![(ZERO + n) as u8]
    } else {
        decimal_digits(n / 10).push((ZERO + n % 10) as u8)
    }
}

/// Writing a number and reading it back gives the number: `decimal_digits`
/// yields digits only, and `digits_value` is its inverse.
pub proof fn lemma_decimal_round_trip(n: nat)
    ensures
        decimal_digits(n).len() >= 1,
        all_digits(decimal_digits(n)),
        digits_value(decimal_digits(n)) == n,
    decreases n,
{
    if n < 10 {
        assert(digits_value(decimal_digits(n).drop_last()) == 0);
    } else {
        lemma_decimal_round_trip(n / 10);
        assert(decimal_digits(n).drop_last() =~= decimal_digits(n / 10));
    }
}

/// Appends the bytes `bytes` to `out`.
pub fn append_bytes(out: &mut Vec<u8>, bytes: &[u8])
    ensures
        final(out)@ == old(out)@ + bytes@,
{
    let mut i: usize = 0;
    while i < bytes.len()
        invariant
            i <= bytes@.len(),
            out@ == old(out)@ + bytes@.take(i as int),
        decreases bytes@.len() - i,
    {
        out.push(bytes[i]);
        i += 1;
    }
}

/// Appends the decimal digits of `n` to `out`.
pub fn append_decimal(out: &mut Vec<u8>, n: u64)
    ensures
        final(out)@ == old(out)@ + decimal_digits(n as nat),
    decreases n,
{
    if n >= 10 {
        append_decimal(out, n / 10);
    }
    let digit: u8 = ZERO + (n % 10) as u8;
    out.push(digit);
}

} // verus!
