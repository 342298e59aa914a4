//! Character-level text handling used to read what system tools print:
//! whitespace trimming, line splitting, ASCII case-insensitive comparison,
//! prefix and substring tests, and decimal `u32` parsing.
//!
//! Every function here works on the `Seq<char>` view of a string and is
//! specified by a short spec function that states what the text operation
//! means.
use vstd::prelude::*;

verus! {

// ───────────────────────── Specifications ─────────────────────────

/// The Unicode `White_Space` property, which `char::is_whitespace` and
/// `str::trim` use: U+0009..U+000D, U+0020, U+0085, U+00A0, U+1680,
/// U+2000..U+200A, U+2028, U+2029, U+202F, U+205F and U+3000.
pub open spec fn is_white_space(c: char) -> bool {
    let u = c as u32;
    ||| 0x9 <= u <= 0xd
    ||| u == 0x20
    ||| u == 0x85
    ||| u == 0xa0
    ||| u == 0x1680
    ||| 0x2000 <= u <= 0x200a
    ||| u == 0x2028
    ||| u == 0x2029
    ||| u == 0x202f
    ||| u == 0x205f
    ||| u == 0x3000
}

/// `s` without its leading white space.
pub open spec fn trim_start(s: Seq<char>) -> Seq<char>
    decreases s.len(),
{
    if s.len() > 0 && is_white_space(s[0]) {
        trim_start(s.drop_first())
    } else {
        s
    }
}

/// `s` without its trailing white space.
pub open spec fn trim_end(s: Seq<char>) -> Seq<char>
    decreases s.len(),
{
    if s.len() > 0 && is_white_space(s.last()) {
        trim_end(s.drop_last())
    } else {
        s
    }
}

/// `s` without leading and trailing white space (`str::trim`).
pub open spec fn trim(s: Seq<char>) -> Seq<char> {
    trim_end(trim_start(s))
}

/// Index of the first occurrence of `c` in `s`, or `s.len()` when there is none.
pub open spec fn index_of_char(s: Seq<char>, c: char) -> int
    decreases s.len(),
{
    if s.len() == 0 {
        0
    } else if s[0] == c {
        0
    } else {
        1 + index_of_char(s.drop_first(), c)
    }
}

/// A line as `str::lines` yields it: the text before a `'\n'`, without a
/// `'\r'` that stands directly before that `'\n'`.
pub open spec fn strip_carriage_return(line: Seq<char>) -> Seq<char> {
    if line.len() > 0 && line.last() == '\r' {
        line.drop_last()
    } else {
        line
    }
}

/// The lines of `s` (`str::lines`): `s` is split at each `'\n'`, a `"\r\n"`
/// ending counts as one line ending, and a final line ending does not
/// start an empty last line. A bare `'\r'` is not a line ending.
pub open spec fn lines(s: Seq<char>) -> Seq<Seq<char>>
    decreases s.len(),
{
    if s.len() == 0 {
        Seq::empty()
    } else {
        let k = index_of_char(s, '\n');
        proof {
            lemma_index_of_char_bounds(s, '\n');
        }
        if k < s.len() {
            seq![strip_carriage_return(s.take(k))] + lines(s.skip(k + 1))
        } else {
            seq![s]
        }
    }
}

/// The code of `c` after ASCII lower-casing (`char::to_ascii_lowercase`).
pub open spec fn ascii_lower_code(c: char) -> int {
    let u = c as u32;
    if 65 <= u <= 90 {
        u + 32
    } else {
        u as int
    }
}

/// `a` and `b` are equal up to ASCII case (`str::eq_ignore_ascii_case`).
pub open spec fn eq_ignore_ascii_case(a: Seq<char>, b: Seq<char>) -> bool {
    &&& a.len() == b.len()
    &&& forall|i: int| 0 <= i < a.len() ==> ascii_lower_code(#[trigger] a[i]) == ascii_lower_code(b[i])
}

/// `p` is a prefix of `s` (`str::starts_with`).
pub open spec fn starts_with(s: Seq<char>, p: Seq<char>) -> bool {
    p.len() <= s.len() && s.take(p.len() as int) == p
}

/// `p` occurs somewhere in `s` (`str::contains`).
pub open spec fn contains(s: Seq<char>, p: Seq<char>) -> bool {
    exists|i: int| 0 <= i && i + p.len() <= s.len() && #[trigger] s.subrange(i, i + p.len()) == p
}

/// `c` is an ASCII decimal digit.
pub open spec fn is_digit(c: char) -> bool {
    48 <= (c as u32) <= 57
}

/// The value of the decimal numeral `s` (all of whose characters are digits).
pub open spec fn decimal_value(s: Seq<char>) -> int
    decreases s.len(),
{
    if s.len() == 0 {
        0
    } else {
        decimal_value(s.drop_last()) * 10 + ((s.last() as u32) - 48)
    }
}

/// `s` without one leading `'+'`, if it has one.
pub open spec fn without_plus_sign(s: Seq<char>) -> Seq<char> {
    if s.len() > 0 && s[0] == '+' {
        s.drop_first()
    } else {
        s
    }
}

/// What `s.parse::<u32>()` gives: an optional `'+'`, then one or more
/// decimal digits whose value fits in a `u32`; anything else is an error.
pub open spec fn parse_u32(s: Seq<char>) -> Option<u32> {
    let digits = without_plus_sign(s);
    if digits.len() > 0 && (forall|i: int| 0 <= i < digits.len() ==> is_digit(#[trigger] digits[i]))
        && decimal_value(digits) <= u32::MAX {
        Some(decimal_value(digits) as u32)
    } else {
        None
    }
}

// ───────────────────────── Lemmas ─────────────────────────

/// `index_of_char` lies within `s`, and names an occurrence of `c` when below `s.len()`.
pub proof fn lemma_index_of_char_bounds(s: Seq<char>, c: char)
    ensures
        0 <= index_of_char(s, c) <= s.len(),
        index_of_char(s, c) < s.len() ==> s[index_of_char(s, c)] == c,
    decreases s.len(),
{
    if s.len() > 0 && s[0] != c {
        lemma_index_of_char_bounds(s.drop_first(), c);
    }
}

proof fn lemma_decimal_value_grows(s: Seq<char>, n: int)
    requires
        0 <= n <= s.len(),
        forall|i: int| 0 <= i < s.len() ==> is_digit(#[trigger] s[i]),
    ensures
        decimal_value(s.take(n)) <= decimal_value(s),
    decreases s.len() - n,
{
    if n < s.len() {
        lemma_decimal_value_grows(s, n + 1);
        assert(s.take(n + 1).drop_last() =~= s.take(n));
        assert(decimal_value(s.take(n)) >= 0) by {
            lemma_decimal_value_nonneg(s.take(n));
        }
    } else {
        assert(s.take(n) =~= s);
    }
}

proof fn lemma_decimal_value_nonneg(s: Seq<char>)
    requires
        forall|i: int| 0 <= i < s.len() ==> is_digit(#[trigger] s[i]),
    ensures
        decimal_value(s) >= 0,
    decreases s.len(),
{
    if s.len() > 0 {
        lemma_decimal_value_nonneg(s.drop_last());
    }
}

// ───────────────────────── Executable functions ─────────────────────────

/// The characters of `s`, in order.
pub fn chars_of(s: &str) -> (out: Vec<char>)
    ensures
        out@ == s@,
{
    let mut out: Vec<char> = Vec::new();
    for c in it: s.chars()
        invariant
            out@ == it.seq().take(it.index() as int),
            it.seq() == s@,
    {
        out.push(c);
    }
    out
}

/// Whether `c` is white space in the sense of `is_white_space`.
pub fn char_is_white_space(c: char) -> (b: bool)
    ensures
        b == is_white_space(c),
{
    let u = c as u32;
    (0x9 <= u && u <= 0xd) || u == 0x20 || u == 0x85 || u == 0xa0 || u == 0x1680 || (0x2000 <= u
        && u <= 0x200a) || u == 0x2028 || u == 0x2029 || u == 0x202f || u == 0x205f || u == 0x3000
}

/// The bounds of the trimmed part of `cs`: `cs[lo..hi]` is `trim(cs)`.
pub fn trim_bounds(cs: &Vec<char>) -> (r: (usize, usize))
    ensures
        r.0 <= r.1 <= cs@.len(),
        cs@.subrange(r.0 as int, r.1 as int) == trim(cs@),
{
    let n = cs.len();
    let mut lo: usize = 0;
    assert(cs@.subrange(0, n as int) =~= cs@);
    while lo < n && char_is_white_space(cs[lo])
        invariant
            lo <= n,
            n == cs@.len(),
            trim_start(cs@) == trim_start(cs@.subrange(lo as int, n as int)),
        decreases n - lo,
    {
        assert(cs@.subrange(lo as int, n as int).drop_first() =~= cs@.subrange(
            lo + 1,
            n as int,
        ));
        lo = lo + 1;
    }
    let mut hi: usize = n;
    while hi > lo && char_is_white_space(cs[hi - 1])
        invariant
            lo <= hi <= n,
            n == cs@.len(),
            trim_start(cs@) == cs@.subrange(lo as int, n as int),
            trim(cs@) == trim_end(cs@.subrange(lo as int, hi as int)),
        decreases hi - lo,
    {
        assert(cs@.subrange(lo as int, hi as int).drop_last() =~= cs@.subrange(
            lo as int,
            hi - 1,
        ));
        hi = hi - 1;
    }
    (lo, hi)
}

/// `s` with leading and trailing white space removed (`str::trim`).
pub fn trim_str(s: &str) -> (out: String)
    ensures
        out@ == trim(s@),
{
    let cs = chars_of(s);
    let (lo, hi) = trim_bounds(&cs);
    s.substring_char(lo, hi).to_owned()
}

/// The first index `k >= from` with `cs[k] == c`, or `cs.len()`.
pub fn find_char_from(cs: &Vec<char>, from: usize, c: char) -> (k: usize)
    requires
        from <= cs@.len(),
    ensures
        from <= k <= cs@.len(),
        k - from == index_of_char(cs@.skip(from as int), c),
{
    let n = cs.len();
    let mut k: usize = from;
    while k < n && cs[k] != c
        invariant
            from <= k <= n,
            n == cs@.len(),
            index_of_char(cs@.skip(from as int), c) == (k - from) + index_of_char(
                cs@.skip(k as int),
                c,
            ),
        decreases n - k,
    {
        assert(cs@.skip(k as int).drop_first() =~= cs@.skip(k + 1));
        k = k + 1;
    }
    k
}

/// The lines of `s` (`str::lines`).
pub fn split_lines(s: &str) -> (out: Vec<String>)
    ensures
        out.deep_view() == lines(s@),
{
    let cs = chars_of(s);
    let n = cs.len();
    let mut out: Vec<String> = Vec::new();
    let mut start: usize = 0;
    assert(cs@.skip(0) =~= cs@);
    assert(out.deep_view() =~= Seq::<Seq<char>>::empty());
    while start < n
        invariant
            start <= n,
            n == cs@.len(),
            cs@ == s@,
            out.deep_view() + lines(cs@.skip(start as int)) == lines(s@),
        decreases n - start,
    {
        let k = find_char_from(&cs, start, '\n');
        let ghost rest = cs@.skip(start as int);
        if k < n {
            let mut end = k;
            if end > start && cs[end - 1] == '\r' {
                end = end - 1;
            }
            let line = s.substring_char(start, end).to_owned();
            proof {
                assert(rest.take(k - start) =~= cs@.subrange(start as int, k as int));
                assert(rest.skip(k - start + 1) =~= cs@.skip(k + 1));
                assert(line@ == strip_carriage_return(rest.take(k - start))) by {
                    if k > start && cs@[k - 1] == '\r' {
                        assert(cs@.subrange(start as int, k as int).drop_last() =~= cs@.subrange(
                            start as int,
                            k - 1,
                        ));
                    }
                }
                assert(out.deep_view().push(line@) + lines(cs@.skip(k + 1)) =~= out.deep_view()
                    + lines(rest));
            }
            let ghost prev = out.deep_view();
            out.push(line);
            proof {
                assert(out.deep_view() =~= prev.push(line@));
            }
            start = k + 1;
        } else {
            let line = s.substring_char(start, n).to_owned();
            proof {
                assert(cs@.subrange(start as int, n as int) =~= rest);
                assert(cs@.skip(n as int) =~= Seq::<char>::empty());
                assert(out.deep_view().push(line@) + lines(cs@.skip(n as int)) =~= out.deep_view()
                    + lines(rest));
            }
            let ghost prev = out.deep_view();
            out.push(line);
            proof {
                assert(out.deep_view() =~= prev.push(line@));
            }
            start = n;
        }
    }
    proof {
        assert(cs@.skip(n as int) =~= Seq::<char>::empty());
        assert(out.deep_view() + lines(cs@.skip(start as int)) =~= out.deep_view());
    }
    out
}

/// The code of `c` after ASCII lower-casing.
fn lower_code(c: char) -> (r: u32)
    ensures
        r == ascii_lower_code(c),
{
    let u = c as u32;
    if 65 <= u && u <= 90 {
        u + 32
    } else {
        u
    }
}

/// Whether `a` and `b` are equal up to ASCII case (`str::eq_ignore_ascii_case`).
pub fn str_eq_ignore_ascii_case(a: &str, b: &str) -> (r: bool)
    ensures
        r == eq_ignore_ascii_case(a@, b@),
{
    let x = chars_of(a);
    let y = chars_of(b);
    if x.len() != y.len() {
        return false;
    }
    let n = x.len();
    let mut i: usize = 0;
    while i < n
        invariant
            i <= n,
            n == x@.len(),
            n == y@.len(),
            x@ == a@,
            y@ == b@,
            forall|j: int| 0 <= j < i ==> ascii_lower_code(#[trigger] x@[j]) == ascii_lower_code(
                y@[j],
            ),
        decreases n - i,
    {
        if lower_code(x[i]) != lower_code(y[i]) {
            return false;
        }
        i = i + 1;
    }
    true
}

/// Whether `a` and `b` are the same text.
pub fn str_equals(a: &str, b: &str) -> (r: bool)
    ensures
        r == (a@ == b@),
{
    let x = chars_of(a);
    let y = chars_of(b);
    if x.len() != y.len() {
        return false;
    }
    let n = x.len();
    let mut i: usize = 0;
    while i < n
        invariant
            i <= n,
            n == x@.len(),
            n == y@.len(),
            x@ == a@,
            y@ == b@,
            forall|j: int| 0 <= j < i ==> x@[j] == y@[j],
        decreases n - i,
    {
        if x[i] != y[i] {
            return false;
        }
        i = i + 1;
    }
    assert(x@ =~= y@);
    true
}

/// Whether `s` starts with `p` (`str::starts_with`).
pub fn str_starts_with(s: &str, p: &str) -> (r: bool)
    ensures
        r == starts_with(s@, p@),
{
    let x = chars_of(s);
    let y = chars_of(p);
    if y.len() > x.len() {
        return false;
    }
    let n = y.len();
    let mut i: usize = 0;
    while i < n
        invariant
            i <= n,
            n == y@.len(),
            n <= x@.len(),
            x@ == s@,
            y@ == p@,
            forall|j: int| 0 <= j < i ==> x@[j] == y@[j],
        decreases n - i,
    {
        if x[i] != y[i] {
            assert(s@.take(n as int)[i as int] != p@[i as int]);
            return false;
        }
        i = i + 1;
    }
    assert(s@.take(n as int) =~= p@);
    true
}

/// Whether `y` occurs in `x` starting at index `i`.
fn matches_at(x: &Vec<char>, y: &Vec<char>, i: usize) -> (r: bool)
    requires
        i + y@.len() <= x@.len(),
    ensures
        r == (x@.subrange(i as int, i + y@.len()) == y@),
{
    let m = y.len();
    let mut k: usize = 0;
    while k < m
        invariant
            k <= m,
            m == y@.len(),
            i + m <= x.len(),
            forall|j: int| 0 <= j < k ==> x@[i + j] == y@[j],
        decreases m - k,
    {
        if x[i + k] != y[k] {
            assert(x@.subrange(i as int, i + m)[k as int] != y@[k as int]);
            return false;
        }
        k = k + 1;
    }
    assert(x@.subrange(i as int, i + m) =~= y@);
    true
}

/// Whether `p` occurs in `s` (`str::contains`).
pub fn str_contains(s: &str, p: &str) -> (r: bool)
    ensures
        r == contains(s@, p@),
{
    let x = chars_of(s);
    let y = chars_of(p);
    if y.len() > x.len() {
        assert forall|i: int| 0 <= i && i + p@.len() <= s@.len() implies #[trigger] s@.subrange(
            i,
            i + p@.len(),
        ) != p@ by {}
        return false;
    }
    let m = y.len();
    if m == 0 {
        assert(s@.subrange(0int, 0int + p@.len()) =~= p@);
        return true;
    }
    let count = x.len() - m + 1;
    let mut i: usize = 0;
    while i < count
        invariant
            count + m == x@.len() + 1,
            m == y@.len(),
            m > 0,
            x@ == s@,
            y@ == p@,
            forall|j: int| 0 <= j < i ==> #[trigger] s@.subrange(j, j + m) != p@,
        decreases count - i,
    {
        if matches_at(&x, &y, i) {
            return true;
        }
        i = i + 1;
    }
    assert forall|j: int| 0 <= j && j + p@.len() <= s@.len() implies #[trigger] s@.subrange(
        j,
        j + p@.len(),
    ) != p@ by {}
    false
}

/// `s.parse::<u32>().ok()`.
pub fn parse_u32_chars(s: &[char]) -> (r: Option<u32>)
    ensures
        r == parse_u32(s@),
{
    let n = s.len();
    let mut i: usize = 0;
    if n > 0 && s[0] == '+' {
        i = 1;
    }
    let ghost digits = without_plus_sign(s@);
    let start = i;
    assert(digits =~= s@.skip(start as int));
    if start == n {
        return None;
    }
    let mut acc: u64 = 0;
    while i < n
        invariant
            start <= i <= n,
            n == s@.len(),
            start < n,
            digits == without_plus_sign(s@),
            digits =~= s@.skip(start as int),
            acc <= u32::MAX,
            acc == decimal_value(digits.take(i - start)),
            forall|j: int| 0 <= j < i - start ==> is_digit(#[trigger] digits[j]),
        decreases n - i,
    {
        let c = s[i] as u32;
        if c < 48 || c > 57 {
            assert(!is_digit(digits[i - start]));
            return None;
        }
        assert(digits.take(i - start + 1).drop_last() =~= digits.take(i - start));
        let next = acc * 10 + (c - 48) as u64;
        if next > 0xffff_ffff {
            proof {
                let ghost k = i - start + 1;
                assert(digits.take(k).last() == s@[i as int]);
                assert(decimal_value(digits.take(k)) == next);
                assert forall|j: int| 0 <= j < k implies is_digit(
                    #[trigger] digits.take(k)[j],
                ) by {}
                if forall|j: int| 0 <= j < digits.len() ==> is_digit(#[trigger] digits[j]) {
                    lemma_decimal_value_grows(digits, k);
                }
            }
            return None;
        }
        acc = next;
        i = i + 1;
    }
    assert(digits.take(n - start) =~= digits);
    Some(acc as u32)
}

} // verus!
