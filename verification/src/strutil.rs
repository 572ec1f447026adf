//! Small verified string tools the pipeline leans on: ASCII
//! case-insensitive comparison after trimming, substring search, and
//! decimal formatting for building header and cookie values.

use vstd::prelude::*;

verus! {

/// The ASCII whitespace characters the trim helper strips.
pub open spec fn is_space(c: char) -> bool {
    c == ' ' || c == '\t' || c == '\n' || c == '\r'
}

/// `s` with its leading whitespace stripped.
pub open spec fn trim_start_spec(s: Seq<char>) -> Seq<char>
    decreases s.len(),
{
    if s.len() > 0 && is_space(s[0]) {
        trim_start_spec(s.subrange(1, s.len() as int))
    } else {
        s
    }
}

/// `s` with its trailing whitespace stripped.
pub open spec fn trim_end_spec(s: Seq<char>) -> Seq<char>
    decreases s.len(),
{
    if s.len() > 0 && is_space(s[s.len() - 1]) {
        trim_end_spec(s.subrange(0, s.len() - 1))
    } else {
        s
    }
}

/// `s` with leading and trailing whitespace stripped.
pub open spec fn trim_spec(s: Seq<char>) -> Seq<char> {
    trim_end_spec(trim_start_spec(s))
}

proof fn lemma_trim_start_skip(s: Seq<char>, k: int)
    requires
        0 <= k <= s.len(),
        forall|i: int| 0 <= i < k ==> is_space(s[i]),
    ensures
        trim_start_spec(s) == trim_start_spec(s.subrange(k, s.len() as int)),
    decreases k,
{
    if k > 0 {
        let s1 = s.subrange(1, s.len() as int);
        lemma_trim_start_skip(s1, k - 1);
        assert(s1.subrange(k - 1, s1.len() as int) =~= s.subrange(k, s.len() as int));
    } else {
        assert(s.subrange(0, s.len() as int) =~= s);
    }
}

proof fn lemma_trim_end_skip(s: Seq<char>, k: int)
    requires
        0 <= k <= s.len(),
        forall|i: int| k <= i < s.len() ==> is_space(s[i]),
    ensures
        trim_end_spec(s) == trim_end_spec(s.subrange(0, k)),
    decreases s.len() - k,
{
    if k < s.len() {
        let s1 = s.subrange(0, s.len() - 1);
        lemma_trim_end_skip(s1, k);
        assert(s1.subrange(0, k) =~= s.subrange(0, k));
    } else {
        assert(s.subrange(0, s.len() as int) =~= s);
    }
}

fn is_space_exec(c: char) -> (r: bool)
    ensures
        r == is_space(c),
{
    c == ' ' || c == '\t' || c == '\n' || c == '\r'
}

/// Strips leading and trailing ASCII whitespace.
pub fn trim(s: &str) -> (r: &str)
    ensures
        r@ == trim_spec(s@),
{
    let len = s.unicode_len();
    let mut start: usize = 0;
    while start < len && is_space_exec(s.get_char(start))
        invariant
            start <= len,
            len == s@.len(),
            forall|i: int| 0 <= i < start ==> is_space(s@[i]),
        decreases len - start,
    {
        start = start + 1;
    }
    let mut end: usize = len;
    while end > start && is_space_exec(s.get_char(end - 1))
        invariant
            start <= end <= len,
            len == s@.len(),
            forall|i: int| end <= i < len ==> is_space(s@[i]),
        decreases end,
    {
        end = end - 1;
    }
    let r = s.substring_char(start, end);
    proof {
        let t = s@.subrange(start as int, s@.len() as int);
        lemma_trim_start_skip(s@, start as int);
        assert(trim_start_spec(t) == t);
        lemma_trim_end_skip(t, end - start);
        assert(t.subrange(0, end - start) =~= s@.subrange(start as int, end as int));
        if end > start {
            assert(t.subrange(0, end - start)[end - start - 1] == s@[end - 1]);
        }
        assert(trim_end_spec(t.subrange(0, end - start)) == t.subrange(0, end - start));
    }
    r
}

/// ASCII lowercase folding of one character: `A`..`Z` map to `a`..`z`,
/// everything else stays.
pub open spec fn lower_char(c: char) -> char {
    if 'A' <= c && c <= 'Z' {
        ((c as u8) + 32) as char
    } else {
        c
    }
}

/// ASCII lowercase folding of a whole character sequence.
pub open spec fn ascii_lower(s: Seq<char>) -> Seq<char> {
    Seq::new(s.len(), |i: int| lower_char(s[i]))
}

fn lower_char_exec(c: char) -> (r: char)
    ensures
        r == lower_char(c),
{
    if 'A' <= c && c <= 'Z' {
        ((c as u8) + 32) as char
    } else {
        c
    }
}

/// Whether two string slices hold the same characters.
pub fn str_eq(a: &str, b: &str) -> (r: bool)
    ensures
        r == (a@ == b@),
{
    let alen = a.unicode_len();
    let blen = b.unicode_len();
    if alen != blen {
        return false;
    }
    let mut i: usize = 0;
    while i < alen
        invariant
            i <= alen,
            alen == a@.len() == b@.len(),
            forall|j: int| 0 <= j < i ==> a@[j] == b@[j],
        decreases alen - i,
    {
        if a.get_char(i) != b.get_char(i) {
            return false;
        }
        i = i + 1;
    }
    proof {
        assert(a@ =~= b@);
    }
    true
}

/// The index of the first occurrence of `c` in `s`, or the length of `s`
/// when `c` does not occur.
pub open spec fn first_index(s: Seq<char>, c: char) -> int
    decreases s.len(),
{
    if s.len() == 0 {
        0
    } else if s[0] == c {
        0
    } else {
        1 + first_index(s.subrange(1, s.len() as int), c)
    }
}

/// A position before which `c` does not occur, and which holds `c` or is
/// the end, is exactly `first_index`.
pub proof fn lemma_first_index_at(s: Seq<char>, c: char, i: int)
    requires
        0 <= i <= s.len(),
        forall|j: int| 0 <= j < i ==> s[j] != c,
        i == s.len() || s[i] == c,
    ensures
        first_index(s, c) == i,
    decreases s.len(),
{
    if s.len() > 0 && s[0] != c {
        let s1 = s.subrange(1, s.len() as int);
        lemma_first_index_at(s1, c, i - 1);
    }
}

/// Whether two strings are equal after ASCII lowercase folding.
pub fn eq_ignore_ascii_case(a: &str, b: &str) -> (r: bool)
    ensures
        r == (ascii_lower(a@) == ascii_lower(b@)),
{
    let alen = a.unicode_len();
    let blen = b.unicode_len();
    if alen != blen {
        proof {
            assert(ascii_lower(a@).len() != ascii_lower(b@).len());
        }
        return false;
    }
    let mut i: usize = 0;
    while i < alen
        invariant
            i <= alen,
            alen == a@.len() == b@.len(),
            forall|j: int| 0 <= j < i ==> lower_char(a@[j]) == lower_char(b@[j]),
        decreases alen - i,
    {
        if lower_char_exec(a.get_char(i)) != lower_char_exec(b.get_char(i)) {
            proof {
                assert(ascii_lower(a@)[i as int] != ascii_lower(b@)[i as int]);
            }
            return false;
        }
        i = i + 1;
    }
    proof {
        assert(ascii_lower(a@) =~= ascii_lower(b@));
    }
    true
}

proof fn lemma_is_space_lower(c: char)
    ensures
        is_space(lower_char(c)) == is_space(c),
{
}

proof fn lemma_trim_start_lower(a: Seq<char>, b: Seq<char>)
    requires
        ascii_lower(a) == ascii_lower(b),
    ensures
        ascii_lower(trim_start_spec(a)) == ascii_lower(trim_start_spec(b)),
    decreases a.len(),
{
    assert(a.len() == ascii_lower(a).len() && b.len() == ascii_lower(b).len());
    if a.len() > 0 {
        assert(lower_char(a[0]) == ascii_lower(a)[0] && lower_char(b[0]) == ascii_lower(b)[0]);
        lemma_is_space_lower(a[0]);
        lemma_is_space_lower(b[0]);
        if is_space(a[0]) {
            let a1 = a.subrange(1, a.len() as int);
            let b1 = b.subrange(1, b.len() as int);
            assert(ascii_lower(a1) =~= ascii_lower(b1)) by {
                assert forall|i: int| 0 <= i < a1.len() implies ascii_lower(a1)[i] == ascii_lower(
                    b1,
                )[i] by {
                    assert(a1[i] == a[i + 1] && b1[i] == b[i + 1]);
                    assert(ascii_lower(a)[i + 1] == ascii_lower(b)[i + 1]);
                    assert(ascii_lower(a)[i + 1] == lower_char(a[i + 1]));
                    assert(ascii_lower(b)[i + 1] == lower_char(b[i + 1]));
                }
            }
            lemma_trim_start_lower(a1, b1);
        }
    }
}

proof fn lemma_trim_end_lower(a: Seq<char>, b: Seq<char>)
    requires
        ascii_lower(a) == ascii_lower(b),
    ensures
        ascii_lower(trim_end_spec(a)) == ascii_lower(trim_end_spec(b)),
    decreases a.len(),
{
    assert(a.len() == ascii_lower(a).len() && b.len() == ascii_lower(b).len());
    if a.len() > 0 {
        assert(lower_char(a[a.len() - 1]) == ascii_lower(a)[a.len() - 1] && lower_char(
            b[b.len() - 1],
        ) == ascii_lower(b)[b.len() - 1]);
        lemma_is_space_lower(a[a.len() - 1]);
        lemma_is_space_lower(b[b.len() - 1]);
        if is_space(a[a.len() - 1]) {
            let a1 = a.subrange(0, a.len() - 1);
            let b1 = b.subrange(0, b.len() - 1);
            assert(ascii_lower(a1) =~= ascii_lower(b1)) by {
                assert forall|i: int| 0 <= i < a1.len() implies ascii_lower(a1)[i] == ascii_lower(
                    b1,
                )[i] by {
                    assert(a1[i] == a[i] && b1[i] == b[i]);
                    assert(ascii_lower(a)[i] == ascii_lower(b)[i]);
                    assert(ascii_lower(a)[i] == lower_char(a[i]));
                    assert(ascii_lower(b)[i] == lower_char(b[i]));
                }
            }
            lemma_trim_end_lower(a1, b1);
        }
    }
}

/// Two strings equal after ASCII case folding stay equal after trimming:
/// folding and trimming commute over equality.
pub proof fn lemma_trim_lower(a: Seq<char>, b: Seq<char>)
    requires
        ascii_lower(a) == ascii_lower(b),
    ensures
        ascii_lower(trim_spec(a)) == ascii_lower(trim_spec(b)),
{
    lemma_trim_start_lower(a, b);
    lemma_trim_end_lower(trim_start_spec(a), trim_start_spec(b));
}

/// Whether `sub` occurs in `s` starting at index `i`.
pub open spec fn contains_at(s: Seq<char>, sub: Seq<char>, i: int) -> bool {
    0 <= i && i + sub.len() <= s.len() && s.subrange(i, i + sub.len() as int) == sub
}

/// Whether `sub` occurs anywhere in `s`.
pub open spec fn contains_sub(s: Seq<char>, sub: Seq<char>) -> bool {
    exists|i: int| contains_at(s, sub, i)
}

/// Substring search: whether `sub` occurs anywhere in `s`.
pub fn str_contains(s: &str, sub: &str) -> (r: bool)
    ensures
        r == contains_sub(s@, sub@),
{
    let n = s.unicode_len();
    let m = sub.unicode_len();
    if m > n {
        proof {
            assert(forall|i: int| !contains_at(s@, sub@, i));
        }
        return false;
    }
    let mut i: usize = 0;
    while i <= n - m
        invariant
            m <= n,
            n == s@.len(),
            m == sub@.len(),
            i <= n - m + 1,
            forall|k: int| 0 <= k < i ==> !contains_at(s@, sub@, k),
        decreases n - i,
    {
        let mut j: usize = 0;
        let mut matches_here = true;
        while j < m
            invariant
                i + m <= n,
                n == s@.len(),
                m == sub@.len(),
                j <= m,
                matches_here <==> (forall|k: int| 0 <= k < j ==> s@[i + k] == sub@[k]),
            decreases m - j,
        {
            if s.get_char(i + j) != sub.get_char(j) {
                matches_here = false;
                proof {
                    assert(s@[i + j] != sub@[j as int]);
                }
                j = m;
            } else {
                j = j + 1;
            }
        }
        if matches_here {
            proof {
                assert(s@.subrange(i as int, i + sub@.len() as int) =~= sub@);
                assert(contains_at(s@, sub@, i as int));
            }
            return true;
        }
        proof {
            assert(!(s@.subrange(i as int, i + sub@.len() as int) =~= sub@));
        }
        i = i + 1;
    }
    proof {
        assert(forall|k: int| i <= k ==> !contains_at(s@, sub@, k));
    }
    false
}

/// The decimal digit character for `d`.
pub open spec fn dec_digit(d: int) -> char {
    if d == 0 {
        '0'
    } else if d == 1 {
        '1'
    } else if d == 2 {
        '2'
    } else if d == 3 {
        '3'
    } else if d == 4 {
        '4'
    } else if d == 5 {
        '5'
    } else if d == 6 {
        '6'
    } else if d == 7 {
        '7'
    } else if d == 8 {
        '8'
    } else {
        '9'
    }
}

/// The decimal rendering of a non-negative number, most significant digit
/// first, without leading zeroes (`0` renders as `"0"`).
pub open spec fn dec_str(n: int) -> Seq<char>
    decreases n,
{
    if n < 10 {
        seq![dec_digit(n)]
    } else {
        dec_str(n / 10).push(dec_digit(n % 10))
    }
}

fn digit_str(d: u8) -> (r: &'static str)
    requires
        d < 10,
    ensures
        r@ =~= seq![dec_digit(d as int)],
{
    proof {
        reveal_strlit("0");
        reveal_strlit("1");
        reveal_strlit("2");
        reveal_strlit("3");
        reveal_strlit("4");
        reveal_strlit("5");
        reveal_strlit("6");
        reveal_strlit("7");
        reveal_strlit("8");
        reveal_strlit("9");
    }
    match d {
        0 => "0",
        1 => "1",
        2 => "2",
        3 => "3",
        4 => "4",
        5 => "5",
        6 => "6",
        7 => "7",
        8 => "8",
        _ => "9",
    }
}

/// The digit characters of `digits`, read back to front.
pub open spec fn digits_reversed(digits: Seq<u8>) -> Seq<char> {
    Seq::new(digits.len(), |i: int| dec_digit(digits[digits.len() - 1 - i] as int))
}

/// Renders a number in decimal.
pub fn u64_to_string(n: u64) -> (r: String)
    ensures
        r@ == dec_str(n as int),
{
    let mut digits: Vec<u8> = Vec::new();
    let mut m = n;
    while m >= 10
        invariant
            dec_str(n as int) == dec_str(m as int) + digits_reversed(digits@),
            forall|i: int| 0 <= i < digits@.len() ==> digits@[i] < 10,
        decreases m,
    {
        let ghost old_digits = digits@;
        let d = (m % 10) as u8;
        digits.push(d);
        proof {
            assert(digits_reversed(digits@) =~= seq![dec_digit(d as int)] + digits_reversed(
                old_digits,
            ));
            assert(dec_str(m as int) == dec_str(m as int / 10).push(dec_digit(m as int % 10)));
            assert(dec_str(m as int / 10).push(dec_digit(d as int)) + digits_reversed(old_digits)
                =~= dec_str(m as int / 10) + digits_reversed(digits@));
        }
        m = m / 10;
    }
    let ghost old_digits = digits@;
    digits.push(m as u8);
    proof {
        assert(digits_reversed(digits@) =~= seq![dec_digit(m as int)] + digits_reversed(
            old_digits,
        ));
        assert(dec_str(m as int) =~= seq![dec_digit(m as int)]);
        assert(digits_reversed(digits@) =~= dec_str(n as int));
    }
    let mut out = String::new();
    let mut i: usize = digits.len();
    while i > 0
        invariant
            i <= digits@.len(),
            forall|k: int| 0 <= k < digits@.len() ==> digits@[k] < 10,
            digits_reversed(digits@) == dec_str(n as int),
            out@ =~= digits_reversed(digits@).subrange(0, digits@.len() - i),
        decreases i,
    {
        let ghost old_out = out@;
        out.append(digit_str(digits[i - 1]));
        proof {
            assert(out@ =~= digits_reversed(digits@).subrange(0, digits@.len() - (i - 1)));
        }
        i = i - 1;
    }
    proof {
        assert(out@ =~= dec_str(n as int));
    }
    out
}

} // verus!
