//! Character-level string helpers shared by the rest of the library.
//!
//! Strings are reasoned about through their view, the sequence of their
//! characters.

use vstd::prelude::*;

verus! {

/// Unicode `White_Space` property, as used by `char::is_whitespace`,
/// `str::trim` and `str::split_whitespace`.
pub open spec fn is_whitespace(c: char) -> bool {
    let u = c as u32;
    ||| 0x09 <= u <= 0x0D
    ||| u == 0x20
    ||| u == 0x85
    ||| u == 0xA0
    ||| u == 0x1680
    ||| 0x2000 <= u <= 0x200A
    ||| u == 0x2028
    ||| u == 0x2029
    ||| u == 0x202F
    ||| u == 0x205F
    ||| u == 0x3000
}

/// ASCII letters `A..=Z` and `a..=z`.
pub open spec fn is_ascii_letter(c: char) -> bool {
    ('A' <= c <= 'Z') || ('a' <= c <= 'z')
}

/// `s` with its leading whitespace removed.
pub open spec fn trim_start_seq(s: Seq<char>) -> Seq<char>
    decreases s.len(),
{
    if s.len() > 0 && is_whitespace(s[0]) {
        trim_start_seq(s.drop_first())
    } else {
        s
    }
}

/// `s` with its trailing whitespace removed.
pub open spec fn trim_end_seq(s: Seq<char>) -> Seq<char>
    decreases s.len(),
{
    if s.len() > 0 && is_whitespace(s.last()) {
        trim_end_seq(s.drop_last())
    } else {
        s
    }
}

/// `s` with leading and trailing whitespace removed (what `str::trim` gives).
pub open spec fn trim_seq(s: Seq<char>) -> Seq<char> {
    trim_end_seq(trim_start_seq(s))
}

/// Whether `s` ends with `suffix`.
pub open spec fn ends_with_seq(s: Seq<char>, suffix: Seq<char>) -> bool {
    suffix.len() <= s.len() && s.subrange(s.len() - suffix.len(), s.len() as int) == suffix
}

/// Whether `needle` occurs as a contiguous piece of `hay`.
pub open spec fn contains_seq(hay: Seq<char>, needle: Seq<char>) -> bool {
    exists|i: int|
        0 <= i && i + needle.len() <= hay.len() && #[trigger] hay.subrange(i, i + needle.len())
            == needle
}

/// The maximal run of non-whitespace characters at the start of `s`.
pub open spec fn leading_word(s: Seq<char>) -> Seq<char>
    decreases s.len(),
{
    if s.len() == 0 || is_whitespace(s[0]) {
        Seq::empty()
    } else {
        seq![s[0]] + leading_word(s.drop_first())
    }
}

/// The first whitespace-separated word of `s` (empty when `s` holds none).
pub open spec fn first_word(s: Seq<char>) -> Seq<char> {
    leading_word(trim_start_seq(s))
}

/// What follows the first word of `s`.
pub open spec fn after_first_word(s: Seq<char>) -> Seq<char> {
    trim_start_seq(s).skip(first_word(s).len() as int)
}

/// Exec counterpart of `is_whitespace`.
pub fn is_whitespace_char(c: char) -> (b: bool)
    ensures
        b == is_whitespace(c),
{
    let u = c as u32;
    (0x09 <= u && u <= 0x0D) || u == 0x20 || u == 0x85 || u == 0xA0 || u == 0x1680 || (0x2000
        <= u && u <= 0x200A) || u == 0x2028 || u == 0x2029 || u == 0x202F || u == 0x205F || u
        == 0x3000
}

/// Exec counterpart of `is_ascii_letter`.
pub fn is_ascii_letter_char(c: char) -> (b: bool)
    ensures
        b == is_ascii_letter(c),
{
    ('A' <= c && c <= 'Z') || ('a' <= c && c <= 'z')
}

/// Copies the characters of `s` into a vector.
pub fn chars_of(s: &str) -> (v: Vec<char>)
    ensures
        v@ == s@,
{
    let mut v: Vec<char> = Vec::new();
    for c in it: s.chars()
        invariant
            v@ == it.seq().take(it.index()),
    {
        v.push(c);
    }
    v
}

/// Builds a `String` holding exactly the characters of `chars`
/// (`String: FromIterator<&char>`).
#[verifier::external_body]
pub fn string_from_chars(chars: &Vec<char>) -> (s: String)
    ensures
        s@ == chars@,
{
    chars.iter().collect()
}

proof fn lemma_trim_start_step(s: Seq<char>, i: int)
    requires
        0 <= i < s.len(),
        is_whitespace(s[i]),
    ensures
        trim_start_seq(s.subrange(i, s.len() as int)) == trim_start_seq(
            s.subrange(i + 1, s.len() as int),
        ),
{
    assert(s.subrange(i, s.len() as int).drop_first() =~= s.subrange(i + 1, s.len() as int));
}

proof fn lemma_trim_end_step(t: Seq<char>, j: int)
    requires
        0 < j <= t.len(),
        is_whitespace(t[j - 1]),
    ensures
        trim_end_seq(t.subrange(0, j)) == trim_end_seq(t.subrange(0, j - 1)),
{
    assert(t.subrange(0, j).drop_last() =~= t.subrange(0, j - 1));
}

/// Removes leading and trailing whitespace (the behaviour of `str::trim`).
pub fn trim_chars(s: &Vec<char>) -> (r: Vec<char>)
    ensures
        r@ == trim_seq(s@),
{
    let n = s.len();
    let mut i: usize = 0;
    assert(s@.subrange(0, n as int) =~= s@);
    while i < n && is_whitespace_char(s[i])
        invariant
            i <= n,
            n == s.len(),
            trim_start_seq(s@) == trim_start_seq(s@.subrange(i as int, n as int)),
        decreases n - i,
    {
        proof {
            lemma_trim_start_step(s@, i as int);
        }
        i = i + 1;
    }
    let ghost t = s@.subrange(i as int, n as int);
    assert(trim_start_seq(t) == t);
    let mut j: usize = n;
    assert(t.subrange(0, (j - i) as int) =~= t);
    while j > i && is_whitespace_char(s[j - 1])
        invariant
            i <= j <= n,
            n == s.len(),
            t == s@.subrange(i as int, n as int),
            trim_end_seq(t) == trim_end_seq(t.subrange(0, (j - i) as int)),
        decreases j,
    {
        proof {
            lemma_trim_end_step(t, (j - i) as int);
        }
        j = j - 1;
    }
    assert(trim_end_seq(t.subrange(0, (j - i) as int)) == t.subrange(0, (j - i) as int));
    let mut r: Vec<char> = Vec::new();
    let mut k: usize = i;
    while k < j
        invariant
            i <= k <= j <= n,
            n == s.len(),
            r@ == s@.subrange(i as int, k as int),
        decreases j - k,
    {
        r.push(s[k]);
        k = k + 1;
        assert(r@ =~= s@.subrange(i as int, k as int));
    }
    assert(r@ =~= t.subrange(0, (j - i) as int));
    r
}

/// `str::trim` followed by `to_string`.
pub fn trim_string(s: &str) -> (r: String)
    ensures
        r@ == trim_seq(s@),
{
    let v = chars_of(s);
    let t = trim_chars(&v);
    string_from_chars(&t)
}

/// Whether `s` ends with `suffix`.
pub fn ends_with_chars(s: &Vec<char>, suffix: &Vec<char>) -> (b: bool)
    ensures
        b == ends_with_seq(s@, suffix@),
{
    let n = s.len();
    let m = suffix.len();
    if m > n {
        return false;
    }
    let off = n - m;
    let mut k: usize = 0;
    while k < m
        invariant
            k <= m,
            m == suffix.len(),
            n == s.len(),
            off == n - m,
            forall|q: int| 0 <= q < k ==> s@[off + q] == suffix@[q],
        decreases m - k,
    {
        if s[off + k] != suffix[k] {
            assert(s@.subrange(off as int, n as int)[k as int] != suffix@[k as int]);
            return false;
        }
        k = k + 1;
    }
    assert(s@.subrange(off as int, n as int) =~= suffix@);
    true
}

/// Whether `needle` occurs as a contiguous piece of `hay`.
pub fn contains_chars(hay: &Vec<char>, needle: &Vec<char>) -> (b: bool)
    ensures
        b == contains_seq(hay@, needle@),
{
    let n = hay.len();
    let m = needle.len();
    if m > n {
        assert forall|i: int|
            0 <= i && i + m <= n implies #[trigger] hay@.subrange(i, i + m) != needle@ by {}
        return false;
    }
    let mut i: usize = 0;
    while i <= n - m
        invariant
            m <= n,
            n == hay.len(),
            m == needle.len(),
            i <= n - m + 1,
            forall|p: int| 0 <= p < i ==> #[trigger] hay@.subrange(p, p + m) != needle@,
        decreases n - m + 1 - i,
    {
        let mut k: usize = 0;
        let mut same = true;
        while k < m
            invariant
                k <= m,
                i + m <= n,
                n == hay.len(),
                m == needle.len(),
                same ==> forall|q: int| 0 <= q < k ==> hay@[i + q] == needle@[q],
                !same ==> hay@.subrange(i as int, i + m) != needle@,
            decreases m - k,
        {
            if same && hay[i + k] != needle[k] {
                assert(hay@.subrange(i as int, i + m)[k as int] != needle@[k as int]);
                same = false;
            }
            k = k + 1;
        }
        if same {
            assert(hay@.subrange(i as int, i + m) =~= needle@);
            return true;
        }
        if i == n - m {
            return false;
        }
        i = i + 1;
    }
    false
}

/// Whether `c` is removed by `without_blanks`: a space, or, when
/// `newlines` is set, also a line feed.
pub open spec fn is_blank(c: char, newlines: bool) -> bool {
    c == ' ' || (newlines && c == '\n')
}

/// `s` without its blanks (see `is_blank`).
pub open spec fn without_blanks_seq(s: Seq<char>, newlines: bool) -> Seq<char> {
    s.filter(|c: char| !is_blank(c, newlines))
}

/// Removes spaces (and line feeds when `newlines` is set), as
/// `str::replace` with an empty replacement does.
pub fn without_blanks(s: &Vec<char>, newlines: bool) -> (r: Vec<char>)
    ensures
        r@ == without_blanks_seq(s@, newlines),
{
    let mut out: Vec<char> = Vec::new();
    let mut i: usize = 0;
    while i < s.len()
        invariant
            i <= s.len(),
            out@ == s@.take(i as int).filter(|c: char| !is_blank(c, newlines)),
        decreases s.len() - i,
    {
        proof {
            reveal(Seq::filter);
            assert(s@.take(i + 1).drop_last() =~= s@.take(i as int));
        }
        let c = s[i];
        if !(c == ' ' || (newlines && c == '\n')) {
            out.push(c);
        }
        i = i + 1;
    }
    assert(s@.take(s.len() as int) =~= s@);
    out
}

/// Keeps the characters of `s` that are ASCII letters.
pub open spec fn ascii_letters_of(s: Seq<char>) -> Seq<char> {
    s.filter(|c: char| is_ascii_letter(c))
}

/// Removes every character that is not an ASCII letter.
pub fn normalize_string(string: &str) -> (r: String)
    ensures
        r@ == ascii_letters_of(string@),
{
    let v = chars_of(string);
    let mut out: Vec<char> = Vec::new();
    let mut i: usize = 0;
    while i < v.len()
        invariant
            i <= v.len(),
            out@ == v@.take(i as int).filter(|c: char| is_ascii_letter(c)),
        decreases v.len() - i,
    {
        proof {
            reveal(Seq::filter);
            assert(v@.take(i + 1).drop_last() =~= v@.take(i as int));
        }
        if is_ascii_letter_char(v[i]) {
            out.push(v[i]);
        }
        i = i + 1;
    }
    assert(v@.take(v.len() as int) =~= v@);
    string_from_chars(&out)
}


/// Locates the first word of `s[from..]`: `start` is where its leading
/// whitespace ends and `end` where the word ends.
pub fn next_word(s: &Vec<char>, from: usize) -> (r: (usize, usize))
    requires
        from <= s.len(),
    ensures
        from <= r.0 <= r.1 <= s.len(),
        trim_start_seq(s@.subrange(from as int, s.len() as int)) == s@.subrange(
            r.0 as int,
            s.len() as int,
        ),
        first_word(s@.subrange(from as int, s.len() as int)) == s@.subrange(r.0 as int, r.1 as int),
        after_first_word(s@.subrange(from as int, s.len() as int)) == s@.subrange(
            r.1 as int,
            s.len() as int,
        ),
{
    let n = s.len();
    let mut i: usize = from;
    while i < n && is_whitespace_char(s[i])
        invariant
            from <= i <= n,
            n == s.len(),
            trim_start_seq(s@.subrange(from as int, n as int)) == trim_start_seq(
                s@.subrange(i as int, n as int),
            ),
        decreases n - i,
    {
        proof {
            lemma_trim_start_step(s@, i as int);
        }
        i = i + 1;
    }
    assert(trim_start_seq(s@.subrange(i as int, n as int)) == s@.subrange(i as int, n as int));
    let mut j: usize = i;
    assert(s@.subrange(i as int, j as int) + s@.subrange(j as int, n as int) =~= s@.subrange(
        i as int,
        n as int,
    ));
    while j < n && !is_whitespace_char(s[j])
        invariant
            i <= j <= n,
            n == s.len(),
            leading_word(s@.subrange(i as int, n as int)) == s@.subrange(i as int, j as int)
                + leading_word(s@.subrange(j as int, n as int)),
        decreases n - j,
    {
        assert(s@.subrange(j as int, n as int).drop_first() =~= s@.subrange(j + 1, n as int));
        assert(s@.subrange(i as int, j as int) + seq![s[j as int]] =~= s@.subrange(i as int, j + 1));
        j = j + 1;
    }
    assert(leading_word(s@.subrange(j as int, n as int)) =~= Seq::<char>::empty());
    assert(s@.subrange(i as int, j as int) + Seq::<char>::empty() =~= s@.subrange(i as int, j as int));
    assert(s@.subrange(i as int, n as int).skip((j - i) as int) =~= s@.subrange(j as int, n as int));
    (i, j)
}


/// The character of a decimal digit.
pub open spec fn digit_char(d: nat) -> char {
    ('0' as u32 + d) as char
}

/// Decimal notation of `n`, without leading zeros.
pub open spec fn decimal(n: nat) -> Seq<char>
    decreases n,
{
    if n < 10 {
        seq![digit_char(n)]
    } else {
        decimal(n / 10).push(digit_char(n % 10))
    }
}

fn digit_of(d: u64) -> (c: char)
    requires
        d < 10,
    ensures
        c == digit_char(d as nat),
{
    if d == 0 {
        '0'
    } else if d == 1 {
        '1'
    } else if d == 2 {
        '2'
    } else if d == 3 {
        '3'
    } else if d == 4 {
        '4'
    } else if d == 5 {
        '5'
    } else if d == 6 {
        '6'
    } else if d == 7 {
        '7'
    } else if d == 8 {
        '8'
    } else {
        '9'
    }
}

fn decimal_chars(n: u64) -> (v: Vec<char>)
    ensures
        v@ == decimal(n as nat),
    decreases n,
{
    if n < 10 {
        let mut v: Vec<char> = Vec::new();
        v.push(digit_of(n));
        v
    } else {
        let mut v = decimal_chars(n / 10);
        v.push(digit_of(n % 10));
        v
    }
}

/// Decimal notation of `n` (what `to_string` gives for an unsigned number).
pub fn decimal_string(n: u64) -> (s: String)
    ensures
        s@ == decimal(n as nat),
{
    let v = decimal_chars(n);
    string_from_chars(&v)
}


proof fn lemma_filter_keeps_all(s: Seq<char>)
    requires
        forall|i: int| 0 <= i < s.len() ==> is_ascii_letter(#[trigger] s[i]),
    ensures
        s.filter(|c: char| is_ascii_letter(c)) == s,
    decreases s.len(),
{
    reveal(Seq::filter);
    if s.len() > 0 {
        assert forall|i: int| 0 <= i < s.drop_last().len() implies is_ascii_letter(
            #[trigger] s.drop_last()[i],
        ) by {
            assert(s.drop_last()[i] == s[i]);
        }
        lemma_filter_keeps_all(s.drop_last());
        assert(s.drop_last().push(s.last()) =~= s);
    }
}

/// Normalising text holds nothing but ASCII letters, so normalising it again
/// changes nothing.
pub proof fn law_normalize_idempotent(s: Seq<char>)
    ensures
        forall|i: int|
            0 <= i < ascii_letters_of(s).len() ==> is_ascii_letter(#[trigger] ascii_letters_of(s)[i]),
        ascii_letters_of(ascii_letters_of(s)) == ascii_letters_of(s),
{
    let t = ascii_letters_of(s);
    assert forall|i: int| 0 <= i < t.len() implies is_ascii_letter(#[trigger] t[i]) by {
        s.lemma_filter_pred(|c: char| is_ascii_letter(c), i);
    }
    lemma_filter_keeps_all(t);
}

} // verus!
