//! Text as sequences of characters: comparison, search, splitting and trimming.
//!
//! Every executable function here is stated against the `Seq<char>` view of
//! its arguments, so that callers can reason about text without looking at
//! bytes.

use vstd::prelude::*;

verus! {

/// `String::push` appends exactly one character to the end of the string.
pub assume_specification[ String::push ](s: &mut String, c: char)
    ensures
        final(s)@ == old(s)@.push(c),
;

/// The characters that Unicode gives the `White_Space` property.
pub open spec fn is_whitespace_char(c: char) -> bool {
    ||| ('\u{0009}' <= c && c <= '\u{000D}')
    ||| c == ' '
    ||| c == '\u{0085}'
    ||| c == '\u{00A0}'
    ||| c == '\u{1680}'
    ||| ('\u{2000}' <= c && c <= '\u{200A}')
    ||| c == '\u{2028}'
    ||| c == '\u{2029}'
    ||| c == '\u{202F}'
    ||| c == '\u{205F}'
    ||| c == '\u{3000}'
}

/// ASCII letters, upper and lower case.
pub open spec fn is_ascii_letter(c: char) -> bool {
    ('a' <= c && c <= 'z') || ('A' <= c && c <= 'Z')
}

/// ASCII decimal digits.
pub open spec fn is_ascii_digit_char(c: char) -> bool {
    '0' <= c && c <= '9'
}

/// Position of the first occurrence of `c` in `s`, or the length of `s`
/// where `c` does not occur.
pub open spec fn first_index_of(s: Seq<char>, c: char) -> int
    decreases s.len(),
{
    if s.len() == 0 {
        0
    } else if s[0] == c {
        0
    } else {
        1 + first_index_of(s.drop_first(), c)
    }
}

/// The pieces of `s` between occurrences of `sep`. A text without `sep` is one
/// piece; an empty text is one empty piece.
pub open spec fn split_on(s: Seq<char>, sep: char) -> Seq<Seq<char>>
    decreases s.len(),
{
    let i = first_index_of(s, sep);
    if 0 <= i < s.len() {
        seq![s.take(i)] + split_on(s.skip(i + 1), sep)
    } else {
        seq![s]
    }
}

/// `s` without its leading white space.
pub open spec fn trim_start(s: Seq<char>) -> Seq<char>
    decreases s.len(),
{
    if s.len() > 0 && is_whitespace_char(s[0]) {
        trim_start(s.drop_first())
    } else {
        s
    }
}

/// `s` without its trailing white space.
pub open spec fn trim_end(s: Seq<char>) -> Seq<char>
    decreases s.len(),
{
    if s.len() > 0 && is_whitespace_char(s.last()) {
        trim_end(s.drop_last())
    } else {
        s
    }
}

/// `s` without leading and trailing white space.
pub open spec fn trim(s: Seq<char>) -> Seq<char> {
    trim_end(trim_start(s))
}

/// `first_index_of` is within bounds, points at `c` when inside the text, and
/// nothing before it is `c`.
pub proof fn lemma_first_index_of(s: Seq<char>, c: char)
    ensures
        0 <= first_index_of(s, c) <= s.len(),
        first_index_of(s, c) < s.len() ==> s[first_index_of(s, c)] == c,
        forall|j: int| 0 <= j < first_index_of(s, c) ==> s[j] != c,
    decreases s.len(),
{
    if s.len() > 0 && s[0] != c {
        lemma_first_index_of(s.drop_first(), c);
        let k = first_index_of(s.drop_first(), c);
        assert forall|j: int| 0 <= j < 1 + k implies s[j] != c by {
            if j > 0 {
                assert(s.drop_first()[j - 1] == s[j]);
            }
        }
    }
}

/// Any position that holds `c` with no `c` before it is the first index.
pub proof fn lemma_first_index_unique(s: Seq<char>, c: char, i: int)
    requires
        0 <= i <= s.len(),
        i < s.len() ==> s[i] == c,
        forall|j: int| 0 <= j < i ==> s[j] != c,
    ensures
        first_index_of(s, c) == i,
{
    lemma_first_index_of(s, c);
    let k = first_index_of(s, c);
    if k < i {
        assert(s[k] == c);
    } else if i < k {
        assert(s[i] == c);
    }
}

/// The start of the trimmed text: first position that holds no white space.
pub open spec fn trim_start_index(s: Seq<char>) -> int
    decreases s.len(),
{
    if s.len() > 0 && is_whitespace_char(s[0]) {
        1 + trim_start_index(s.drop_first())
    } else {
        0
    }
}

/// `trim_start` drops exactly the first `trim_start_index` characters.
pub proof fn lemma_trim_start_is_skip(s: Seq<char>)
    ensures
        0 <= trim_start_index(s) <= s.len(),
        trim_start(s) == s.skip(trim_start_index(s)),
        forall|j: int| 0 <= j < trim_start_index(s) ==> is_whitespace_char(s[j]),
        trim_start_index(s) < s.len() ==> !is_whitespace_char(s[trim_start_index(s)]),
    decreases s.len(),
{
    if s.len() > 0 && is_whitespace_char(s[0]) {
        let t = s.drop_first();
        lemma_trim_start_is_skip(t);
        let k = trim_start_index(t);
        assert(t.skip(k) =~= s.skip(1 + k));
        assert forall|j: int| 0 <= j < 1 + k implies is_whitespace_char(s[j]) by {
            if j > 0 {
                assert(t[j - 1] == s[j]);
            }
        }
        if 1 + k < s.len() {
            assert(t[k] == s[1 + k]);
        }
    } else {
        assert(s.skip(0) =~= s);
    }
}

/// The end of the trimmed text: one past the last position that holds no
/// white space.
pub open spec fn trim_end_index(s: Seq<char>) -> int
    decreases s.len(),
{
    if s.len() > 0 && is_whitespace_char(s.last()) {
        trim_end_index(s.drop_last())
    } else {
        s.len() as int
    }
}

/// `trim_end` keeps exactly the first `trim_end_index` characters.
pub proof fn lemma_trim_end_is_take(s: Seq<char>)
    ensures
        0 <= trim_end_index(s) <= s.len(),
        trim_end(s) == s.take(trim_end_index(s)),
        forall|j: int| trim_end_index(s) <= j < s.len() ==> is_whitespace_char(s[j]),
        trim_end_index(s) > 0 ==> !is_whitespace_char(s[trim_end_index(s) - 1]),
    decreases s.len(),
{
    if s.len() > 0 && is_whitespace_char(s.last()) {
        let t = s.drop_last();
        lemma_trim_end_is_take(t);
        let k = trim_end_index(t);
        assert(t.take(k) =~= s.take(k));
        assert forall|j: int| k <= j < s.len() implies is_whitespace_char(s[j]) by {
            if j < s.len() - 1 {
                assert(t[j] == s[j]);
            }
        }
        if k > 0 {
            assert(t[k - 1] == s[k - 1]);
        }
    } else {
        assert(s.take(s.len() as int) =~= s);
    }
}

/// Whether `c` is an ASCII letter.
pub fn is_letter(c: char) -> (b: bool)
    ensures
        b == is_ascii_letter(c),
{
    (c >= 'a' && c <= 'z') || (c >= 'A' && c <= 'Z')
}

/// Whether `c` is an ASCII decimal digit.
pub fn is_digit(c: char) -> (b: bool)
    ensures
        b == is_ascii_digit_char(c),
{
    c >= '0' && c <= '9'
}

/// Whether `c` has the `White_Space` property.
pub fn is_whitespace(c: char) -> (b: bool)
    ensures
        b == is_whitespace_char(c),
{
    (c >= '\u{0009}' && c <= '\u{000D}') || c == ' ' || c == '\u{0085}' || c == '\u{00A0}' || c
        == '\u{1680}' || (c >= '\u{2000}' && c <= '\u{200A}') || c == '\u{2028}' || c == '\u{2029}'
        || c == '\u{202F}' || c == '\u{205F}' || c == '\u{3000}'
}

/// The characters of `s`, in order.
pub fn chars_of(s: &str) -> (out: Vec<char>)
    ensures
        out@ == s@,
{
    let mut out: Vec<char> = Vec::new();
    for c in it: s.chars()
        invariant
            it.seq() == s@,
            out@ == s@.take(it.index() as int),
    {
        out.push(c);
        assert(s@.take(it.index() + 1) == s@.take(it.index() as int).push(s@[it.index() as int]));
    }
    assert(s@.take(s@.len() as int) == s@);
    out
}

/// The text made of the characters `chars[from..to]`.
pub fn string_of(chars: &[char], from: usize, to: usize) -> (out: String)
    requires
        from <= to <= chars@.len(),
    ensures
        out@ == chars@.subrange(from as int, to as int),
{
    let mut out = String::new();
    let mut i: usize = from;
    while i < to
        invariant
            from <= i <= to <= chars@.len(),
            out@ == chars@.subrange(from as int, i as int),
        decreases to - i,
    {
        out.push(chars[i]);
        assert(chars@.subrange(from as int, i + 1) == chars@.subrange(from as int, i as int).push(
            chars@[i as int],
        ));
        i += 1;
    }
    out
}

/// Whether two texts hold the same characters.
pub fn same_chars(a: &[char], b: &[char]) -> (same: bool)
    ensures
        same == (a@ == b@),
{
    if a.len() != b.len() {
        return false;
    }
    let mut i: usize = 0;
    while i < a.len()
        invariant
            a@.len() == b@.len(),
            i <= a@.len(),
            forall|j: int| 0 <= j < i ==> a@[j] == b@[j],
        decreases a@.len() - i,
    {
        if a[i] != b[i] {
            return false;
        }
        i += 1;
    }
    assert(a@ =~= b@);
    true
}

/// Whether two strings hold the same characters.
pub fn same_text(a: &str, b: &str) -> (same: bool)
    ensures
        same == (a@ == b@),
{
    let a_chars = chars_of(a);
    let b_chars = chars_of(b);
    same_chars(a_chars.as_slice(), b_chars.as_slice())
}

/// Whether `s[at..]` begins with `part`.
pub fn has_part_at(s: &[char], at: usize, part: &[char]) -> (found: bool)
    requires
        at <= s@.len(),
    ensures
        found == (at + part@.len() <= s@.len() && s@.subrange(
            at as int,
            at + part@.len(),
        ) == part@),
{
    if part.len() > s.len() - at {
        return false;
    }
    let mut i: usize = 0;
    while i < part.len()
        invariant
            at + part@.len() <= s@.len(),
            s@.len() <= usize::MAX,
            i <= part@.len(),
            forall|j: int| 0 <= j < i ==> s@[at + j] == part@[j],
        decreases part@.len() - i,
    {
        if s[at + i] != part[i] {
            assert(s@.subrange(at as int, at + part@.len())[i as int] == s@[at + i]);
            return false;
        }
        i += 1;
    }
    assert(s@.subrange(at as int, at + part@.len()) =~= part@);
    true
}

/// Position of the first `c` in `s[from..]`, counted from the start of `s`, or
/// the length of `s` where there is none.
pub fn find_from(s: &[char], from: usize, c: char) -> (at: usize)
    requires
        from <= s@.len(),
    ensures
        at == from + first_index_of(s@.skip(from as int), c),
        from <= at <= s@.len(),
{
    let mut i: usize = from;
    while i < s.len()
        invariant
            from <= i <= s@.len(),
            forall|j: int| from <= j < i ==> s@[j] != c,
        decreases s@.len() - i,
    {
        if s[i] == c {
            proof {
                let rest = s@.skip(from as int);
                assert forall|j: int| 0 <= j < i - from implies rest[j] != c by {
                    assert(rest[j] == s@[from + j]);
                }
                lemma_first_index_unique(rest, c, i - from);
            }
            return i;
        }
        i += 1;
    }
    proof {
        let rest = s@.skip(from as int);
        assert forall|j: int| 0 <= j < rest.len() implies rest[j] != c by {
            assert(rest[j] == s@[from + j]);
        }
        lemma_first_index_unique(rest, c, rest.len() as int);
    }
    i
}

/// The bounds of `s[from..to]` once leading and trailing white space is
/// dropped.
pub fn trim_bounds(s: &[char], from: usize, to: usize) -> (bounds: (usize, usize))
    requires
        from <= to <= s@.len(),
    ensures
        from <= bounds.0 <= bounds.1 <= to,
        s@.subrange(bounds.0 as int, bounds.1 as int) == trim(s@.subrange(from as int, to as int)),
{
    let ghost piece = s@.subrange(from as int, to as int);
    let mut start: usize = from;
    while start < to && is_whitespace(s[start])
        invariant
            from <= start <= to <= s@.len(),
            forall|j: int| from <= j < start ==> is_whitespace_char(s@[j]),
        decreases to - start,
    {
        start += 1;
    }
    let mut end: usize = to;
    while end > start && is_whitespace(s[end - 1])
        invariant
            start <= end <= to <= s@.len(),
            forall|j: int| end <= j < to ==> is_whitespace_char(s@[j]),
        decreases end - start,
    {
        end -= 1;
    }
    proof {
        lemma_trim_start_is_skip(piece);
        let k = trim_start_index(piece);
        // The scan stopped at the first character that is no white space.
        if k < start - from {
            assert(piece[k] == s@[from + k]);
        } else if k > start - from {
            assert(piece[start - from] == s@[start as int]);
        }
        assert(k == start - from);
        let lead = trim_start(piece);
        assert(lead =~= s@.subrange(start as int, to as int));
        lemma_trim_end_is_take(lead);
        let e = trim_end_index(lead);
        if e > end - start {
            assert(lead[e - 1] == s@[start + e - 1]);
        } else if e < end - start {
            assert(lead[end - start - 1] == s@[end - 1]);
        }
        assert(e == end - start);
        assert(lead.take(e) =~= s@.subrange(start as int, end as int));
    }
    (start, end)
}

/// The parts of a text between occurrences of `sep`, each without the white
/// space around it.
pub open spec fn trimmed_parts(text: Seq<char>, sep: char) -> Seq<Seq<char>> {
    split_on(text, sep).map_values(|part: Seq<char>| trim(part))
}

/// The texts of a list of strings.
pub open spec fn part_texts(parts: Seq<String>) -> Seq<Seq<char>> {
    Seq::new(parts.len(), |i: int| parts[i]@)
}

/// The trimmed parts of a text are the trimmed first part, followed by the
/// trimmed parts of what stands after the first separator, if there is one.
pub proof fn lemma_trimmed_parts_step(text: Seq<char>, sep: char)
    ensures
        ({
            let i = first_index_of(text, sep);
            &&& 0 <= i <= text.len()
            &&& i < text.len() ==> trimmed_parts(text, sep) == seq![trim(text.take(i))]
                + trimmed_parts(text.skip(i + 1), sep)
            &&& i == text.len() ==> trimmed_parts(text, sep) == seq![trim(text)]
        }),
{
    lemma_first_index_of(text, sep);
    let i = first_index_of(text, sep);
    if i < text.len() {
        assert(split_on(text, sep) =~= seq![text.take(i)] + split_on(text.skip(i + 1), sep));
        assert(trimmed_parts(text, sep) =~= seq![trim(text.take(i))] + trimmed_parts(
            text.skip(i + 1),
            sep,
        ));
    } else {
        assert(split_on(text, sep) =~= seq![text]);
        assert(trimmed_parts(text, sep) =~= seq![trim(text)]);
    }
}

/// Splits `text` at each `sep` and drops the white space around each part.
pub fn split_trimmed(text: &str, sep: char) -> (parts: Vec<String>)
    ensures
        part_texts(parts@) == trimmed_parts(text@, sep),
{
    let chars = chars_of(text);
    let mut parts: Vec<String> = Vec::new();
    let mut pos: usize = 0;
    proof {
        assert(chars@.skip(0) =~= chars@);
        assert(part_texts(parts@) + trimmed_parts(chars@.skip(0), sep) =~= trimmed_parts(
            text@,
            sep,
        ));
    }
    loop
        invariant
            pos <= chars@.len(),
            chars@ == text@,
            part_texts(parts@) + trimmed_parts(chars@.skip(pos as int), sep) == trimmed_parts(
                text@,
                sep,
            ),
        decreases chars@.len() - pos,
    {
        let end = find_from(chars.as_slice(), pos, sep);
        let bounds = trim_bounds(chars.as_slice(), pos, end);
        let part = string_of(chars.as_slice(), bounds.0, bounds.1);
        let ghost before = part_texts(parts@);
        let ghost rest = chars@.skip(pos as int);
        proof {
            lemma_trimmed_parts_step(rest, sep);
            assert(rest.take(end - pos) =~= chars@.subrange(pos as int, end as int));
            if end < chars@.len() {
                assert(rest.skip(end - pos + 1) =~= chars@.skip(end + 1));
            }
            if end == chars@.len() {
                assert(rest =~= chars@.subrange(pos as int, end as int));
            }
        }
        parts.push(part);
        proof {
            assert(part_texts(parts@) =~= before + seq![part@]);
        }
        if end >= chars.len() {
            proof {
                assert(part_texts(parts@) =~= before + trimmed_parts(rest, sep));
            }
            return parts;
        }
        proof {
            assert(part_texts(parts@) + trimmed_parts(chars@.skip(end + 1), sep) =~= before
                + trimmed_parts(rest, sep));
        }
        pos = end + 1;
    }
}

} // verus!
