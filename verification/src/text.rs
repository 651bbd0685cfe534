//! Character-level helpers shared by the other modules: whitespace, words,
//! lines, searching and joining, each with its meaning as a function on
//! sequences of characters.

use vstd::prelude::*;

verus! {

/// Whether `c` is white space in the sense of Unicode's `White_Space` property.
pub open spec fn is_space(c: char) -> bool {
    let n = c as u32;
    ||| 0x09 <= n <= 0x0D
    ||| n == 0x20
    ||| n == 0x85
    ||| n == 0xA0
    ||| n == 0x1680
    ||| 0x2000 <= n <= 0x200A
    ||| n == 0x2028
    ||| n == 0x2029
    ||| n == 0x202F
    ||| n == 0x205F
    ||| n == 0x3000
}

/// Whether `c` ends or belongs to a line break.
pub open spec fn is_line_break(c: char) -> bool {
    c == '\n' || c == '\r'
}

/// The number of leading characters of `s` that are white space.
pub open spec fn leading_spaces(s: Seq<char>) -> nat
    decreases s.len(),
{
    if s.len() == 0 || !is_space(s[0]) {
        0
    } else {
        1 + leading_spaces(s.drop_first())
    }
}

/// The number of trailing characters of `s` that are white space.
pub open spec fn trailing_spaces(s: Seq<char>) -> nat
    decreases s.len(),
{
    if s.len() == 0 || !is_space(s.last()) {
        0
    } else {
        1 + trailing_spaces(s.drop_last())
    }
}

/// `s` without its leading and trailing white space.
pub open spec fn trimmed(s: Seq<char>) -> Seq<char> {
    let rest = s.skip(leading_spaces(s) as int);
    rest.take(rest.len() - trailing_spaces(rest))
}

/// The length of the longest prefix of `s` that holds no white space.
pub open spec fn word_len(s: Seq<char>) -> nat
    decreases s.len(),
{
    if s.len() == 0 || is_space(s[0]) {
        0
    } else {
        1 + word_len(s.drop_first())
    }
}

/// The maximal runs of characters of `s` that hold no white space, in order.
pub open spec fn words(s: Seq<char>) -> Seq<Seq<char>>
    decreases s.len(),
{
    if s.len() == 0 {
        Seq::empty()
    } else if is_space(s[0]) {
        words(s.drop_first())
    } else {
        let n = word_len(s) as int;
        proof {
            lemma_word_len_bound(s);
        }
        seq![s.take(n)] + words(s.skip(n))
    }
}

/// `word_len` stays within the text.
pub proof fn lemma_word_len_bound(s: Seq<char>)
    ensures
        word_len(s) <= s.len(),
        s.len() > 0 && !is_space(s[0]) ==> word_len(s) >= 1,
        forall|i: int| 0 <= i < word_len(s) ==> !is_space(#[trigger] s[i]),
        word_len(s) < s.len() ==> is_space(s[word_len(s) as int]),
    decreases s.len(),
{
    if s.len() != 0 && !is_space(s[0]) {
        let t = s.drop_first();
        lemma_word_len_bound(t);
        assert forall|i: int| 0 <= i < word_len(s) implies !is_space(#[trigger] s[i]) by {
            if i > 0 {
                assert(s[i] == t[i - 1]);
            }
        }
        if word_len(s) < s.len() {
            assert(s[word_len(s) as int] == t[word_len(t) as int]);
        }
    }
}

/// How often `c` occurs in `s`.
pub open spec fn count(s: Seq<char>, c: char) -> nat
    decreases s.len(),
{
    if s.len() == 0 {
        0
    } else {
        count(s.drop_last(), c) + if s.last() == c { 1nat } else { 0nat }
    }
}

/// Whether `pat` occurs in `s` starting at index `i`.
pub open spec fn occurs_at(s: Seq<char>, pat: Seq<char>, i: int) -> bool {
    0 <= i && i + pat.len() <= s.len() && s.subrange(i, i + pat.len()) == pat
}

/// Whether `pat` occurs somewhere in `s`.
pub open spec fn contains(s: Seq<char>, pat: Seq<char>) -> bool {
    exists|i: int| occurs_at(s, pat, i)
}

/// The number of characters of `s` before its first `'\n'`; all of them if
/// it has none.
pub open spec fn line_len(s: Seq<char>) -> nat
    decreases s.len(),
{
    if s.len() == 0 || s[0] == '\n' {
        0
    } else {
        1 + line_len(s.drop_first())
    }
}

/// `s` without one trailing `'\r'`, if it has one.
pub open spec fn without_cr(s: Seq<char>) -> Seq<char> {
    if s.len() > 0 && s.last() == '\r' {
        s.drop_last()
    } else {
        s
    }
}

/// The lines of `s`. A line ends at `'\n'` or at the end of the text; the
/// `'\n'`, and a `'\r'` directly before it, are not part of the line. A text
/// that ends in `'\n'` has no empty line after it.
pub open spec fn lines(s: Seq<char>) -> Seq<Seq<char>>
    decreases s.len(),
{
    if s.len() == 0 {
        Seq::empty()
    } else {
        let n = line_len(s) as int;
        proof {
            lemma_line_len_bound(s);
        }
        if n == s.len() {
            seq![s]
        } else {
            seq![without_cr(s.take(n))] + lines(s.skip(n + 1))
        }
    }
}

/// `line_len` stays within the text and stops at the first `'\n'`.
pub proof fn lemma_line_len_bound(s: Seq<char>)
    ensures
        line_len(s) <= s.len(),
        forall|i: int| 0 <= i < line_len(s) ==> #[trigger] s[i] != '\n',
        line_len(s) < s.len() ==> s[line_len(s) as int] == '\n',
    decreases s.len(),
{
    if s.len() != 0 && s[0] != '\n' {
        let t = s.drop_first();
        lemma_line_len_bound(t);
        assert forall|i: int| 0 <= i < line_len(s) implies #[trigger] s[i] != '\n' by {
            if i > 0 {
                assert(s[i] == t[i - 1]);
            }
        }
        if line_len(s) < s.len() {
            assert(s[line_len(s) as int] == t[line_len(t) as int]);
        }
    }
}

/// The items of `parts` with `sep` between each two neighbours.
pub open spec fn joined(parts: Seq<Seq<char>>, sep: Seq<char>) -> Seq<char>
    decreases parts.len(),
{
    if parts.len() == 0 {
        Seq::empty()
    } else if parts.len() == 1 {
        parts[0]
    } else {
        joined(parts.drop_last(), sep) + sep + parts.last()
    }
}

/// `s` without its line breaks.
pub open spec fn without_line_breaks(s: Seq<char>) -> Seq<char>
    decreases s.len(),
{
    if s.len() == 0 {
        Seq::empty()
    } else if is_line_break(s.last()) {
        without_line_breaks(s.drop_last())
    } else {
        without_line_breaks(s.drop_last()).push(s.last())
    }
}

/// The number of trailing characters of `s` that are line breaks.
pub open spec fn trailing_line_breaks(s: Seq<char>) -> nat
    decreases s.len(),
{
    if s.len() == 0 || !is_line_break(s.last()) {
        0
    } else {
        1 + trailing_line_breaks(s.drop_last())
    }
}

/// `s` without the line breaks at its end.
pub open spec fn without_trailing_line_breaks(s: Seq<char>) -> Seq<char> {
    s.take(s.len() - trailing_line_breaks(s))
}

/// The views of the items of `v`.
pub open spec fn views(v: Seq<Vec<char>>) -> Seq<Seq<char>> {
    v.map_values(|w: Vec<char>| w@)
}

/// Appends one character to a string.
///
/// Trusted: stands for `String::push`, which adds `c` at the end and leaves
/// the characters before it as they were.
#[verifier::external_body]
pub(crate) fn push_char(s: &mut String, c: char)
    ensures
        final(s)@ == old(s)@.push(c),
{
    s.push(c)
}

/// The characters of `s`, in order.
pub fn chars_of(s: &str) -> (v: Vec<char>)
    ensures
        v@ == s@,
{
    broadcast use vstd::string::group_string_axioms;

    let mut v: Vec<char> = Vec::new();
    for c in it: s.chars()
        invariant
            it.seq() == s@,
            v@ == s@.take(it.index() as int),
    {
        v.push(c);
    }
    assert(s@.take(s@.len() as int) == s@);
    v
}

/// The string made of the characters `v[from..to]`.
pub fn string_of(v: &Vec<char>, from: usize, to: usize) -> (s: String)
    requires
        from <= to <= v.len(),
    ensures
        s@ == v@.subrange(from as int, to as int),
{
    let mut s = String::new();
    let mut i: usize = from;
    while i < to
        invariant
            from <= i <= to <= v.len(),
            s@ == v@.subrange(from as int, i as int),
        decreases to - i,
    {
        push_char(&mut s, v[i]);
        i += 1;
    }
    s
}

/// The string made of all the characters of `v`.
pub fn string_from(v: &Vec<char>) -> (s: String)
    ensures
        s@ == v@,
{
    let s = string_of(v, 0, v.len());
    assert(v@.subrange(0, v@.len() as int) == v@);
    s
}

/// Appends the characters of `t` to `v`.
pub fn push_str(v: &mut Vec<char>, t: &str)
    ensures
        final(v)@ == old(v)@ + t@,
{
    let w = chars_of(t);
    push_all(v, &w);
}

/// Appends the characters of `w` to `v`.
pub fn push_all(v: &mut Vec<char>, w: &Vec<char>)
    ensures
        final(v)@ == old(v)@ + w@,
{
    let mut i: usize = 0;
    while i < w.len()
        invariant
            i <= w.len(),
            v@ == old(v)@ + w@.take(i as int),
        decreases w.len() - i,
    {
        v.push(w[i]);
        i += 1;
    }
    assert(w@.take(w@.len() as int) == w@);
}

/// Decides `is_space`.
pub fn is_whitespace(c: char) -> (b: bool)
    ensures
        b == is_space(c),
{
    let n: u32 = c as u32;
    (0x09 <= n && n <= 0x0D) || n == 0x20 || n == 0x85 || n == 0xA0 || n == 0x1680 || (0x2000 <= n
        && n <= 0x200A) || n == 0x2028 || n == 0x2029 || n == 0x202F || n == 0x205F || n == 0x3000
}

/// Decides `is_line_break`.
pub fn is_newline(c: char) -> (b: bool)
    ensures
        b == is_line_break(c),
{
    c == '\n' || c == '\r'
}

/// A copy of `v[from..to]`.
pub fn slice_of(v: &Vec<char>, from: usize, to: usize) -> (r: Vec<char>)
    requires
        from <= to <= v.len(),
    ensures
        r@ == v@.subrange(from as int, to as int),
{
    let mut r: Vec<char> = Vec::new();
    let mut i: usize = from;
    while i < to
        invariant
            from <= i <= to <= v.len(),
            r@ == v@.subrange(from as int, i as int),
        decreases to - i,
    {
        r.push(v[i]);
        i += 1;
    }
    r
}

/// `v` without its leading and trailing white space.
pub fn trim(v: &Vec<char>) -> (r: Vec<char>)
    ensures
        r@ == trimmed(v@),
{
    let n = v.len();
    let mut i: usize = 0;
    assert(v@.skip(0) == v@);
    while i < n && is_whitespace(v[i])
        invariant
            i <= n == v.len(),
            leading_spaces(v@) == i + leading_spaces(v@.skip(i as int)),
        decreases n - i,
    {
        assert(v@.skip(i as int).drop_first() == v@.skip(i + 1));
        i += 1;
    }
    let ghost rest = v@.skip(i as int);
    let mut j: usize = n;
    assert(rest.take(rest.len() as int) == rest);
    while j > i && is_whitespace(v[j - 1])
        invariant
            i <= j <= n == v.len(),
            rest == v@.skip(i as int),
            trailing_spaces(rest) == (n - j) + trailing_spaces(rest.take(j - i)),
        decreases j,
    {
        assert(rest.take(j - i).drop_last() == rest.take(j - 1 - i));
        j -= 1;
    }
    assert(rest.take(j - i) == v@.subrange(i as int, j as int));
    slice_of(v, i, j)
}

/// The white-space-separated words of `v`.
pub fn split_words(v: &Vec<char>) -> (r: Vec<Vec<char>>)
    ensures
        views(r@) == words(v@),
{
    let n = v.len();
    let mut r: Vec<Vec<char>> = Vec::new();
    let mut i: usize = 0;
    assert(v@.skip(0) == v@);
    while i < n
        invariant
            i <= n == v.len(),
            words(v@) == views(r@) + words(v@.skip(i as int)),
        decreases n - i,
    {
        let ghost rest = v@.skip(i as int);
        if is_whitespace(v[i]) {
            assert(rest.drop_first() == v@.skip(i + 1));
            i += 1;
        } else {
            let mut j: usize = i + 1;
            assert(rest.drop_first() == v@.skip(i + 1));
            while j < n && !is_whitespace(v[j])
                invariant
                    i < j <= n == v.len(),
                    word_len(v@.skip(i as int)) == (j - i) + word_len(v@.skip(j as int)),
                decreases n - j,
            {
                assert(v@.skip(j as int).drop_first() == v@.skip(j + 1));
                j += 1;
            }
            let w = slice_of(v, i, j);
            proof {
                assert(word_len(rest) == j - i);
                assert(rest.take(j - i) == w@);
                assert(rest.skip(j - i) == v@.skip(j as int));
                assert(views(r@.push(w)) == views(r@).push(w@));
                assert(views(r@).push(w@) + words(v@.skip(j as int)) == views(r@) + (seq![w@]
                    + words(v@.skip(j as int))));
            }
            r.push(w);
            i = j;
        }
    }
    r
}

/// How often `c` occurs in `v`.
pub fn count_char(v: &Vec<char>, c: char) -> (n: usize)
    ensures
        n == count(v@, c),
{
    let mut n: usize = 0;
    let mut i: usize = 0;
    while i < v.len()
        invariant
            i <= v.len(),
            n <= i,
            n == count(v@.take(i as int), c),
        decreases v.len() - i,
    {
        assert(v@.take(i + 1).drop_last() == v@.take(i as int));
        if v[i] == c {
            n += 1;
        }
        i += 1;
    }
    assert(v@.take(v@.len() as int) == v@);
    n
}

/// Whether `pat` occurs in `v` at index `i`.
pub fn matches_at(v: &Vec<char>, pat: &Vec<char>, i: usize) -> (b: bool)
    requires
        i + pat.len() <= v.len(),
    ensures
        b == occurs_at(v@, pat@, i as int),
{
    let mut k: usize = 0;
    while k < pat.len()
        invariant
            k <= pat.len(),
            i + pat.len() <= v.len(),
            forall|j: int| 0 <= j < k ==> v@[i + j] == pat@[j],
        decreases pat.len() - k,
    {
        if v[i + k] != pat[k] {
            assert(v@.subrange(i as int, i + pat.len())[k as int] != pat@[k as int]);
            return false;
        }
        k += 1;
    }
    assert(v@.subrange(i as int, i + pat.len()) == pat@);
    true
}

/// Whether `pat` occurs somewhere in `v`.
pub fn find(v: &Vec<char>, pat: &Vec<char>) -> (b: bool)
    ensures
        b == contains(v@, pat@),
{
    if pat.len() > v.len() {
        return false;
    }
    let last: usize = v.len() - pat.len();
    let mut i: usize = 0;
    while i < last
        invariant
            i <= last,
            last == v.len() - pat.len(),
            forall|k: int| 0 <= k < i ==> !occurs_at(v@, pat@, k),
        decreases last - i,
    {
        if matches_at(v, pat, i) {
            return true;
        }
        i += 1;
    }
    matches_at(v, pat, last)
}

/// The lines of `v`.
pub fn split_lines(v: &Vec<char>) -> (r: Vec<Vec<char>>)
    ensures
        views(r@) == lines(v@),
{
    let n = v.len();
    let mut r: Vec<Vec<char>> = Vec::new();
    let mut i: usize = 0;
    assert(v@.skip(0) == v@);
    while i < n
        invariant
            i <= n == v.len(),
            lines(v@) == views(r@) + lines(v@.skip(i as int)),
        decreases n - i,
    {
        let ghost rest = v@.skip(i as int);
        let mut j: usize = i;
        while j < n && v[j] != '\n'
            invariant
                i <= j <= n == v.len(),
                line_len(v@.skip(i as int)) == (j - i) + line_len(v@.skip(j as int)),
            decreases n - j,
        {
            assert(v@.skip(j as int).drop_first() == v@.skip(j + 1));
            j += 1;
        }
        assert(line_len(rest) == j - i);
        if j == n {
            let w = slice_of(v, i, n);
            proof {
                assert(w@ == rest);
                assert(views(r@.push(w)) == views(r@).push(w@));
                assert(lines(v@.skip(n as int)) == Seq::<Seq<char>>::empty());
            }
            r.push(w);
            i = n;
        } else {
            let end: usize = if j > i && v[j - 1] == '\r' {
                j - 1
            } else {
                j
            };
            let w = slice_of(v, i, end);
            proof {
                assert(rest.take(j - i) == v@.subrange(i as int, j as int));
                assert(w@ == without_cr(rest.take(j - i)));
                assert(rest.skip(j - i + 1) == v@.skip(j + 1));
                assert(views(r@.push(w)) == views(r@).push(w@));
                assert(views(r@).push(w@) + lines(v@.skip(j + 1)) == views(r@) + (seq![w@]
                    + lines(v@.skip(j + 1))));
            }
            r.push(w);
            i = j + 1;
        }
    }
    r
}

/// The items `parts[from..to]` with `sep` between each two neighbours.
pub fn join(parts: &Vec<Vec<char>>, from: usize, to: usize, sep: &Vec<char>) -> (r: Vec<char>)
    requires
        from <= to <= parts.len(),
    ensures
        r@ == joined(views(parts@).subrange(from as int, to as int), sep@),
{
    let mut r: Vec<char> = Vec::new();
    let mut i: usize = from;
    let ghost all = views(parts@);
    while i < to
        invariant
            from <= i <= to <= parts.len(),
            all == views(parts@),
            r@ == joined(all.subrange(from as int, i as int), sep@),
        decreases to - i,
    {
        proof {
            let next = all.subrange(from as int, i + 1);
            assert(next.drop_last() == all.subrange(from as int, i as int));
            assert(next.last() == parts@[i as int]@);
        }
        if i > from {
            push_all(&mut r, sep);
        }
        push_all(&mut r, &parts[i]);
        i += 1;
    }
    r
}

/// `v` without its line breaks.
pub fn remove_line_breaks(v: &Vec<char>) -> (r: Vec<char>)
    ensures
        r@ == without_line_breaks(v@),
{
    let mut r: Vec<char> = Vec::new();
    let mut i: usize = 0;
    while i < v.len()
        invariant
            i <= v.len(),
            r@ == without_line_breaks(v@.take(i as int)),
        decreases v.len() - i,
    {
        assert(v@.take(i + 1).drop_last() == v@.take(i as int));
        if !is_newline(v[i]) {
            r.push(v[i]);
        }
        i += 1;
    }
    assert(v@.take(v@.len() as int) == v@);
    r
}

/// `v` without the line breaks at its end.
pub fn trim_line_end(v: &Vec<char>) -> (r: Vec<char>)
    ensures
        r@ == without_trailing_line_breaks(v@),
{
    let n = v.len();
    let mut j: usize = n;
    assert(v@.take(v@.len() as int) == v@);
    while j > 0 && is_newline(v[j - 1])
        invariant
            j <= n == v.len(),
            trailing_line_breaks(v@) == (n - j) + trailing_line_breaks(v@.take(j as int)),
        decreases j,
    {
        assert(v@.take(j as int).drop_last() == v@.take(j - 1));
        j -= 1;
    }
    assert(v@.take(j as int) == v@.subrange(0, j as int));
    slice_of(v, 0, j)
}

} // verus!
