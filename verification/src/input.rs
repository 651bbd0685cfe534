//! Where the text of a task comes from: given on the command line, or taken
//! from a file, whole or cut down to one line or to a range of lines.

use crate::error::{Error, ResolveFailure};
use crate::text::{chars_of, join, joined, lines, split_lines, string_from, views};
use vstd::prelude::*;

verus! {

/// Which lines of a file to take. Lines are counted from 1.
#[derive(Clone, Copy, Debug, PartialEq, Eq, Structural)]
pub enum LineSelector {
    /// The line with this number.
    Single(u16),
    /// The lines from `start` up to, not including, `end`.
    Range { start: u16, end: u16 },
}

impl LineSelector {
    /// A range starts before it ends.
    pub open spec fn wf(&self) -> bool {
        match *self {
            LineSelector::Single(_) => true,
            LineSelector::Range { start, end } => start < end,
        }
    }

    /// The range from `start` up to, not including, `end`, if `start` lies
    /// before `end`.
    pub fn range(start: u16, end: u16) -> (r: Option<LineSelector>)
        ensures
            r == if start < end {
                Some(LineSelector::Range { start, end })
            } else {
                None
            },
            r matches Some(s) ==> s.wf(),
    {
        if start < end {
            Some(LineSelector::Range { start, end })
        } else {
            None
        }
    }
}

/// Whether `c` is a decimal digit.
pub open spec fn is_digit(c: char) -> bool {
    '0' <= c <= '9'
}

/// The number that the digits `s` stand for.
pub open spec fn number(s: Seq<char>) -> nat
    decreases s.len(),
{
    if s.len() == 0 {
        0
    } else {
        number(s.drop_last()) * 10 + (s.last() as u32 - '0' as u32) as nat
    }
}

/// The line number that `s` stands for: one or more digits that make a number
/// of 16 bits.
pub open spec fn line_number(s: Seq<char>) -> Option<u16> {
    if s.len() > 0 && (forall|i: int| 0 <= i < s.len() ==> is_digit(#[trigger] s[i])) && number(s)
        <= u16::MAX {
        Some(number(s) as u16)
    } else {
        None
    }
}

/// The number of characters of `s` before its first `.`; all of them if it
/// has none.
pub open spec fn dot_at(s: Seq<char>) -> nat
    decreases s.len(),
{
    if s.len() == 0 || s[0] == '.' {
        0
    } else {
        1 + dot_at(s.drop_first())
    }
}

/// The bounds that `s` stands for: two line numbers with `..` between them.
pub open spec fn bounds(s: Seq<char>) -> Option<(u16, u16)> {
    let i = dot_at(s) as int;
    if i + 1 < s.len() && s[i + 1] == '.' {
        match (line_number(s.take(i)), line_number(s.skip(i + 2))) {
            (Some(start), Some(end)) => Some((start, end)),
            _ => None,
        }
    } else {
        None
    }
}

/// The number of a text is at least that of each of its beginnings.
pub proof fn lemma_number_grows(s: Seq<char>, n: int)
    requires
        0 <= n <= s.len(),
        forall|i: int| 0 <= i < s.len() ==> is_digit(#[trigger] s[i]),
    ensures
        number(s.take(n)) <= number(s),
    decreases s.len(),
{
    if n < s.len() {
        assert(s.drop_last().take(n) == s.take(n));
        lemma_number_grows(s.drop_last(), n);
    } else {
        assert(s.take(n) == s);
    }
}

/// Computes `line_number` for `v[from..to]`.
pub fn read_line_number(v: &Vec<char>, from: usize, to: usize) -> (r: Option<u16>)
    requires
        from <= to <= v.len(),
    ensures
        r == line_number(v@.subrange(from as int, to as int)),
{
    let ghost s = v@.subrange(from as int, to as int);
    if from == to {
        return None;
    }
    let mut n: u32 = 0;
    let mut i: usize = from;
    assert(s.take(0).len() == 0);
    while i < to
        invariant
            from <= i <= to <= v.len(),
            s == v@.subrange(from as int, to as int),
            forall|k: int| 0 <= k < i - from ==> is_digit(#[trigger] s[k]),
            n == number(s.take(i - from)),
            n <= u16::MAX,
        decreases to - i,
    {
        let c = v[i];
        assert(c == s[i - from]);
        if c < '0' || c > '9' {
            return None;
        }
        assert(s.take(i + 1 - from).drop_last() == s.take(i - from));
        n = n * 10 + (c as u32 - '0' as u32);
        if n > u16::MAX as u32 {
            proof {
                if forall|k: int| 0 <= k < s.len() ==> is_digit(#[trigger] s[k]) {
                    lemma_number_grows(s, i + 1 - from);
                }
            }
            return None;
        }
        i += 1;
    }
    assert(s.take(s.len() as int) == s);
    Some(n as u16)
}

/// Computes `bounds`.
pub fn parse_range(text: &str) -> (r: Option<(u16, u16)>)
    ensures
        r == bounds(text@),
{
    let v = chars_of(text);
    let n = v.len();
    let mut i: usize = 0;
    assert(v@.skip(0) == v@);
    while i < n && v[i] != '.'
        invariant
            i <= n == v.len(),
            dot_at(v@) == i + dot_at(v@.skip(i as int)),
        decreases n - i,
    {
        assert(v@.skip(i as int).drop_first() == v@.skip(i + 1));
        i += 1;
    }
    assert(dot_at(v@) == i);
    if n - i < 2 || v[i + 1] != '.' {
        return None;
    }
    assert(v@.take(i as int) == v@.subrange(0, i as int));
    assert(v@.skip(i + 2) == v@.subrange(i + 2, n as int));
    match (read_line_number(&v, 0, i), read_line_number(&v, i + 2, n)) {
        (Some(start), Some(end)) => Some((start, end)),
        _ => None,
    }
}

/// The selector that a line number and a range, each given or not, stand for:
/// none where neither is given, and a failure where both are or where the
/// range does not start before it ends.
pub open spec fn selection(line: Option<u16>, range: Option<(u16, u16)>) -> Result<
    Option<LineSelector>,
    ResolveFailure,
> {
    match (line, range) {
        (Some(_), Some(_)) => Err(ResolveFailure::BothSelectors),
        (Some(n), None) => Ok(Some(LineSelector::Single(n))),
        (None, Some((start, end))) => if start < end {
            Ok(Some(LineSelector::Range { start, end }))
        } else {
            Err(ResolveFailure::EmptyRange)
        },
        (None, None) => Ok(None),
    }
}

/// The part of `contents` that `selector` takes: all of it without a
/// selector; the line with that number; or the lines of the range with a
/// line feed between each two.
pub open spec fn selected(contents: Seq<char>, selector: Option<LineSelector>) -> Result<
    Seq<char>,
    ResolveFailure,
> {
    let all = lines(contents);
    match selector {
        None => Ok(contents),
        Some(LineSelector::Single(n)) => if 1 <= n <= all.len() {
            Ok(all[n - 1])
        } else {
            Err(ResolveFailure::LineOutOfRange)
        },
        Some(LineSelector::Range { start, end }) => if start >= end {
            Err(ResolveFailure::EmptyRange)
        } else if start == 0 {
            Err(ResolveFailure::RangeStartsAtZero)
        } else if end - 1 > all.len() {
            Err(ResolveFailure::RangePastEnd)
        } else {
            Ok(joined(all.subrange(start - 1, end - 1), seq!['\n']))
        },
    }
}

/// The text of a task: without a file, the text given in line, or nothing;
/// with a file of these contents, the part of it that the line number or the
/// range selects.
pub open spec fn resolved(
    file: Option<Seq<char>>,
    line: Option<u16>,
    range: Option<(u16, u16)>,
    inline: Option<Seq<char>>,
) -> Result<Seq<char>, ResolveFailure> {
    match file {
        None => match inline {
            Some(t) => Ok(t),
            None => Ok(Seq::empty()),
        },
        Some(contents) => match selection(line, range) {
            Err(e) => Err(e),
            Ok(selector) => selected(contents, selector),
        },
    }
}

/// Whether the text `r` is the outcome `expected`, a failure being reported
/// as `Error::FailedToResolveFile` with its reason.
pub open spec fn reports<T: View<V = Seq<char>>>(
    r: Result<T, Error>,
    expected: Result<Seq<char>, ResolveFailure>,
) -> bool {
    match r {
        Ok(t) => expected == Ok::<Seq<char>, ResolveFailure>(t@),
        Err(e) => expected matches Err(detail) && e == (Error::FailedToResolveFile { detail }),
    }
}

/// Computes `selection`.
pub fn select(line: Option<u16>, range: Option<(u16, u16)>) -> (r: Result<
    Option<LineSelector>,
    Error,
>)
    ensures
        match r {
            Ok(s) => selection(line, range) == Ok::<Option<LineSelector>, ResolveFailure>(s) && (s
                matches Some(sel) ==> sel.wf()),
            Err(e) => selection(line, range) matches Err(detail) && e == (
            Error::FailedToResolveFile { detail }),
        },
{
    match (line, range) {
        (Some(_), Some(_)) => Err(
            Error::FailedToResolveFile { detail: ResolveFailure::BothSelectors },
        ),
        (Some(n), None) => Ok(Some(LineSelector::Single(n))),
        (None, Some((start, end))) => {
            if start < end {
                Ok(Some(LineSelector::Range { start, end }))
            } else {
                Err(Error::FailedToResolveFile { detail: ResolveFailure::EmptyRange })
            }
        },
        (None, None) => Ok(None),
    }
}

/// Computes `selected`.
pub fn pick(contents: &str, selector: Option<LineSelector>) -> (r: Result<String, Error>)
    ensures
        reports(r, selected(contents@, selector)),
{
    match selector {
        None => {
            let all = chars_of(contents);
            Ok(string_from(&all))
        },
        Some(LineSelector::Single(n)) => {
            let all = split_lines(&chars_of(contents));
            assert(views(all@).len() == all@.len());
            if n == 0 || n as usize > all.len() {
                return Err(Error::FailedToResolveFile { detail: ResolveFailure::LineOutOfRange });
            }
            assert(views(all@)[n - 1] == all@[n - 1]@);
            Ok(string_from(&all[n as usize - 1]))
        },
        Some(LineSelector::Range { start, end }) => {
            if start >= end {
                return Err(Error::FailedToResolveFile { detail: ResolveFailure::EmptyRange });
            }
            if start == 0 {
                return Err(
                    Error::FailedToResolveFile { detail: ResolveFailure::RangeStartsAtZero },
                );
            }
            let all = split_lines(&chars_of(contents));
            assert(views(all@).len() == all@.len());
            if end as usize - 1 > all.len() {
                return Err(Error::FailedToResolveFile { detail: ResolveFailure::RangePastEnd });
            }
            let mut sep: Vec<char> = Vec::new();
            sep.push('\n');
            assert(sep@ == seq!['\n']);
            let body = join(&all, start as usize - 1, end as usize - 1, &sep);
            Ok(string_from(&body))
        },
    }
}

/// Computes `resolved`. `file` holds the contents of the file, where one was
/// named.
pub fn resolve(
    file: Option<&str>,
    line: Option<u16>,
    range: Option<(u16, u16)>,
    inline: Option<&str>,
) -> (r: Result<String, Error>)
    ensures
        reports(
            r,
            resolved(
                match file {
                    Some(f) => Some(f@),
                    None => None,
                },
                line,
                range,
                match inline {
                    Some(t) => Some(t@),
                    None => None,
                },
            ),
        ),
{
    match file {
        None => match inline {
            Some(t) => Ok(string_from(&chars_of(t))),
            None => Ok(String::new()),
        },
        Some(contents) => match select(line, range) {
            Err(e) => Err(e),
            Ok(selector) => pick(contents, selector),
        },
    }
}

} // verus!
