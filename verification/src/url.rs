//! Percent-encoding and query strings.

use crate::text::{chars_of, join, joined, push_all, views};
use vstd::prelude::*;
use vstd::utf8::{encode_utf8, is_ascii_chars, is_ascii_chars_encode_utf8};

verus! {

/// Whether the byte `b` is written as it is: a letter or digit of ASCII, or
/// one of `-`, `.`, `_` and `~`.
pub open spec fn is_unreserved(b: u8) -> bool {
    ||| 0x30 <= b <= 0x39
    ||| 0x41 <= b <= 0x5A
    ||| 0x61 <= b <= 0x7A
    ||| b == 0x2D
    ||| b == 0x2E
    ||| b == 0x5F
    ||| b == 0x7E
}

/// The hexadecimal digit for `n`, in upper case.
pub open spec fn hex_digit(n: int) -> char {
    if 0 <= n <= 9 {
        (0x30 + n) as char
    } else {
        (0x41 + n - 10) as char
    }
}

/// The byte `b` as it stands in an encoded text: itself where it is
/// unreserved, else `%` and its two hexadecimal digits.
pub open spec fn escaped(b: u8) -> Seq<char> {
    if is_unreserved(b) {
        seq![b as char]
    } else {
        seq!['%', hex_digit(b as int / 16), hex_digit(b as int % 16)]
    }
}

/// The bytes `bytes`, each as it stands in an encoded text.
pub open spec fn percent_encoded(bytes: Seq<u8>) -> Seq<char>
    decreases bytes.len(),
{
    if bytes.len() == 0 {
        Seq::empty()
    } else {
        percent_encoded(bytes.drop_last()) + escaped(bytes.last())
    }
}

/// The text `s`, percent-encoded byte by byte in UTF-8.
pub open spec fn url_encoded(s: Seq<char>) -> Seq<char> {
    percent_encoded(encode_utf8(s))
}

/// The parameters `opts` as they stand in a query string: name, `=` and
/// value, both encoded.
pub open spec fn query_pairs(opts: Seq<(Seq<char>, Seq<char>)>) -> Seq<Seq<char>> {
    opts.map_values(
        |p: (Seq<char>, Seq<char>)| url_encoded(p.0) + seq!['='] + url_encoded(p.1),
    )
}

/// The query string for the parameters `opts`: the pairs with `&` between
/// each two.
pub open spec fn query_of(opts: Seq<(Seq<char>, Seq<char>)>) -> Seq<char> {
    joined(query_pairs(opts), seq!['&'])
}

/// Whether the character `c` is written as it is: a letter or digit of
/// ASCII, or one of `-`, `.`, `_` and `~`.
pub open spec fn is_plain(c: char) -> bool {
    c <= '\u{7f}' && is_unreserved(c as u8)
}

/// No character lies before the first.
proof fn lemma_char_is_not_negative(c: char)
    ensures
        '\0' <= c,
{
}

/// Bytes that are all unreserved are written as they are.
pub proof fn lemma_unreserved_bytes_stay(bytes: Seq<u8>)
    requires
        forall|i: int| 0 <= i < bytes.len() ==> is_unreserved(#[trigger] bytes[i]),
    ensures
        percent_encoded(bytes) == Seq::new(bytes.len(), |i: int| bytes[i] as char),
    decreases bytes.len(),
{
    if bytes.len() > 0 {
        let front = bytes.drop_last();
        lemma_unreserved_bytes_stay(front);
        assert(percent_encoded(bytes) =~= Seq::new(bytes.len(), |i: int| bytes[i] as char));
    } else {
        assert(percent_encoded(bytes) =~= Seq::new(bytes.len(), |i: int| bytes[i] as char));
    }
}

/// A text of letters and digits of ASCII and of `-`, `.`, `_` and `~` is its
/// own encoding.
pub proof fn lemma_plain_text_stays(s: Seq<char>)
    requires
        forall|i: int| 0 <= i < s.len() ==> is_plain(#[trigger] s[i]),
    ensures
        url_encoded(s) == s,
{
    assert(is_ascii_chars(s)) by {
        assert forall|i: int| 0 <= i < s.len() implies '\0' <= #[trigger] s[i] <= '\u{7f}' by {
            assert(is_plain(s[i]));
            lemma_char_is_not_negative(s[i]);
        }
    }
    is_ascii_chars_encode_utf8(s);
    let bytes = encode_utf8(s);
    assert forall|i: int| 0 <= i < bytes.len() implies is_unreserved(#[trigger] bytes[i]) by {
        assert(is_plain(s[i]));
        assert(s[i] as u8 == bytes[i]);
    }
    lemma_unreserved_bytes_stay(bytes);
    assert(Seq::new(bytes.len(), |i: int| bytes[i] as char) =~= s) by {
        assert forall|i: int| 0 <= i < s.len() implies bytes[i] as char == s[i] by {
            assert(is_plain(s[i]));
            assert(s[i] as u8 == bytes[i]);
        }
    }
}

/// Percent-encodes a text.
///
/// Trusted: calls `urlencoding::encode`, which writes every byte of the
/// text's UTF-8 form as it is where it is an ASCII letter or digit or one of
/// `-`, `.`, `_`, `~`, and as `%` with two upper-case hexadecimal digits
/// otherwise.
#[verifier::external_body]
pub(crate) fn url_encode(s: &str) -> (r: String)
    ensures
        r@ == url_encoded(s@),
{
    urlencoding::encode(s).into_owned()
}

/// Computes `query_of`.
pub fn query_string(opts: &Vec<(String, String)>) -> (r: Vec<char>)
    ensures
        r@ == query_of(opts.deep_view()),
{
    let mut pairs: Vec<Vec<char>> = Vec::new();
    let mut i: usize = 0;
    while i < opts.len()
        invariant
            i <= opts.len(),
            views(pairs@) == query_pairs(opts.deep_view().take(i as int)),
        decreases opts.len() - i,
    {
        let mut pair = chars_of(url_encode(opts[i].0.as_str()).as_str());
        pair.push('=');
        push_all(&mut pair, &chars_of(url_encode(opts[i].1.as_str()).as_str()));
        proof {
            let all = opts.deep_view();
            assert(all[i as int] == (opts[i as int].0@, opts[i as int].1@));
            assert(pair@ == url_encoded(all[i as int].0) + seq!['='] + url_encoded(
                all[i as int].1,
            ));
            assert(all.take(i + 1) == all.take(i as int).push(all[i as int]));
            assert(views(pairs@.push(pair)) == views(pairs@).push(pair@));
            assert(query_pairs(all.take(i + 1)) == query_pairs(all.take(i as int)).push(pair@));
        }
        pairs.push(pair);
        i += 1;
    }
    let mut sep: Vec<char> = Vec::new();
    sep.push('&');
    proof {
        let all = opts.deep_view();
        assert(all.take(all.len() as int) == all);
        assert(views(pairs@).subrange(0, pairs@.len() as int) == views(pairs@));
        assert(sep@ == seq!['&']);
    }
    join(&pairs, 0, pairs.len(), &sep)
}

} // verus!
