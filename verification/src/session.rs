//! The session token: the cookies of a login, written out one after the
//! other as `name=value; Path=..; HttpOnly; Expires=..`.

use crate::text::{
    chars_of, join, joined, push_all, push_str, remove_line_breaks, string_from, views,
    without_line_breaks,
};
use std::fmt::Write;
use vstd::prelude::*;

verus! {

/// A moment, counted from the start of 1970 in UTC.
#[derive(Clone, Copy, Debug, PartialEq, Eq, Structural)]
pub struct Moment {
    pub secs: i64,
    pub nanos: u32,
}

/// A span of time.
#[derive(Clone, Copy, Debug, PartialEq, Eq, Structural)]
pub struct Lifetime {
    pub secs: u64,
    pub nanos: u32,
}

/// A cookie, as the server set it.
#[derive(Debug)]
pub struct Cookie {
    pub name: String,
    pub value: String,
    pub path: Option<String>,
    /// When it expires, where the server said so.
    pub expires: Option<Moment>,
    /// How long it lives, where the server said so.
    pub max_age: Option<Lifetime>,
}

/// What a `Cookie` stands for.
pub struct CookieView {
    pub name: Seq<char>,
    pub value: Seq<char>,
    pub path: Option<Seq<char>>,
    pub expires: Option<Moment>,
    pub max_age: Option<Lifetime>,
}

impl DeepView for Cookie {
    type V = CookieView;

    open spec fn deep_view(&self) -> CookieView {
        CookieView {
            name: self.name@,
            value: self.value@,
            path: self.path.deep_view(),
            expires: self.expires,
            max_age: self.max_age,
        }
    }
}

/// The text of `chrono::DateTime::<Utc>::format` under `format` for the
/// moment that `chrono::DateTime::from_timestamp` makes of `secs` and
/// `nanos`; `None` where there is no such moment or the format cannot be
/// written.
pub uninterp spec fn formatted_utc(secs: i64, nanos: u32, format: Seq<char>) -> Option<Seq<char>>;

/// Writes a moment out.
///
/// Trusted: calls `chrono::DateTime::from_timestamp` and `DateTime::format`,
/// and writes the result into a string. The contract names the text.
#[verifier::external_body]
fn format_utc(secs: i64, nanos: u32, format: &str) -> (r: Option<String>)
    ensures
        r.deep_view() == formatted_utc(secs, nanos, format@),
{
    let t = chrono::DateTime::<chrono::Utc>::from_timestamp(secs, nanos)?;
    let mut out = String::new();
    write!(out, "{}", t.format(format)).ok()?;
    Some(out)
}

/// Reads the clock.
///
/// Trusted: calls `chrono::Utc::now` and takes its seconds and nanoseconds
/// since 1970. The contract claims nothing of the moment.
#[verifier::external_body]
fn utc_now() -> (now: Moment) {
    let t = chrono::Utc::now();
    Moment { secs: t.timestamp(), nanos: t.timestamp_subsec_nanos() }
}

/// The format in which an expiry is written.
pub open spec fn expiry_format() -> Seq<char> {
    "%a, %d %b %Y %H:%M:%S GMT"@
}

/// The moment `by` after `now`, if its seconds can be counted.
pub open spec fn later(now: Moment, by: Lifetime) -> Option<Moment> {
    let nanos = now.nanos + by.nanos;
    let secs = now.secs + by.secs + nanos / 1_000_000_000;
    if secs <= i64::MAX {
        Some(Moment { secs: secs as i64, nanos: (nanos % 1_000_000_000) as u32 })
    } else {
        None
    }
}

/// When the cookie expires, seen from `now`: when the server said it does;
/// else after the time the server said it lives; else never.
pub open spec fn expiry(cookie: CookieView, now: Moment) -> Option<Moment> {
    match cookie.expires {
        Some(m) => Some(m),
        None => match cookie.max_age {
            Some(by) => later(now, by),
            None => None,
        },
    }
}

/// The expiry as it is written; nothing where there is none or it cannot be
/// written.
pub open spec fn expiry_text(expiry: Option<Moment>) -> Seq<char> {
    match expiry {
        Some(m) => match formatted_utc(m.secs, m.nanos, expiry_format()) {
            Some(t) => t,
            None => Seq::empty(),
        },
        None => Seq::empty(),
    }
}

/// The cookie as it stands in a token.
pub open spec fn cookie_text(cookie: CookieView, now: Moment) -> Seq<char> {
    cookie.name + seq!['='] + cookie.value + "; Path="@ + match cookie.path {
        Some(p) => p,
        None => "/"@,
    } + "; HttpOnly; Expires="@ + expiry_text(expiry(cookie, now))
}

/// The token that the cookies `cookies` make at the moment `now`: one after
/// the other, with `; ` between each two.
pub open spec fn token_text(cookies: Seq<CookieView>, now: Moment) -> Seq<char> {
    joined(cookies.map_values(|c: CookieView| cookie_text(c, now)), "; "@)
}

/// Computes `later`.
pub fn add_lifetime(now: Moment, by: Lifetime) -> (r: Option<Moment>)
    ensures
        r == later(now, by),
{
    let nanos: u64 = now.nanos as u64 + by.nanos as u64;
    let carry: u64 = nanos / 1_000_000_000;
    let rest: u32 = (nanos % 1_000_000_000) as u32;
    let secs: i128 = now.secs as i128 + by.secs as i128 + carry as i128;
    if secs <= i64::MAX as i128 {
        Some(Moment { secs: secs as i64, nanos: rest })
    } else {
        None
    }
}

/// Computes `expiry_text(expiry(cookie, now))`.
fn write_expiry(cookie: &Cookie, now: Moment) -> (r: String)
    ensures
        r@ == expiry_text(expiry(cookie.deep_view(), now)),
{
    let when = match cookie.expires {
        Some(m) => Some(m),
        None => match cookie.max_age {
            Some(by) => add_lifetime(now, by),
            None => None,
        },
    };
    match when {
        Some(m) => match format_utc(m.secs, m.nanos, "%a, %d %b %Y %H:%M:%S GMT") {
            Some(t) => t,
            None => String::new(),
        },
        None => String::new(),
    }
}

/// Computes `cookie_text`.
pub fn write_cookie(cookie: &Cookie, now: Moment) -> (r: Vec<char>)
    ensures
        r@ == cookie_text(cookie.deep_view(), now),
{
    let mut r = chars_of(cookie.name.as_str());
    r.push('=');
    push_str(&mut r, cookie.value.as_str());
    push_str(&mut r, "; Path=");
    match &cookie.path {
        Some(p) => push_str(&mut r, p.as_str()),
        None => push_str(&mut r, "/"),
    }
    push_str(&mut r, "; HttpOnly; Expires=");
    push_str(&mut r, write_expiry(cookie, now).as_str());
    r
}

/// Computes `token_text`.
pub fn token_at(cookies: &Vec<Cookie>, now: Moment) -> (r: String)
    ensures
        r@ == token_text(cookies.deep_view(), now),
{
    let mut parts: Vec<Vec<char>> = Vec::new();
    let ghost all = cookies.deep_view();
    let ghost texts = all.map_values(|c: CookieView| cookie_text(c, now));
    let mut i: usize = 0;
    while i < cookies.len()
        invariant
            i <= cookies.len(),
            all == cookies.deep_view(),
            texts == all.map_values(|c: CookieView| cookie_text(c, now)),
            views(parts@) == texts.take(i as int),
        decreases cookies.len() - i,
    {
        let part = write_cookie(&cookies[i], now);
        proof {
            assert(all[i as int] == cookies[i as int].deep_view());
            assert(views(parts@.push(part)) == views(parts@).push(part@));
            assert(texts.take(i + 1) == texts.take(i as int).push(texts[i as int]));
        }
        parts.push(part);
        i += 1;
    }
    proof {
        assert(texts.take(texts.len() as int) == texts);
        assert(views(parts@).subrange(0, parts@.len() as int) == views(parts@));
    }
    let sep = chars_of("; ");
    string_from(&join(&parts, 0, parts.len(), &sep))
}

/// The token that the cookies `cookies` make now, by the clock.
pub fn capture_token(cookies: &Vec<Cookie>) -> (r: String)
    ensures
        exists|now: Moment| r@ == #[trigger] token_text(cookies.deep_view(), now),
{
    let now = utc_now();
    token_at(cookies, now)
}

/// The token as it is stored: without line breaks.
pub fn stored_form(token: &str) -> (r: String)
    ensures
        r@ == without_line_breaks(token@),
{
    string_from(&remove_line_breaks(&chars_of(token)))
}

} // verus!
