//! From a feed document to show and episode records.
//!
//! The XML is read by the `rss` crate and publication dates by
//! `rfc822_sanitizer`; what is done with the fields they hand back is decided
//! here.

use crate::text::{opt_text, to_chars};
use vstd::prelude::*;

verus! {

/// The fields of one `<item>` that the engine reads.
pub struct RawItem {
    pub title: Option<String>,
    pub link: Option<String>,
    pub description: Option<String>,
    /// Address and declared length of the enclosure, if the item has one.
    pub enclosure: Option<(String, String)>,
    pub guid: Option<String>,
    pub pub_date: Option<String>,
}

/// A [`RawItem`] as mathematical values.
pub struct RawItemView {
    pub title: Option<Seq<char>>,
    pub link: Option<Seq<char>>,
    pub description: Option<Seq<char>>,
    pub enclosure: Option<(Seq<char>, Seq<char>)>,
    pub guid: Option<Seq<char>>,
    pub pub_date: Option<Seq<char>>,
}

impl View for RawItem {
    type V = RawItemView;

    open spec fn view(&self) -> RawItemView {
        RawItemView {
            title: opt_text(self.title),
            link: opt_text(self.link),
            description: opt_text(self.description),
            enclosure: match self.enclosure {
                Some((url, length)) => Some((url@, length@)),
                None => None,
            },
            guid: opt_text(self.guid),
            pub_date: opt_text(self.pub_date),
        }
    }
}

/// The fields of a `<channel>` that the engine reads, with its items in
/// document order.
pub struct RawChannel {
    pub title: String,
    pub link: String,
    pub description: String,
    pub image_url: Option<String>,
    pub items: Vec<RawItem>,
}

/// A [`RawChannel`] as mathematical values.
pub struct RawChannelView {
    pub title: Seq<char>,
    pub link: Seq<char>,
    pub description: Seq<char>,
    pub image_url: Option<Seq<char>>,
    pub items: Seq<RawItemView>,
}

impl View for RawChannel {
    type V = RawChannelView;

    open spec fn view(&self) -> RawChannelView {
        RawChannelView {
            title: self.title@,
            link: self.link@,
            description: self.description@,
            image_url: opt_text(self.image_url),
            items: self.items@.map_values(|i: RawItem| i@),
        }
    }
}

#[verifier::external_type_specification]
#[verifier::external_body]
pub struct ExRssError(rss::Error);

/// What `rss::Channel::read_from` makes of a document: the channel it reads,
/// or `None` where it reports an error.
pub uninterp spec fn rss_channel(document: Seq<char>) -> Option<RawChannelView>;

/// Reads a feed document with `rss::Channel::read_from` and moves the fields
/// the engine uses out of the channel. The contract only names the outcome:
/// the same document always reads the same way.
#[verifier::external_body]
fn read_channel(document: &str) -> (r: Result<RawChannel, rss::Error>)
    ensures
        match r {
            Ok(c) => rss_channel(document@) == Some(c@),
            Err(_) => rss_channel(document@) is None,
        },
{
    let c = rss::Channel::read_from(document.as_bytes())?;
    Ok(RawChannel {
        title: c.title,
        link: c.link,
        description: c.description,
        image_url: c.image.map(|i| i.url),
        items: c.items.into_iter().map(|i| RawItem {
            title: i.title,
            link: i.link,
            description: i.description,
            enclosure: i.enclosure.map(|e| (e.url, e.length)),
            guid: i.guid.map(|g| g.value),
            pub_date: i.pub_date,
        }).collect(),
    })
}

/// A feed document that could not be turned into records.
pub enum FeedError {
    /// The document is not a feed the XML reader accepts.
    Malformed(rss::Error),
    /// An item names no media file.
    MissingEnclosure,
}

/// Reads a feed document.
pub fn parse_channel(document: &str) -> (r: Result<RawChannel, FeedError>)
    ensures
        match r {
            Ok(c) => rss_channel(document@) == Some(c@),
            Err(e) => rss_channel(document@) is None && e is Malformed,
        },
{
    match read_channel(document) {
        Ok(c) => Ok(c),
        Err(e) => Err(FeedError::Malformed(e)),
    }
}

/// An optional 64-bit integer as an optional mathematical integer.
pub open spec fn opt_i64(a: Option<i64>) -> Option<int> {
    match a {
        Some(n) => Some(n as int),
        None => None,
    }
}

/// The UTC seconds that `rfc822_sanitizer::parse_from_rfc2822_with_fallback`
/// reads out of a date, or `None` where it gives up.
pub uninterp spec fn rfc2822_epoch(date: Seq<char>) -> Option<int>;

/// Reads an RFC 2822 date, tolerating the usual mistakes of feed generators,
/// through `rfc822_sanitizer::parse_from_rfc2822_with_fallback`, and gives the
/// moment as UTC seconds (`chrono::DateTime::timestamp`).
#[verifier::external_body]
fn read_date(date: &str) -> (r: Option<i64>)
    ensures
        opt_i64(r) == rfc2822_epoch(date@),
{
    rfc822_sanitizer::parse_from_rfc2822_with_fallback(date).ok().map(|d| d.timestamp())
}

/// Reads the publication time of an item, if it has a date that can be read.
pub fn read_date_text(pub_date: &Option<String>) -> (r: Option<i64>)
    ensures
        opt_i64(r) == date_epoch(opt_text(*pub_date)),
{
    match pub_date {
        Some(d) => read_date(d.as_str()),
        None => None,
    }
}

/// The epoch stored for an item: the parsed publication time where there is
/// one, else the time of indexing; either way kept in 32 bits.
pub open spec fn epoch_of(parsed: Option<int>, now: i64) -> int {
    match parsed {
        Some(t) => ((t as i64) as i32) as int,
        None => (now as i32) as int,
    }
}

/// The epoch for an item whose publication date parsed to `parsed`, indexed at
/// `now`. An item without a usable date is dated at the time of indexing.
pub fn episode_epoch(parsed: Option<i64>, now: i64) -> (epoch: i32)
    ensures
        epoch == epoch_of(opt_i64(parsed), now),
{
    match parsed {
        Some(t) => {
            #[verifier::truncate]
            (t as i32)
        },
        None => {
            #[verifier::truncate]
            (now as i32)
        },
    }
}

/// The publication time that a date text stands for, if it can be read.
pub open spec fn date_epoch(pub_date: Option<Seq<char>>) -> Option<int> {
    match pub_date {
        Some(d) => rfc2822_epoch(d),
        None => None,
    }
}

/// The value of one decimal digit, if `c` is one.
pub open spec fn digit_value(c: char) -> Option<int> {
    if '0' <= c && c <= '9' {
        Some(c as int - '0' as int)
    } else {
        None
    }
}

/// Every character of `s` is a decimal digit.
pub open spec fn all_digits(s: Seq<char>) -> bool {
    forall|i: int| 0 <= i < s.len() ==> (#[trigger] digit_value(s[i])) is Some
}

/// The number that a sequence of decimal digits writes.
pub open spec fn digits_value(s: Seq<char>) -> int
    decreases s.len(),
{
    if s.len() == 0 {
        0
    } else {
        digits_value(s.drop_last()) * 10 + digit_value(s.last()).unwrap()
    }
}

/// The 32-bit integer that a text writes in decimal: an optional sign, then at
/// least one digit and nothing else, with a value that fits.
pub open spec fn decimal_i32(s: Seq<char>) -> Option<int> {
    let signed = s.len() > 0 && (s[0] == '-' || s[0] == '+');
    let digits = if signed {
        s.subrange(1, s.len() as int)
    } else {
        s
    };
    let value = if s.len() > 0 && s[0] == '-' {
        -digits_value(digits)
    } else {
        digits_value(digits)
    };
    if digits.len() > 0 && all_digits(digits) && i32::MIN <= value <= i32::MAX {
        Some(value)
    } else {
        None
    }
}

proof fn lemma_digits_prefix(s: Seq<char>, k: int)
    requires
        all_digits(s),
        0 <= k <= s.len(),
    ensures
        0 <= digits_value(s.subrange(0, k)) <= digits_value(s),
    decreases s.len() - k,
{
    lemma_digits_nonneg(s.subrange(0, k));
    if k < s.len() {
        let next = s.subrange(0, k + 1);
        assert(next.drop_last() == s.subrange(0, k));
        assert(next.last() == s[k]);
        assert(digit_value(s[k]) is Some);
        lemma_digits_prefix(s, k + 1);
    } else {
        assert(s.subrange(0, k) == s);
    }
}

proof fn lemma_digits_nonneg(s: Seq<char>)
    requires
        all_digits(s),
    ensures
        0 <= digits_value(s),
    decreases s.len(),
{
    if s.len() > 0 {
        assert(digit_value(s.last()) is Some);
        lemma_digits_nonneg(s.drop_last());
    }
}

fn digit_of(c: char) -> (d: Option<i64>)
    ensures
        opt_i64(d) == digit_value(c),
        d matches Some(v) ==> 0 <= v <= 9,
{
    if c >= '0' && c <= '9' {
        Some((c as u32 - '0' as u32) as i64)
    } else {
        None
    }
}

/// Reads a decimal 32-bit integer the way `str::parse::<i32>` does.
pub fn parse_i32(s: &str) -> (r: Option<i32>)
    ensures
        crate::models::opt_int(r) == decimal_i32(s@),
{
    let v = to_chars(s);
    let n = v.len();
    if n == 0 {
        return None;
    }
    let negative = v[0] == '-';
    let start: usize = if v[0] == '-' || v[0] == '+' {
        1
    } else {
        0
    };
    if start == n {
        return None;
    }
    let ghost digits = if s@[0] == '-' || s@[0] == '+' {
        s@.subrange(1, s@.len() as int)
    } else {
        s@
    };
    let mut acc: i64 = 0;
    let mut i: usize = start;
    let limit: i64 = 2_147_483_648;
    while i < n
        invariant
            v@ == s@,
            n == v.len(),
            n > 0,
            start <= i <= n,
            start == (if s@[0] == '-' || s@[0] == '+' {
                1int
            } else {
                0int
            }),
            digits == (if s@[0] == '-' || s@[0] == '+' {
                s@.subrange(1, s@.len() as int)
            } else {
                s@
            }),
            digits.len() == n - start,
            all_digits(digits.subrange(0, i - start)),
            acc == digits_value(digits.subrange(0, i - start)),
            0 <= acc <= limit,
            limit == 2_147_483_648,
        decreases n - i,
    {
        assert(digits[i - start] == v@[i as int]);
        let d = match digit_of(v[i]) {
            Some(d) => d,
            None => {
                assert(!all_digits(digits));
                return None;
            },
        };
        proof {
            let next = digits.subrange(0, i + 1 - start);
            assert(next.drop_last() == digits.subrange(0, i - start));
            assert(next.last() == v@[i as int]);
            assert forall|j: int| 0 <= j < next.len() implies (#[trigger] digit_value(
                next[j],
            )) is Some by {
                if j < i - start {
                    assert(next[j] == digits.subrange(0, i - start)[j]);
                }
            }
        }
        let grown = acc * 10 + d;
        if grown > limit {
            proof {
                if all_digits(digits) {
                    lemma_digits_prefix(digits, i + 1 - start);
                }
            }
            return None;
        }
        acc = grown;
        i = i + 1;
    }
    assert(digits.subrange(0, n - start) == digits);
    if negative {
        Some((-acc) as i32)
    } else if acc == limit {
        None
    } else {
        Some(acc as i32)
    }
}

} // verus!
