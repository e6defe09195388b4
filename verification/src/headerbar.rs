//! The entry in which the user adds a feed: how the typed text becomes an
//! address, and how the entry reacts to it.

use crate::sources::{parse_url, source_lookup, url_normal_form, SourceTable};
use crate::text::{begins_with, contains, occurs_in, opt_str_text, starts_with};
use vstd::prelude::*;
use vstd::string::StringExecFns;

verus! {

/// The characters `http://`.
pub open spec fn http_scheme() -> Seq<char> {
    seq!['h', 't', 't', 'p', ':', '/', '/']
}

/// The characters `https://`.
pub open spec fn https_scheme() -> Seq<char> {
    seq!['h', 't', 't', 'p', 's', ':', '/', '/']
}

/// The address meant by a typed text: the text itself where it begins with
/// a web scheme, else the text with `http://` in front.
pub open spec fn normalized(input: Seq<char>) -> Seq<char> {
    if begins_with(input, https_scheme()) || begins_with(input, http_scheme()) {
        input
    } else {
        http_scheme() + input
    }
}

/// Completes a typed text to an address.
pub fn normalize_url(input: &str) -> (url: String)
    ensures
        url@ == normalized(input@),
{
    proof {
        reveal_strlit("https://");
        reveal_strlit("http://");
    }
    assert("https://"@ =~= https_scheme());
    assert("http://"@ =~= http_scheme());
    if starts_with(input, "https://") || starts_with(input, "http://") {
        input.to_owned()
    } else {
        let mut url = "http://".to_owned();
        url.append(input);
        url
    }
}

/// What is wrong with the text in the entry.
#[derive(Clone, Copy, PartialEq, Eq, Structural, Debug)]
pub enum EntryProblem {
    /// The feed is subscribed already.
    AlreadySubscribed,
    /// The text is no URL.
    InvalidUrl,
}

impl EntryProblem {
    /// What the icon in the entry says when pointed at.
    pub fn tooltip(self) -> (text: &'static str)
        ensures
            text@ == (match self {
                EntryProblem::AlreadySubscribed => "You are already subscribed to this show"@,
                EntryProblem::InvalidUrl => "Invalid URL"@,
            }),
    {
        match self {
            EntryProblem::AlreadySubscribed => "You are already subscribed to this show",
            EntryProblem::InvalidUrl => "Invalid URL",
        }
    }
}

/// How the entry looks and whether the add button can be pressed.
#[derive(Clone, Copy, PartialEq, Eq, Structural, Debug)]
pub enum EntryStyle {
    /// No complaint; the add button is sensitive or not.
    Neutral { sensitive: bool },
    /// The entry shows an error; the add button cannot be pressed.
    Error(EntryProblem),
}

impl EntryStyle {
    /// Whether the entry is drawn as an error.
    pub fn error(self) -> (r: bool)
        ensures
            r == (self is Error),
    {
        match self {
            EntryStyle::Error(_) => true,
            EntryStyle::Neutral { .. } => false,
        }
    }

    /// Whether the add button can be pressed.
    pub fn sensitive(self) -> (r: bool)
        ensures
            r == (self matches EntryStyle::Neutral { sensitive } && sensitive),
    {
        match self {
            EntryStyle::Error(_) => false,
            EntryStyle::Neutral { sensitive } => sensitive,
        }
    }

    /// The icon shown in the entry, if any.
    pub fn icon_name(self) -> (name: Option<&'static str>)
        ensures
            opt_str_text(name) == (if self is Error {
                Some("dialog-error-symbolic"@)
            } else {
                None
            }),
    {
        match self {
            EntryStyle::Error(_) => Some("dialog-error-symbolic"),
            EntryStyle::Neutral { .. } => None,
        }
    }
}

/// How the entry reacts to a text, given how its completed address parsed:
/// a URL that is subscribed is an error, a new one can be added; a text that
/// is no URL is an error unless nothing has been typed.
pub open spec fn entry_style_of(
    parsed: Option<Seq<char>>,
    input_is_empty: bool,
    sources: Seq<crate::models::SourceView>,
) -> EntryStyle {
    match parsed {
        Some(u) => if source_lookup(sources, u) is Some {
            EntryStyle::Error(EntryProblem::AlreadySubscribed)
        } else {
            EntryStyle::Neutral { sensitive: true }
        },
        None => if !input_is_empty {
            EntryStyle::Error(EntryProblem::InvalidUrl)
        } else {
            EntryStyle::Neutral { sensitive: false }
        },
    }
}

/// Decides how the entry reacts, from the outcome of parsing the address.
pub fn entry_style(parsed: Option<&str>, input_is_empty: bool, sources: &SourceTable) -> (style:
    EntryStyle)
    ensures
        style == entry_style_of(opt_str_text(parsed), input_is_empty, sources@),
{
    match parsed {
        Some(u) => if sources.source_exists(u) {
            EntryStyle::Error(EntryProblem::AlreadySubscribed)
        } else {
            EntryStyle::Neutral { sensitive: true }
        },
        None => if !input_is_empty {
            EntryStyle::Error(EntryProblem::InvalidUrl)
        } else {
            EntryStyle::Neutral { sensitive: false }
        },
    }
}

/// Decides how the entry reacts to the text typed so far.
pub fn on_entry_changed(input: &str, sources: &SourceTable) -> (style: EntryStyle)
    ensures
        style == entry_style_of(
            url_normal_form(normalized(input@)),
            input@.len() == 0,
            sources@,
        ),
{
    let is_input_url_empty = input.unicode_len() == 0;
    let url = normalize_url(input);
    match parse_url(url.as_str()) {
        Ok(u) => entry_style(Some(u.as_str()), is_input_url_empty, sources),
        Err(_) => entry_style(None, is_input_url_empty, sources),
    }
}

/// The characters `itunes.com`.
pub open spec fn itunes_host() -> Seq<char> {
    seq!['i', 't', 'u', 'n', 'e', 's', '.', 'c', 'o', 'm']
}

/// The characters `apple.com`.
pub open spec fn apple_host() -> Seq<char> {
    seq!['a', 'p', 'p', 'l', 'e', '.', 'c', 'o', 'm']
}

/// What to subscribe to when the add button is pressed.
pub struct AddRequest {
    /// The completed address.
    pub url: String,
    /// Whether the address is a store page whose feed has to be looked up
    /// first.
    pub resolve_itunes: bool,
}

/// Completes the typed text and tells a store page from a feed: an address
/// that mentions the store's hosts has to be resolved to its feed.
pub fn on_add_clicked(input: &str) -> (request: AddRequest)
    ensures
        request.url@ == normalized(input@),
        request.resolve_itunes == (occurs_in(normalized(input@), itunes_host()) || occurs_in(
            normalized(input@),
            apple_host(),
        )),
{
    let url = normalize_url(input);
    proof {
        reveal_strlit("itunes.com");
        reveal_strlit("apple.com");
    }
    assert("itunes.com"@ =~= itunes_host());
    assert("apple.com"@ =~= apple_host());
    let resolve_itunes = contains(url.as_str(), "itunes.com") || contains(
        url.as_str(),
        "apple.com",
    );
    AddRequest { url, resolve_itunes }
}

} // verus!
