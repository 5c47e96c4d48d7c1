//! The `Link` response header: a comma-separated list of entries of the form
//! `<url>; rel="name"`, read into a mapping from relation name to URL.
//!
//! Policy on malformed entries: an entry that does not hold exactly one `;`,
//! or whose URL does not parse, fails the whole header. An entry whose second
//! part holds no `=` names no relation and adds nothing.

use vstd::prelude::*;
use vstd::string::*;
use crate::response::HeaderValue;
use crate::text_map::TextMap;
use crate::text::{CharClass, first_index, lemma_first_index, strip, without, split_once, contains_char, strip_class, remove_class};

verus! {

/// `url::ParseError`, the reason for which `url::Url::parse` rejects a text.
/// Nothing is claimed of its values.
#[verifier::external_type_specification]
#[verifier::external_body]
pub struct ExUrlParseError(url::ParseError);

/// The serialization of the URL that `url::Url::parse` reads from `input`,
/// or `None` where it rejects `input`.
pub uninterp spec fn parsed_url(input: Seq<char>) -> Option<Seq<char>>;

/// Calls `url::Url::parse` and, where it accepts the text, converts the URL
/// into its serialization (`String::from`). Trusted: the result is the one
/// that `parsed_url` names for the same text; an error stands for `None`.
#[verifier::external_body]
pub(crate) fn url_parse(input: &str) -> (r: Result<String, url::ParseError>)
    ensures
        r is Ok <==> parsed_url(input@) is Some,
        r matches Ok(u) ==> Some(u@) == parsed_url(input@),
{
    url::Url::parse(input).map(String::from)
}

/// Why a `Link` header could not be read.
#[derive(Clone, Copy, Debug, PartialEq, Eq, Structural)]
pub enum LinkError {
    /// An entry does not consist of exactly two parts separated by `;`.
    PartCount,
    /// The URL part of an entry is not an absolute URL.
    InvalidUrl,
    /// The header's value is not text.
    Unreadable,
}

/// The two tokens of one entry, as pure text.
pub ghost struct LinkTokens {
    /// The URL part, without angle brackets and surrounding whitespace.
    pub url: Seq<char>,
    /// The relation name, where the second part holds a `=`.
    pub rel: Option<Seq<char>>,
}

/// The two tokens of one entry.
#[derive(Clone, Debug, PartialEq, Eq)]
pub struct LinkEntry {
    /// The URL part, without angle brackets and surrounding whitespace.
    pub url: String,
    /// The relation name, where the second part holds a `=`.
    pub rel: Option<String>,
}

impl View for LinkEntry {
    type V = LinkTokens;

    open spec fn view(&self) -> LinkTokens {
        LinkTokens {
            url: self.url@,
            rel: match self.rel {
                Some(r) => Some(r@),
                None => None,
            },
        }
    }
}

/// The URL token of an entry's first part: every angle bracket removed, then
/// surrounding whitespace stripped.
pub open spec fn url_token(part: Seq<char>) -> Seq<char> {
    strip(without(part, CharClass::AngleBracket), CharClass::Whitespace)
}

/// The relation name in an entry's second part: what follows the first `=`,
/// stripped of surrounding quotes and then of surrounding whitespace.
pub open spec fn rel_token(part: Seq<char>) -> Option<Seq<char>> {
    if part.contains('=') {
        Some(
            strip(
                strip(part.skip(first_index(part, '=') + 1), CharClass::Quote),
                CharClass::Whitespace,
            ),
        )
    } else {
        None
    }
}

/// The tokens of an entry, where it holds exactly one `;`.
pub open spec fn entry_tokens(entry: Seq<char>) -> Option<LinkTokens> {
    let i = first_index(entry, ';');
    if entry.contains(';') && !entry.skip(i + 1).contains(';') {
        Some(LinkTokens { url: url_token(entry.take(i)), rel: rel_token(entry.skip(i + 1)) })
    } else {
        None
    }
}

/// The relations after one more entry has been read.
pub open spec fn with_entry(links: Map<Seq<char>, Seq<char>>, entry: Seq<char>) -> Result<
    Map<Seq<char>, Seq<char>>,
    LinkError,
> {
    match entry_tokens(entry) {
        None => Err(LinkError::PartCount),
        Some(tokens) => with_parsed(links, tokens.rel, parsed_url(tokens.url)),
    }
}

/// The relations after every entry of `list` has been read, first to last.
/// The first entry that fails decides the error.
pub open spec fn with_entries(links: Map<Seq<char>, Seq<char>>, list: Seq<char>) -> Result<
    Map<Seq<char>, Seq<char>>,
    LinkError,
>
    decreases list.len(),
{
    let i = first_index(list, ',');
    if i < 0 || i >= list.len() {
        with_entry(links, list)
    } else {
        match with_entry(links, list.take(i)) {
            Err(e) => Err(e),
            Ok(next) => with_entries(next, list.skip(i + 1)),
        }
    }
}

/// What a `Link` header value means: relation name to URL.
pub open spec fn link_relations(header: Seq<char>) -> Result<Map<Seq<char>, Seq<char>>, LinkError> {
    with_entries(Map::empty(), header)
}

/// The relations after an entry that names the relation `rel`, if any, and
/// whose URL token was parsed with the result `parsed`.
pub open spec fn with_parsed(
    links: Map<Seq<char>, Seq<char>>,
    rel: Option<Seq<char>>,
    parsed: Option<Seq<char>>,
) -> Result<Map<Seq<char>, Seq<char>>, LinkError> {
    match parsed {
        None => Err(LinkError::InvalidUrl),
        Some(url) => match rel {
            Some(name) => Ok(links.insert(name, url)),
            None => Ok(links),
        },
    }
}

/// Records what one entry gave, from the result of parsing its URL token:
/// the URL under the relation name, where the URL was accepted and the entry
/// names a relation. A rejected URL is an error and leaves `links` alone.
pub fn record_link(
    links: &mut TextMap,
    rel: Option<String>,
    parsed: Result<String, url::ParseError>,
) -> (r: Result<(), LinkError>)
    ensures
        r is Ok <==> parsed is Ok,
        r matches Err(e) ==> e == LinkError::InvalidUrl && final(links)@ == old(links)@,
        parsed matches Ok(url) ==> final(links)@ == match rel {
            Some(name) => old(links)@.insert(name@, url@),
            None => old(links)@,
        },
{
    match parsed {
        Err(_) => Err(LinkError::InvalidUrl),
        Ok(url) => {
            match rel {
                Some(name) => links.insert(name, url),
                None => {},
            }
            Ok(())
        },
    }
}

/// The URL of the next page that a `Link` header names: none where the
/// header is missing or holds no relation `next`.
pub open spec fn next_url(link: HeaderValue) -> Result<Option<Seq<char>>, LinkError> {
    match link {
        HeaderValue::Missing => Ok(None),
        HeaderValue::Opaque => Err(LinkError::Unreadable),
        HeaderValue::Text(t) => match link_relations(t@) {
            Err(e) => Err(e),
            Ok(links) => if links.contains_key("next"@) {
                Ok(Some(links["next"@]))
            } else {
                Ok(None)
            },
        },
    }
}

/// Splits one entry of a `Link` header into its URL token and relation name.
pub fn split_link_entry(entry: &str) -> (r: Result<LinkEntry, LinkError>)
    ensures
        match r {
            Ok(e) => entry_tokens(entry@) == Some(e@),
            Err(e) => e == LinkError::PartCount && entry_tokens(entry@) is None,
        },
{
    match split_once(entry, ';') {
        None => Err(LinkError::PartCount),
        Some((first, second)) => {
            if contains_char(second.as_str(), ';') {
                return Err(LinkError::PartCount);
            }
            let bare = remove_class(first.as_str(), CharClass::AngleBracket);
            let url = strip_class(bare.as_str(), CharClass::Whitespace);
            let rel = match split_once(second.as_str(), '=') {
                None => None,
                Some((_, value)) => {
                    let unquoted = strip_class(value.as_str(), CharClass::Quote);
                    Some(strip_class(unquoted.as_str(), CharClass::Whitespace))
                },
            };
            Ok(LinkEntry { url, rel })
        },
    }
}

/// Reads one entry into `links`.
fn add_entry(links: &mut TextMap, entry: &str) -> (r: Result<(), LinkError>)
    ensures
        match r {
            Ok(()) => with_entry(old(links)@, entry@) == Ok::<Map<Seq<char>, Seq<char>>, LinkError>(
                final(links)@,
            ),
            Err(e) => with_entry(old(links)@, entry@) == Err::<Map<Seq<char>, Seq<char>>, LinkError>(
                e,
            ) && final(links)@ == old(links)@,
        },
{
    let tokens = split_link_entry(entry)?;
    let parsed = url_parse(tokens.url.as_str());
    record_link(links, tokens.rel, parsed)
}

/// Reads the value of a `Link` header.
pub fn parse_link_header(header: &str) -> (r: Result<TextMap, LinkError>)
    ensures
        match r {
            Ok(links) => link_relations(header@) == Ok::<Map<Seq<char>, Seq<char>>, LinkError>(
                links@,
            ),
            Err(e) => link_relations(header@) == Err::<Map<Seq<char>, Seq<char>>, LinkError>(e),
        },
{
    let mut links = TextMap::new();
    let mut rest: String = header.to_owned();
    loop
        invariant
            link_relations(header@) == with_entries(links@, rest@),
        decreases rest@.len(),
    {
        proof {
            lemma_first_index(rest@, ',');
        }
        match split_once(rest.as_str(), ',') {
            None => {
                match add_entry(&mut links, rest.as_str()) {
                    Ok(()) => {
                        return Ok(links);
                    },
                    Err(e) => {
                        return Err(e);
                    },
                }
            },
            Some((entry, tail)) => {
                match add_entry(&mut links, entry.as_str()) {
                    Ok(()) => {},
                    Err(e) => {
                        return Err(e);
                    },
                }
                rest = tail;
            },
        }
    }
}

/// The URL of the next page, read from the `Link` header of a response.
pub fn parse_next_url(link: &HeaderValue) -> (r: Result<Option<String>, LinkError>)
    ensures
        match r {
            Ok(Some(url)) => next_url(*link) == Ok::<Option<Seq<char>>, LinkError>(Some(url@)),
            Ok(None) => next_url(*link) == Ok::<Option<Seq<char>>, LinkError>(None),
            Err(e) => next_url(*link) == Err::<Option<Seq<char>>, LinkError>(e),
        },
{
    match link {
        HeaderValue::Missing => Ok(None),
        HeaderValue::Opaque => Err(LinkError::Unreadable),
        HeaderValue::Text(t) => {
            let links = parse_link_header(t.as_str())?;
            match links.get("next") {
                Some(url) => Ok(Some(url.clone())),
                None => Ok(None),
            }
        },
    }
}

} // verus!
