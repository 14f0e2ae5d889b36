//! Endpoint URLs: the type, and reading lists of them from text.

use vstd::prelude::*;
use url::Url;
use crate::error::{ConfigErrorView, ConfigParsingError};
use crate::path::ConfigPath;
use crate::text::{split_on, split_text};
use crate::value::{read_failed, read_ok, ParserView, Read, ValueParser};

verus! {

/// `url::Url`, an absolute URL that has been parsed. Nothing of its inside is
/// visible to proofs: a value is only carried along, compared and copied.
#[verifier::external_type_specification]
#[verifier::external_body]
pub struct ExUrl(url::Url);

/// `Url::clone`, which the crate derives: the copy is the same URL.
pub assume_specification[ <url::Url as Clone>::clone ](url: &url::Url) -> (copy: url::Url)
    ensures
        copy == *url,
;

/// The URL that `Url::parse` reads from `text`; nothing where it rejects the
/// text.
pub uninterp spec fn parsed_url(text: Seq<char>) -> Option<url::Url>;

/// `Url::parse`: reads an absolute URL. The outcome depends on the text
/// alone, and a rejected text gives nothing.
#[verifier::external_body]
fn parse_url(text: &str) -> (url: Option<Url>)
    ensures
        url == parsed_url(text@),
{
    Url::parse(text).ok()
}

/// A copy of a list of URLs, in the same order.
pub fn clone_urls(urls: &[Url]) -> (copy: Vec<Url>)
    ensures
        copy@ == urls@,
{
    let mut copy: Vec<Url> = Vec::new();
    let mut i: usize = 0;
    while i < urls.len()
        invariant
            i <= urls@.len(),
            copy@ == urls@.take(i as int),
        decreases urls.len() - i,
    {
        copy.push(urls[i].clone());
        i += 1;
        assert(copy@ =~= urls@.take(i as int));
    }
    assert(urls@.take(i as int) =~= urls@);
    copy
}

/// The cause recorded for a text that is no URL.
pub open spec fn cause_invalid_url() -> Seq<char> {
    "Invalid url"@
}

/// What becomes of a text found at `path` once `Url::parse` has judged it:
/// the URL, or a problem at `path`.
pub open spec fn url_outcome(parsed: Option<Url>, path: Seq<Seq<char>>) -> Read<Url> {
    match parsed {
        Some(url) => read_ok(url),
        None => read_failed(path, cause_invalid_url()),
    }
}

/// Takes what `Url::parse` made of a text found at `path`: hands the URL
/// on, or records in `err` that the text is no URL.
pub fn accept_url(parsed: Option<Url>, path: &ConfigPath, err: &mut ConfigParsingError) -> (url:
    Option<Url>)
    ensures
        url == url_outcome(parsed, path@).value,
        final(err)@ == old(err)@ + url_outcome(parsed, path@).errors,
{
    let ghost before = err@;
    match parsed {
        Some(url) => {
            assert(err@ =~= before + url_outcome(parsed, path@).errors);
            Some(url)
        },
        None => {
            err.push(path.duplicate(), "Invalid url".to_owned());
            assert(err@ =~= before + url_outcome(parsed, path@).errors);
            None
        },
    }
}

/// Reading a value as a URL: it must be a string that `Url::parse` accepts.
pub open spec fn url_of(reader: ParserView) -> Read<Url> {
    reader.string().and_then(|text: Seq<char>| url_outcome(parsed_url(text), reader.cwp))
}

/// Reads the value as a URL. A value that is no string, or no URL, is
/// recorded in `err`.
pub fn parse_url_value(reader: &ValueParser, err: &mut ConfigParsingError) -> (url: Option<Url>)
    ensures
        url == url_of(reader@).value,
        final(err)@ == old(err)@ + url_of(reader@).errors,
{
    let ghost before = err@;
    match reader.parse_string(err) {
        Some(text) => {
            let url = accept_url(parse_url(text), &reader.cwp, err);
            assert(err@ =~= before + url_of(reader@).errors);
            url
        },
        None => None,
    }
}

/// Reading the URL that one item of a list gives under the key `protocol`.
pub open spec fn listed_url(item: ParserView, protocol: Seq<char>) -> Read<Url> {
    item.key(protocol).and_then(|found: ParserView| url_of(found))
}

/// The URLs that the items of a list give, in order; an item that gives none
/// is left out.
pub open spec fn listed_urls(items: Seq<ParserView>, protocol: Seq<char>) -> Seq<Url>
    decreases items.len(),
{
    if items.len() == 0 {
        Seq::empty()
    } else {
        let before = listed_urls(items.drop_last(), protocol);
        match listed_url(items.last(), protocol).value {
            Some(url) => before.push(url),
            None => before,
        }
    }
}

/// The problems met while reading the URLs of the items of a list, in order.
pub open spec fn listed_url_errors(items: Seq<ParserView>, protocol: Seq<char>) -> Seq<
    ConfigErrorView,
>
    decreases items.len(),
{
    if items.len() == 0 {
        Seq::empty()
    } else {
        listed_url_errors(items.drop_last(), protocol) + listed_url(items.last(), protocol).errors
    }
}

/// The base URLs of a chain: those that the items of the array under `key`
/// give under `protocol`. None where the array cannot be read.
pub open spec fn base_urls(chain: ParserView, key: Seq<char>, protocol: Seq<char>) -> Seq<Url> {
    match chain.key(key).and_then(|list: ParserView| list.items()).value {
        Some(items) => listed_urls(items, protocol),
        None => Seq::empty(),
    }
}

/// The problems met while reading the base URLs of a chain.
pub open spec fn base_url_errors(chain: ParserView, key: Seq<char>, protocol: Seq<char>) -> Seq<
    ConfigErrorView,
> {
    let list = chain.key(key).and_then(|list: ParserView| list.items());
    match list.value {
        Some(items) => list.errors + listed_url_errors(items, protocol),
        None => list.errors,
    }
}

/// Reads the base URLs of a chain: the array under `key`, each item an
/// object with the URL under `protocol`. Whatever cannot be read is recorded
/// in `err` and left out.
pub fn parse_urls(chain: &ValueParser, key: &str, protocol: &str, err: &mut ConfigParsingError)
    -> (urls: Vec<Url>)
    ensures
        urls@ == base_urls(chain@, key@, protocol@),
        final(err)@ == old(err)@ + base_url_errors(chain@, key@, protocol@),
{
    let ghost before = err@;
    let list = match chain.get_key(key, err) {
        Some(found) => found.into_array(err),
        None => None,
    };
    let ghost read = chain@.key(key@).and_then(|list: ParserView| list.items());
    assert(err@ =~= before + read.errors);
    let mut urls: Vec<Url> = Vec::new();
    match list {
        Some(readers) => {
            let ghost items = read.value->0;
            let mut i: usize = 0;
            assert(items.take(0) =~= Seq::<ParserView>::empty());
            while i < readers.len()
                invariant
                    i <= readers@.len(),
                    readers.deep_view() == items,
                    urls@ == listed_urls(items.take(i as int), protocol@),
                    err@ == before + read.errors + listed_url_errors(
                        items.take(i as int),
                        protocol@,
                    ),
                decreases readers.len() - i,
            {
                let ghost so_far = err@;
                proof {
                    assert(items.take(i + 1).drop_last() =~= items.take(i as int));
                    assert(items.take(i + 1).last() == items[i as int]);
                    assert(readers.deep_view()[i as int] == readers@[i as int]@);
                }
                let found = match readers[i].get_key(protocol, err) {
                    Some(value) => parse_url_value(&value, err),
                    None => None,
                };
                assert(err@ =~= so_far + listed_url(items[i as int], protocol@).errors);
                match found {
                    Some(url) => {
                        urls.push(url);
                    },
                    None => {},
                }
                i += 1;
                assert(err@ =~= before + read.errors + listed_url_errors(
                    items.take(i as int),
                    protocol@,
                ));
            }
            assert(items.take(i as int) =~= items);
        },
        None => {},
    }
    urls
}

/// The URLs among the pieces of a comma-separated list, in order; a piece
/// that is no URL is left out.
pub open spec fn piece_urls(pieces: Seq<Seq<char>>) -> Seq<Url>
    decreases pieces.len(),
{
    if pieces.len() == 0 {
        Seq::empty()
    } else {
        let before = piece_urls(pieces.drop_last());
        match parsed_url(pieces.last()) {
            Some(url) => before.push(url),
            None => before,
        }
    }
}

/// The problems recorded for the pieces of a comma-separated list found at
/// `path`: one for each piece that is no URL, in order.
pub open spec fn piece_url_errors(pieces: Seq<Seq<char>>, path: Seq<Seq<char>>) -> Seq<
    ConfigErrorView,
>
    decreases pieces.len(),
{
    if pieces.len() == 0 {
        Seq::empty()
    } else {
        piece_url_errors(pieces.drop_last(), path) + url_outcome(
            parsed_url(pieces.last()),
            path,
        ).errors
    }
}

/// The URLs that override the base URLs of a chain: those in the
/// comma-separated string under `key`. None at all, as opposed to an empty
/// list, where there is no such string.
pub open spec fn custom_urls(chain: ParserView, key: Seq<char>) -> Option<Seq<Url>> {
    match chain.opt_string_at(key).value {
        Some(text) => Some(piece_urls(split_on(text, ','))),
        None => None,
    }
}

/// The problems met while reading the overriding URLs of a chain.
pub open spec fn custom_url_errors(chain: ParserView, key: Seq<char>) -> Seq<ConfigErrorView> {
    let text = chain.opt_string_at(key);
    match text.value {
        Some(list) => text.errors + piece_url_errors(split_on(list, ','), chain.cwp.push(key)),
        None => text.errors,
    }
}

/// Reads the URLs that override the base URLs of a chain, from the
/// comma-separated string under `key`. A piece that is no URL is recorded
/// in `err` and left out.
pub fn parse_custom_urls(chain: &ValueParser, key: &str, err: &mut ConfigParsingError) -> (urls:
    Option<Vec<Url>>)
    ensures
        urls.is_some() == custom_urls(chain@, key@).is_some(),
        urls matches Some(list) ==> Some(list@) == custom_urls(chain@, key@),
        final(err)@ == old(err)@ + custom_url_errors(chain@, key@),
{
    let ghost before = err@;
    let text = chain.opt_string_at(key, err);
    let ghost read = chain@.opt_string_at(key@);
    match text {
        Some(list) => {
            let path = chain.cwp.join(key);
            let pieces = split_text(list, ',');
            let ghost parts = split_on(list@, ',');
            let mut urls: Vec<Url> = Vec::new();
            let mut i: usize = 0;
            assert(parts.take(0) =~= Seq::<Seq<char>>::empty());
            assert(err@ =~= before + read.errors + piece_url_errors(parts.take(0), path@));
            while i < pieces.len()
                invariant
                    i <= pieces@.len(),
                    pieces.deep_view() == parts,
                    urls@ == piece_urls(parts.take(i as int)),
                    err@ == before + read.errors + piece_url_errors(parts.take(i as int), path@),
                decreases pieces.len() - i,
            {
                let ghost so_far = err@;
                proof {
                    assert(parts.take(i + 1).drop_last() =~= parts.take(i as int));
                    assert(parts.take(i + 1).last() == parts[i as int]);
                    assert(pieces.deep_view()[i as int] == pieces@[i as int]@);
                }
                match accept_url(parse_url(pieces[i]), &path, err) {
                    Some(url) => {
                        urls.push(url);
                    },
                    None => {},
                }
                i += 1;
                assert(err@ =~= before + read.errors + piece_url_errors(
                    parts.take(i as int),
                    path@,
                ));
            }
            assert(parts.take(i as int) =~= parts);
            Some(urls)
        },
        None => None,
    }
}

/// The endpoints of a chain: the overriding URLs where the override key is
/// set, else the base URLs.
pub open spec fn merged_urls(
    chain: ParserView,
    base_key: Seq<char>,
    override_key: Seq<char>,
    protocol: Seq<char>,
) -> Seq<Url> {
    match custom_urls(chain, override_key) {
        Some(urls) => urls,
        None => base_urls(chain, base_key, protocol),
    }
}

/// The two problems recorded for a chain that is left without any endpoint.
pub open spec fn no_url_errors(chain: ParserView, base_key: Seq<char>, override_key: Seq<char>)
    -> Seq<ConfigErrorView> {
    seq![
        ConfigErrorView {
            path: chain.cwp.push(base_key),
            cause: "Missing base `"@ + base_key + "` definitions for chain"@,
        },
        ConfigErrorView {
            path: chain.cwp.push(override_key),
            cause: "Also missing `"@ + override_key + "` overrides for chain"@,
        },
    ]
}

/// The problems met while reading the endpoints of a chain: those of the
/// base URLs, those of the overriding URLs, and two more where no endpoint
/// is left.
pub open spec fn merged_url_errors(
    chain: ParserView,
    base_key: Seq<char>,
    override_key: Seq<char>,
    protocol: Seq<char>,
) -> Seq<ConfigErrorView> {
    base_url_errors(chain, base_key, protocol) + custom_url_errors(chain, override_key) + (
    if merged_urls(chain, base_key, override_key, protocol).len() == 0 {
        no_url_errors(chain, base_key, override_key)
    } else {
        Seq::empty()
    })
}

/// Reads the endpoints of a chain from a base key and an override key. The
/// base key holds an array of objects with the URL under `protocol`; the
/// override key holds a comma-separated string and, where it is set,
/// replaces the base list. A chain left without any endpoint is recorded
/// in `err`.
pub fn parse_base_and_override_urls(
    chain: &ValueParser,
    base_key: &str,
    override_key: &str,
    protocol: &str,
    err: &mut ConfigParsingError,
) -> (urls: Vec<Url>)
    ensures
        urls@ == merged_urls(chain@, base_key@, override_key@, protocol@),
        final(err)@ == old(err)@ + merged_url_errors(
            chain@,
            base_key@,
            override_key@,
            protocol@,
        ),
{
    let ghost before = err@;
    let base = parse_urls(chain, base_key, protocol, err);
    let overrides = parse_custom_urls(chain, override_key, err);
    let combined = match overrides {
        Some(urls) => urls,
        None => base,
    };
    if combined.len() == 0 {
        let base_cause = "Missing base `".to_owned().concat(base_key).concat(
            "` definitions for chain",
        );
        err.push(chain.cwp.join(base_key), base_cause);
        let override_cause = "Also missing `".to_owned().concat(override_key).concat(
            "` overrides for chain",
        );
        err.push(chain.cwp.join(override_key), override_cause);
    }
    assert(err@ =~= before + merged_url_errors(chain@, base_key@, override_key@, protocol@));
    combined
}

} // verus!
