//! What the verified code assumes about `url::Url`.
//!
//! A `Url` is opaque to the verifier. Its contracts speak of it through the
//! uninterpreted functions below, one for each reading that the library takes
//! from it.

use crate::text::opt_str_view;
use url::Url;
use vstd::prelude::*;
use vstd::utf8::encode_utf8;

verus! {

/// `url::Url`, a parsed URL. Nothing of its inside is shown to the verifier.
#[verifier::external_type_specification]
#[verifier::external_body]
pub struct ExUrl(Url);

/// `url::ParseError`, the reason for which an input is no URL.
#[verifier::external_type_specification]
#[verifier::external_body]
pub struct ExParseError(url::ParseError);

/// The serialization of a URL: what `Url::as_str` returns.
pub uninterp spec fn url_text(url: Url) -> Seq<char>;

/// What `Url::domain` returns: the host, where it is a domain name.
pub uninterp spec fn url_domain(url: Url) -> Option<Seq<char>>;

/// What `Url::host_str` returns: the host, if the URL has one.
pub uninterp spec fn url_host(url: Url) -> Option<Seq<char>>;

/// What `Url::query` returns: the query component, if the URL has one.
pub uninterp spec fn url_query(url: Url) -> Option<Seq<char>>;

/// What `Url::query_pairs` yields: the decoded pairs of the query, in order.
pub uninterp spec fn url_pairs(url: Url) -> Seq<(Seq<char>, Seq<char>)>;

/// The serialization of a URL after `Url::set_query` with the given query.
pub uninterp spec fn text_with_query(url: Url, query: Option<Seq<char>>) -> Seq<char>;

/// The serialization of the URL that `Url::parse` makes of an input, `None`
/// where it rejects the input.
pub uninterp spec fn parsed_text(input: Seq<char>) -> Option<Seq<char>>;

/// Whether `Url::set_query` can write `query` into a URL serialized as `text`.
///
/// A `Url` keeps its offsets in 32 bits and the encoder writes at most three
/// bytes for each byte of the query, so the sum below must stay under
/// `u32::MAX`. Removing the query is always possible.
pub open spec fn query_fits(text: Seq<char>, query: Option<Seq<char>>) -> bool {
    match query {
        Some(q) => encode_utf8(text).len() + 3 * encode_utf8(q).len() < u32::MAX,
        None => true,
    }
}

/// `Url::parse` accepts an input exactly where `parsed_text` is defined, and
/// the URL it returns has that serialization.
pub assume_specification[ Url::parse ](input: &str) -> (r: Result<Url, url::ParseError>)
    ensures
        match r {
            Ok(url) => parsed_text(input@) == Some(url_text(url)),
            Err(_) => parsed_text(input@) is None,
        },
;

/// `Url::as_str` returns the serialization.
pub assume_specification<'a>[ Url::as_str ](url: &'a Url) -> (r: &'a str)
    ensures
        r@ == url_text(*url),
;

/// `Url::domain` returns the domain.
pub assume_specification<'a>[ Url::domain ](url: &'a Url) -> (r: Option<&'a str>)
    ensures
        opt_str_view(r) == url_domain(*url),
;

/// `Url::host_str` returns the host.
pub assume_specification<'a>[ Url::host_str ](url: &'a Url) -> (r: Option<&'a str>)
    ensures
        opt_str_view(r) == url_host(*url),
;

/// `Url::set_query` sets the query component, or removes it where no query
/// is given.
///
/// Afterwards the URL has a query component exactly if one was given, an
/// empty one if the given one was empty, and setting the same query once
/// more would change nothing. Nothing but the query changes: with the query
/// removed, the URL reads as it would have read before. The call needs room
/// for the encoded query: beyond what `query_fits` allows it may panic.
pub assume_specification[ Url::set_query ](url: &mut Url, query: Option<&str>)
    requires
        query_fits(url_text(*old(url)), opt_str_view(query)),
    ensures
        url_text(*final(url)) == text_with_query(*old(url), opt_str_view(query)),
        url_query(*final(url)) is Some <==> query is Some,
        opt_str_view(query) == Some(Seq::<char>::empty()) ==> url_query(*final(url)) == Some(
            Seq::<char>::empty(),
        ),
        text_with_query(*final(url), opt_str_view(query)) == url_text(*final(url)),
        text_with_query(*final(url), None) == text_with_query(*old(url), None),
;

/// `Url::query_pairs`, each pair handed out as owned strings.
#[verifier::external_body]
pub(crate) fn query_pairs(url: &Url) -> (r: Vec<(String, String)>)
    ensures
        r.deep_view() == url_pairs(*url),
{
    url.query_pairs().into_owned().collect()
}

} // verus!
