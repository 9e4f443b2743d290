//! What this crate takes from the `url` crate: parsing of absolute URLs.
//!
//! Parsing and serialising a URL follows the WHATWG URL standard, which is far
//! too long to restate here. The results are therefore named, not defined:
//! [`parsed_url`] and [`parsed_url_with_params`] stand for what the `url` crate
//! returns, and the contracts of this crate are stated over them.

use vstd::prelude::*;
use vstd::utf8::{encode_utf8, is_ascii_chars, is_ascii_chars_encode_utf8};

verus! {

/// The error of the `url` crate's parser. Its values are not looked into.
#[verifier::external_type_specification]
#[verifier::external_body]
pub struct ExParseError(url::ParseError);

/// The serialisation of the absolute URL that `input` parses to, or `None`
/// where `input` is not an absolute URL.
pub uninterp spec fn parsed_url(input: Seq<char>) -> Option<Seq<char>>;

/// The serialisation of the absolute URL that `input` parses to, with each
/// pair of `params` appended to its query in order, or `None` where `input` is
/// not an absolute URL.
pub uninterp spec fn parsed_url_with_params(
    input: Seq<char>,
    params: Seq<(Seq<char>, Seq<char>)>,
) -> Option<Seq<char>>;

/// The most bytes that one string handed to [`parse_url_with_params`] may
/// have.
///
/// The `url` crate keeps 32-bit offsets into a URL's text and panics when
/// appended parameters move the end of the query past 4 GiB. Parsing and
/// encoding lengthen a text by a small factor only, so a few strings within
/// this bound stay far below that size.
pub const MAX_URL_INPUT_BYTES: usize = 0x10_0000;

/// The most pairs that [`parse_url_with_params`] takes in one call.
pub const MAX_URL_PARAMS: usize = 16;

/// The number of bytes of `text` in UTF-8, which is what `str::len` counts.
pub open spec fn byte_len(text: Seq<char>) -> nat {
    encode_utf8(text).len()
}

/// A text of ASCII characters takes one byte for each character.
pub proof fn lemma_ascii_byte_len(text: Seq<char>)
    requires
        is_ascii_chars(text),
    ensures
        byte_len(text) == text.len(),
{
    is_ascii_chars_encode_utf8(text);
}

/// How `params` look in contracts: each pair by the views of its two strings.
pub open spec fn params_view(params: Seq<(String, String)>) -> Seq<(Seq<char>, Seq<char>)> {
    params.map_values(|pair: (String, String)| (pair.0@, pair.1@))
}

/// Every string of `params`, and their number, is within the bounds above.
pub open spec fn params_within_bounds(params: Seq<(String, String)>) -> bool {
    &&& params.len() <= MAX_URL_PARAMS
    &&& forall|i: int|
        #![trigger params[i]]
        0 <= i < params.len() ==> byte_len(params[i].0@) <= MAX_URL_INPUT_BYTES && byte_len(
            params[i].1@,
        ) <= MAX_URL_INPUT_BYTES
}

/// Calls `url::Url::parse` and hands out the URL's serialisation.
///
/// Claimed: the call returns `Ok` exactly where [`parsed_url`] is `Some`, and
/// the text handed out is the one that [`parsed_url`] names.
#[verifier::external_body]
pub(crate) fn parse_url(input: &str) -> (parsed: Result<String, url::ParseError>)
    ensures
        match parsed {
            Ok(text) => parsed_url(input@) == Some(text@),
            Err(_) => parsed_url(input@) is None,
        },
{
    match url::Url::parse(input) {
        Ok(url) => Ok(String::from(url)),
        Err(error) => Err(error),
    }
}

/// Calls `url::Url::parse_with_params` and hands out the URL's serialisation.
///
/// Claimed: the call returns `Ok` exactly where [`parsed_url_with_params`] is
/// `Some`, and the text handed out is the one that it names. Inputs on which
/// the call could panic are kept out by the bounds.
#[verifier::external_body]
pub(crate) fn parse_url_with_params(input: &str, params: &Vec<(String, String)>) -> (parsed: Result<
    String,
    url::ParseError,
>)
    requires
        byte_len(input@) <= MAX_URL_INPUT_BYTES,
        params_within_bounds(params@),
    ensures
        match parsed {
            Ok(text) => parsed_url_with_params(input@, params_view(params@)) == Some(text@),
            Err(_) => parsed_url_with_params(input@, params_view(params@)) is None,
        },
{
    match url::Url::parse_with_params(input, params) {
        Ok(url) => Ok(String::from(url)),
        Err(error) => Err(error),
    }
}

} // verus!
