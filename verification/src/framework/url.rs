//! Absolute URLs, parsed and resolved by the `url` crate and kept in serialized form.

use vstd::prelude::*;
use vstd::string::StringSliceAdditionalSpecFns;

verus! {

/// `url::ParseError`, which says why the parser rejected a text. The
/// library hands it on and looks at nothing in it.
#[verifier::external_type_specification]
#[verifier::external_body]
pub struct ExParseError(::url::ParseError);

/// The serialization of the URL that `url::Url::parse` makes of `input`,
/// or `None` where it rejects the input.
pub uninterp spec fn parsed_url(input: Seq<char>) -> Option<Seq<char>>;

/// The serialization of the URL that `url::Url::join` resolves `reference` to
/// against the URL parsed from `base`, or `None` where either step is rejected.
pub uninterp spec fn joined_url(base: Seq<char>, reference: Seq<char>) -> Option<Seq<char>>;

/// The serialization of the URL parsed from `url` after `url::Url::set_query`
/// was given `query`, or `None` where `url` is rejected.
pub uninterp spec fn url_with_query(url: Seq<char>, query: Option<Seq<char>>) -> Option<Seq<char>>;

/// The `application/x-www-form-urlencoded` form of the bytes of `text`, as
/// `form_urlencoded::byte_serialize` writes it.
pub uninterp spec fn form_encoded(text: Seq<char>) -> Seq<char>;

/// Calls `url::Url::parse` and hands back the serialization of the parsed URL.
/// The contract only gives the outcome its name, `parsed_url`.
#[verifier::external_body]
fn parse_text(input: &str) -> (outcome: Result<String, ::url::ParseError>)
    ensures
        outcome is Ok <==> parsed_url(input@) is Some,
        outcome matches Ok(text) ==> parsed_url(input@) == Some(text@),
{
    ::url::Url::parse(input).map(String::from)
}

/// Parses `base` again and calls `url::Url::join` on it with `reference`.
/// The contract only gives the outcome its name, `joined_url`.
#[verifier::external_body]
fn join_text(base: &str, reference: &str) -> (outcome: Result<String, ::url::ParseError>)
    ensures
        outcome is Ok <==> joined_url(base@, reference@) is Some,
        outcome matches Ok(text) ==> joined_url(base@, reference@) == Some(text@),
{
    ::url::Url::parse(base)?.join(reference).map(String::from)
}

/// Parses `url` again and calls `url::Url::set_query` on it. That method
/// panics where the serialization, which grows by at most three bytes for
/// each byte of the query, does not fit `u32`; the precondition leaves
/// such a URL out. The contract only gives the outcome its name,
/// `url_with_query`.
#[verifier::external_body]
fn query_text(url: &str, query: Option<&str>) -> (outcome: Result<String, ::url::ParseError>)
    requires
        query_fits(url@, view_of(query)),
    ensures
        outcome is Ok <==> url_with_query(url@, view_of(query)) is Some,
        outcome matches Ok(text) ==> url_with_query(url@, view_of(query)) == Some(text@),
{
    let mut parsed = ::url::Url::parse(url)?;
    parsed.set_query(query);
    Ok(parsed.into())
}

/// Calls `form_urlencoded::byte_serialize` on the bytes of `text` and collects
/// what it yields. The contract only gives the result its name, `form_encoded`.
#[verifier::external_body]
pub(crate) fn form_encode(text: &str) -> (encoded: String)
    ensures
        encoded@ == form_encoded(text@),
{
    ::url::form_urlencoded::byte_serialize(text.as_bytes()).collect()
}

/// The characters of an optional string slice.
pub open spec fn view_of(text: Option<&str>) -> Option<Seq<char>> {
    match text {
        Some(text) => Some(text@),
        None => None,
    }
}

/// The number of bytes that `text` takes in UTF-8.
pub open spec fn byte_len(text: Seq<char>) -> nat {
    vstd::utf8::encode_utf8(text).len()
}

/// Whether the URL that `url` parses to stays within the length that the
/// parser supports once `query` has been written into it.
pub open spec fn query_fits(url: Seq<char>, query: Option<Seq<char>>) -> bool {
    match parsed_url(url) {
        Some(serialization) => match query {
            Some(query) => byte_len(serialization) + 3 * byte_len(query) < u32::MAX,
            None => byte_len(serialization) < u32::MAX,
        },
        None => true,
    }
}

/// Why a URL could not be made.
#[derive(Debug)]
pub enum UrlError {
    /// The parser rejected the text.
    Parse(::url::ParseError),
    /// The URL would be longer than the parser supports.
    Overflow,
}

/// The kinds of [`UrlError`].
#[derive(Clone, Copy, Debug, PartialEq, Eq, Structural)]
pub enum UrlFault {
    Parse,
    Overflow,
}

impl UrlError {
    /// The kind of this error.
    pub open spec fn fault(self) -> UrlFault {
        match self {
            UrlError::Parse(_) => UrlFault::Parse,
            UrlError::Overflow => UrlFault::Overflow,
        }
    }
}

/// The URL that `url` becomes when its query is replaced by `query`, or
/// why there is none: the parser rejects `url` or what it becomes, or the
/// result would be too long for it.
pub open spec fn query_replaced(url: Seq<char>, query: Option<Seq<char>>) -> Result<
    Seq<char>,
    UrlFault,
> {
    if parsed_url(url) is None {
        Err(UrlFault::Parse)
    } else if !query_fits(url, query) {
        Err(UrlFault::Overflow)
    } else {
        match url_with_query(url, query) {
            Some(replaced) => Ok(replaced),
            None => Err(UrlFault::Parse),
        }
    }
}

/// An absolute URL in its serialized form.
///
/// A value is made by the parser, by resolving a reference against another
/// URL, or by replacing the query of another URL.
#[derive(Debug, PartialEq, Eq)]
pub struct Url {
    serialization: String,
}

impl View for Url {
    type V = Seq<char>;

    closed spec fn view(&self) -> Seq<char> {
        self.serialization@
    }
}

impl Clone for Url {
    fn clone(&self) -> (copy: Url)
        ensures
            copy == *self,
    {
        Url { serialization: self.serialization.clone() }
    }
}

impl Url {
    /// Takes `serialization` for the text of a URL without parsing it.
    pub(crate) fn from_serialization(serialization: &str) -> (url: Url)
        ensures
            url@ == serialization@,
    {
        Url { serialization: String::from_str(serialization) }
    }

    /// Parses an absolute URL.
    pub fn parse(input: &str) -> (outcome: Result<Url, UrlError>)
        ensures
            outcome is Ok <==> parsed_url(input@) is Some,
            outcome matches Ok(url) ==> parsed_url(input@) == Some(url@),
            outcome matches Err(error) ==> error is Parse,
    {
        match parse_text(input) {
            Ok(serialization) => Ok(Url { serialization }),
            Err(error) => Err(UrlError::Parse(error)),
        }
    }

    /// Resolves `reference` against this URL.
    pub fn join(&self, reference: &str) -> (outcome: Result<Url, UrlError>)
        ensures
            outcome is Ok <==> joined_url(self@, reference@) is Some,
            outcome matches Ok(url) ==> joined_url(self@, reference@) == Some(url@),
            outcome matches Err(error) ==> error is Parse,
    {
        match join_text(self.serialization.as_str(), reference) {
            Ok(serialization) => Ok(Url { serialization }),
            Err(error) => Err(UrlError::Parse(error)),
        }
    }

    /// Returns this URL with its query replaced by `query`, or without a
    /// query where `query` is `None`.
    pub fn with_query(&self, query: Option<&str>) -> (outcome: Result<Url, UrlError>)
        ensures
            match query_replaced(self@, view_of(query)) {
                Ok(replaced) => outcome matches Ok(url) && url@ == replaced,
                Err(fault) => outcome matches Err(error) && error.fault() == fault,
            },
    {
        let parsed = match parse_text(self.serialization.as_str()) {
            Ok(parsed) => parsed,
            Err(error) => {
                return Err(UrlError::Parse(error));
            },
        };
        let url_len: u64 = parsed.as_str().as_bytes().len() as u64;
        let query_len: u64 = match query {
            Some(text) => text.as_bytes().len() as u64,
            None => 0,
        };
        if url_len >= 0xffff_ffff || query_len >= 0xffff_ffff || url_len + 3 * query_len
            >= 0xffff_ffff {
            return Err(UrlError::Overflow);
        }
        match query_text(self.serialization.as_str(), query) {
            Ok(serialization) => Ok(Url { serialization }),
            Err(error) => Err(UrlError::Parse(error)),
        }
    }

    /// The serialization of this URL.
    pub fn as_str(&self) -> (text: &str)
        ensures
            text@ == self@,
    {
        self.serialization.as_str()
    }
}

} // verus!
