//! Absolute URLs, resolved by the `url` crate and held as plain text.

use vstd::prelude::*;

use url::{ParseError, Url};

verus! {

/// Declares `url::ParseError`, the reason `url` gives for a failed parse,
/// so that it can be carried through as an opaque value.
#[verifier::external_type_specification]
#[verifier::external_body]
pub struct ExParseError(ParseError);

/// What `url` makes of `input` parsed against `base` (itself parsed first,
/// when given): the serialization and the host of the absolute URL, or
/// `None` where either parse fails.
pub uninterp spec fn url_resolution(base: Option<Seq<char>>, input: Seq<char>) -> Option<
    (Seq<char>, Option<Seq<char>>),
>;

/// An optional borrowed text, as characters.
pub open spec fn opt_text(s: Option<&str>) -> Option<Seq<char>> {
    match s {
        Some(t) => Some(t@),
        None => None,
    }
}

/// An optional owned text, as characters.
pub open spec fn opt_string(s: Option<String>) -> Option<Seq<char>> {
    match s {
        Some(t) => Some(t@),
        None => None,
    }
}

/// Relies on `url`: `Url::parse` for the base, `ParseOptions::parse` (with
/// that base) for the input, then `Url::as_str` and `Url::host_str` on the
/// result. The outcome depends on the two texts alone.
#[verifier::external_body]
fn parse_with_base(base: Option<&str>, input: &str) -> (r: Result<(String, Option<String>), ParseError>)
    ensures
        match r {
            Ok((href, host)) => url_resolution(opt_text(base), input@) == Some(
                (href@, opt_string(host)),
            ),
            Err(_) => url_resolution(opt_text(base), input@) is None,
        },
{
    let base = match base {
        Some(b) => Some(Url::parse(b)?),
        None => None,
    };
    let u = Url::options().base_url(base.as_ref()).parse(input)?;
    Ok((u.as_str().to_string(), u.host_str().map(str::to_string)))
}

/// Why a source location could not be turned into an absolute URL.
#[derive(Debug, Clone, Copy, PartialEq, Eq)]
pub enum UrlError {
    Invalid(ParseError),
}

/// An absolute URL: its serialization and, where it has one, its host.
#[derive(Debug, Clone, PartialEq, Eq)]
pub struct AbsoluteUrl {
    href: String,
    host: Option<String>,
}

impl View for AbsoluteUrl {
    type V = (Seq<char>, Option<Seq<char>>);

    closed spec fn view(&self) -> (Seq<char>, Option<Seq<char>>) {
        (self.href@, opt_string(self.host))
    }
}

/// The serialization of an optional base, as the resolution takes it.
pub open spec fn base_text(base: Option<&AbsoluteUrl>) -> Option<Seq<char>> {
    match base {
        Some(b) => Some(b@.0),
        None => None,
    }
}

impl AbsoluteUrl {
    /// Resolves `input` against `base`; without a base, `input` must be absolute.
    pub fn resolve(base: Option<&AbsoluteUrl>, input: &str) -> (r: Result<AbsoluteUrl, UrlError>)
        ensures
            r is Ok <==> url_resolution(base_text(base), input@) is Some,
            r matches Ok(u) ==> url_resolution(base_text(base), input@) == Some(u@),
    {
        let b: Option<&str> = match base {
            Some(u) => Some(u.href.as_str()),
            None => None,
        };
        match parse_with_base(b, input) {
            Ok((href, host)) => Ok(AbsoluteUrl { href, host }),
            Err(e) => Err(UrlError::Invalid(e)),
        }
    }

    /// Parses an absolute URL.
    pub fn parse(input: &str) -> (r: Result<AbsoluteUrl, UrlError>)
        ensures
            r is Ok <==> url_resolution(None, input@) is Some,
            r matches Ok(u) ==> url_resolution(None, input@) == Some(u@),
    {
        AbsoluteUrl::resolve(None, input)
    }

    /// The serialization of this URL.
    pub fn as_str(&self) -> (r: &str)
        ensures
            r@ == self@.0,
    {
        self.href.as_str()
    }

    /// The host of this URL, if it has one.
    pub fn host_str(&self) -> (r: Option<&str>)
        ensures
            opt_text(r) == self@.1,
    {
        match &self.host {
            Some(h) => Some(h.as_str()),
            None => None,
        }
    }
}

} // verus!
