//! Validation and normalization of the configured target URL.
use vstd::prelude::*;

use crate::text::{joined, prefix_until, same_text};

verus! {

/// What a parsed URL is seen as: scheme, host, serialization, fragment.
pub type UrlView = (Seq<char>, Option<Seq<char>>, Seq<char>, Option<Seq<char>>);

/// The parts of a parsed URL that the transport reads.
pub struct UrlParts {
    /// Scheme, lower case, without the `:`.
    pub scheme: String,
    /// Host, where the URL has one.
    pub host: Option<String>,
    /// The whole URL in its canonical text form.
    pub serialization: String,
    /// The text after `#`, where the URL has a fragment.
    pub fragment: Option<String>,
}

impl View for UrlParts {
    type V = UrlView;

    open spec fn view(&self) -> UrlView {
        (
            self.scheme@,
            match self.host {
                Some(h) => Some(h@),
                None => None,
            },
            self.serialization@,
            match self.fragment {
                Some(f) => Some(f@),
                None => None,
            },
        )
    }
}

/// What the `url` crate parses a text into, or `None` where it refuses it.
pub uninterp spec fn parsed_url(s: Seq<char>) -> Option<UrlView>;

/// A serialization carries its fragment last, after a `#`.
pub open spec fn fragment_is_last(v: UrlView) -> bool {
    match v.3 {
        Some(f) => v.2.len() > f.len() && v.2.subrange(v.2.len() - f.len() - 1, v.2.len() as int)
            =~= seq!['#'] + f,
        None => true,
    }
}

/// The serialization with any `#fragment` taken off its end.
pub open spec fn without_fragment(v: UrlView) -> Seq<char> {
    match v.3 {
        Some(f) => v.2.subrange(0, v.2.len() - f.len() - 1),
        None => v.2,
    }
}

/// Relies on url::Url::parse, whose result is read back through its accessors
/// `scheme`, `host_str`, `as_str` and `fragment`; the fragment is the tail of
/// the serialization after its `#`.
#[verifier::external_body]
fn parse_url(s: &str) -> (r: Result<UrlParts, String>)
    ensures
        r is Ok <==> parsed_url(s@) is Some,
        r matches Ok(p) ==> parsed_url(s@) == Some(p@),
        r matches Ok(p) ==> fragment_is_last(p@),
{
    match url::Url::parse(s) {
        Ok(u) => Ok(UrlParts {
            scheme: u.scheme().to_owned(),
            host: u.host_str().map(|h| h.to_owned()),
            serialization: u.as_str().to_owned(),
            fragment: u.fragment().map(|f| f.to_owned()),
        }),
        Err(e) => Err(e.to_string()),
    }
}

/// Which schemes a target may have.
#[derive(Debug, Clone, Copy, PartialEq, Eq, Structural)]
pub enum Scheme {
    /// Plain `http`.
    Http,
    /// `https`, over TLS.
    Https,
    /// Any other scheme.
    Other,
}

/// The scheme named by the characters `s`.
pub open spec fn scheme_of(s: Seq<char>) -> Scheme {
    if s == "http"@ {
        Scheme::Http
    } else if s == "https"@ {
        Scheme::Https
    } else {
        Scheme::Other
    }
}

/// A URL that the transport accepts as a target: parsed, with a host.
pub struct Target {
    /// The canonical text, without fragment.
    pub text: String,
    /// Its scheme.
    pub scheme: Scheme,
}

/// Parses `raw` as a URL with a host and drops its fragment.
pub fn parse_target(raw: &str) -> (r: Result<Target, crate::error::Error>)
    ensures
        match parsed_url(raw@) {
            None => r matches Err(crate::error::Error::Url(_)),
            Some(v) => match v.1 {
                None => r matches Err(crate::error::Error::Url(_)),
                Some(_) => r matches Ok(t) && t.text@ == without_fragment(v) && t.scheme
                    == scheme_of(v.0),
            },
        },
{
    let parts = match parse_url(raw) {
        Ok(p) => p,
        Err(e) => {
            return Err(crate::error::Error::Url(joined("Invalid URL: ", e.as_str())));
        },
    };
    if parts.host.is_none() {
        return Err(crate::error::Error::Url("Invalid host".to_owned()));
    }
    let text = match &parts.fragment {
        None => parts.serialization.clone(),
        Some(f) => {
            let n = parts.serialization.as_str().unicode_len();
            let k = f.as_str().unicode_len();
            prefix_until(parts.serialization.as_str(), n - k - 1)
        },
    };
    let scheme = if same_text(parts.scheme.as_str(), "http") {
        Scheme::Http
    } else if same_text(parts.scheme.as_str(), "https") {
        Scheme::Https
    } else {
        Scheme::Other
    };
    Ok(Target { text, scheme })
}

} // verus!
