//! The transport client: its configuration, chosen once at construction.
use vstd::prelude::*;

use crate::error::Error;
use crate::headers::{cached_headers, headers_view, HeaderSet};
use crate::target::{parse_target, parsed_url, scheme_of, without_fragment, Scheme};

verus! {

/// Which trust anchors a TLS backend checks certificates against.
#[derive(Debug, Clone, Copy, PartialEq, Eq, Structural)]
pub enum CertificateStore {
    /// The operating system's certificate store.
    Native,
    /// The bundled WebPKI roots.
    WebPki,
}

/// Which trust-anchor sets this build of the transport can use.
#[derive(Debug, Clone, Copy, PartialEq, Eq, Structural)]
pub struct TlsSupport {
    /// The operating system's certificate store is available.
    pub native_roots: bool,
    /// The bundled WebPKI roots are available.
    pub webpki_roots: bool,
}

impl TlsSupport {
    /// Whether `https` targets can be served at all.
    pub open spec fn any(self) -> bool {
        self.native_roots || self.webpki_roots
    }

    /// Whether `store` is available.
    pub open spec fn has(self, store: CertificateStore) -> bool {
        match store {
            CertificateStore::Native => self.native_roots,
            CertificateStore::WebPki => self.webpki_roots,
        }
    }

    /// Both trust-anchor sets available.
    pub fn full() -> (r: TlsSupport)
        ensures
            r.native_roots && r.webpki_roots,
    {
        TlsSupport { native_roots: true, webpki_roots: true }
    }

    /// No TLS at all: only `http` targets.
    pub fn none() -> (r: TlsSupport)
        ensures
            !r.native_roots && !r.webpki_roots,
    {
        TlsSupport { native_roots: false, webpki_roots: false }
    }
}

/// The connection backend that requests are executed over.
#[derive(Debug, Clone, Copy, PartialEq, Eq, Structural)]
pub enum Backend {
    /// Unencrypted connections.
    Plain,
    /// TLS connections, checked against the given trust anchors.
    Tls(CertificateStore),
}

/// The backend for a target of scheme `scheme`, or `None` where that scheme
/// is refused as a URL error, or `Some(None)` where the store is unavailable.
pub open spec fn backend_for(
    scheme: Scheme,
    store: CertificateStore,
    tls: TlsSupport,
) -> Option<Option<Backend>> {
    match scheme {
        Scheme::Http => Some(Some(Backend::Plain)),
        Scheme::Https => if !tls.any() {
            None
        } else if tls.has(store) {
            Some(Some(Backend::Tls(store)))
        } else {
            Some(None)
        },
        Scheme::Other => None,
    }
}

/// Chooses the backend for a target of scheme `scheme`.
pub fn select_backend(scheme: Scheme, store: CertificateStore, tls: TlsSupport) -> (r: Result<
    Backend,
    Error,
>)
    ensures
        match backend_for(scheme, store, tls) {
            None => r matches Err(Error::Url(_)),
            Some(None) => r matches Err(Error::InvalidCertficateStore),
            Some(Some(b)) => r == Ok::<Backend, Error>(b),
        },
{
    match scheme {
        Scheme::Http => Ok(Backend::Plain),
        Scheme::Https => {
            if !tls.native_roots && !tls.webpki_roots {
                return Err(Error::Url("URL scheme not supported, expects 'http'".to_owned()));
            }
            let available = match store {
                CertificateStore::Native => tls.native_roots,
                CertificateStore::WebPki => tls.webpki_roots,
            };
            if available {
                Ok(Backend::Tls(store))
            } else {
                Err(Error::InvalidCertficateStore)
            }
        },
        Scheme::Other => {
            if tls.native_roots || tls.webpki_roots {
                Err(Error::Url("URL scheme not supported, expects 'http' or 'https'".to_owned()))
            } else {
                Err(Error::Url("URL scheme not supported, expects 'http'".to_owned()))
            }
        },
    }
}

/// HTTP transport client: the canonical target, the request pipeline built
/// over the chosen backend, the limits and the cached headers.
#[derive(Debug, Clone)]
pub struct HttpTransportClient<S> {
    /// Target to connect to, in canonical form.
    pub target: String,
    /// The request pipeline.
    pub client: S,
    /// The backend that the pipeline was built over.
    pub backend: Backend,
    /// Largest request body accepted, in bytes.
    pub max_request_size: u32,
    /// Largest response body accepted, in bytes.
    pub max_response_size: u32,
    /// Longest logged body; longer ones are truncated.
    pub max_log_length: u32,
    /// Headers sent with every request.
    pub headers: HeaderSet,
    /// Replace `https` with `http` in the target and in every redirect.
    pub http_only: bool,
}

impl<S> HttpTransportClient<S> {
    /// Validates `target`, picks the backend for its scheme, wraps it with
    /// `service_builder` and caches the request headers.
    pub fn new<F: FnOnce(Backend) -> S>(
        max_request_size: u32,
        target: &str,
        max_response_size: u32,
        cert_store: CertificateStore,
        max_log_length: u32,
        headers: Vec<(String, String)>,
        service_builder: F,
        http_only: bool,
        tls: TlsSupport,
    ) -> (r: Result<Self, Error>)
        requires
            forall|b: Backend| service_builder.requires((b,)),
        ensures
            parsed_url(target@) matches Some(v) && scheme_of(v.0) == Scheme::Other ==> r matches Err(
                Error::Url(_),
            ),
            parsed_url(target@) matches Some(v) && v.1 is None ==> r matches Err(Error::Url(_)),
            match parsed_url(target@) {
                None => r matches Err(Error::Url(_)),
                Some(v) => match v.1 {
                    None => r matches Err(Error::Url(_)),
                    Some(_) => match backend_for(scheme_of(v.0), cert_store, tls) {
                        None => r matches Err(Error::Url(_)),
                        Some(None) => r matches Err(Error::InvalidCertficateStore),
                        Some(Some(b)) => r matches Ok(c) && c.target@ == without_fragment(v)
                            && c.backend == b && service_builder.ensures((b,), c.client)
                            && c.max_request_size == max_request_size && c.max_response_size
                            == max_response_size && c.max_log_length == max_log_length
                            && c.headers@ == cached_headers(headers_view(headers@))
                            && c.headers.wf() && c.http_only == http_only,
                    },
                },
            },
    {
        let t = parse_target(target)?;
        let backend = select_backend(t.scheme, cert_store, tls)?;
        let cached = HeaderSet::cached(&headers);
        let client = service_builder(backend);
        Ok(HttpTransportClient {
            target: t.text,
            client,
            backend,
            max_request_size,
            max_response_size,
            max_log_length,
            headers: cached,
            http_only,
        })
    }
}

} // verus!
