//! HTTP transport for a JSON-RPC client: target validation, backend
//! selection, the fixed header set, size limits and the bounded redirect
//! policy, each stated as a contract and proved.

pub mod client;
pub mod error;
pub mod headers;
pub mod redirect;
pub mod target;
mod text;

pub use client::{Backend, CertificateStore, HttpTransportClient, TlsSupport};
pub use error::{Error, ErrorKind, ReadError};
pub use headers::HeaderSet;
pub use redirect::{Action, Location, Outcome, RedirectCursor};
pub use target::Scheme;
