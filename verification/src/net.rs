//! Network dependencies: TCP and HTTP services.
//!
//! Both follow the wait protocol of [`crate::dep`]: the host performs
//! the connection or request attempts, and the meaning of each
//! attempt — retry, success, or a terminal rejection — is decided
//! here.

use vstd::prelude::*;
use vstd::string::StringExecFns;
use crate::dep::{ProbeSample, WaitError};
use crate::digits::{dec_chars_of, format_u64};

verus! {

/// A TCP service the process depends on. The probe attempts a
/// connection: reaching the service is success (optionally after a
/// warm-up pause); an unreachable service is retried until the
/// deadline.
pub struct TcpService {
    /// A tag used as an identificator of the dependency in the output.
    pub tag: String,
    /// Host part of the service address.
    pub host: String,
    /// Port of the service.
    pub port: u16,
    /// Service wait timeout, in milliseconds.
    pub timeout_ms: u64,
    /// Optional wait time after a successful connection, in
    /// milliseconds.
    pub warm_up_ms: Option<u64>,
}

/// The socket address string of a host and port.
pub open spec fn socket_addr_chars(host: Seq<char>, port: int) -> Seq<char> {
    host + ":"@ + dec_chars_of(port)
}

impl TcpService {
    /// Constructs a new TcpService.
    pub fn new(
        tag: String,
        host: String,
        port: u16,
        timeout_ms: u64,
        warm_up_ms: Option<u64>,
    ) -> (r: Self)
        ensures
            r == (TcpService { tag, host, port, timeout_ms, warm_up_ms }),
    {
        TcpService { tag, host, port, timeout_ms, warm_up_ms }
    }

    /// The `host:port` address the probe connects to.
    pub fn addr(&self) -> (r: String)
        ensures
            r@ == socket_addr_chars(self.host@, self.port as int),
    {
        let mut out: String = self.host.as_str().to_owned();
        out.append(":");
        let port = format_u64(self.port as u64);
        out.append(port.as_str());
        out
    }

    /// What one connection attempt means to the wait protocol:
    /// reaching the service is success, anything else is retried.
    pub fn classify(connected: bool) -> (s: ProbeSample)
        ensures
            s == (if connected {
                ProbeSample::Ready
            } else {
                ProbeSample::NotReady
            }),
    {
        if connected {
            ProbeSample::Ready
        } else {
            ProbeSample::NotReady
        }
    }

    /// The warm-up pause owed after a successful connection, in
    /// milliseconds.
    pub fn warm_up_delay(&self) -> (r: u64)
        ensures
            r == (match self.warm_up_ms {
                Some(w) => w,
                None => 0u64,
            }),
    {
        match self.warm_up_ms {
            Some(w) => w,
            None => 0,
        }
    }
}

/// HTTP methods a probe request may use.
#[derive(Clone, Copy, Debug, PartialEq, Eq, Structural)]
pub enum HttpMethod {
    Get,
    Head,
    Post,
    Put,
    Delete,
    Options,
    Patch,
}

#[verifier::external_type_specification]
#[verifier::external_body]
pub struct ExUri(hyper::Uri);

#[verifier::external_type_specification]
#[verifier::external_body]
pub struct ExInvalidUri(hyper::http::uri::InvalidUri);

/// Whether hyper's URI grammar accepts a string.
pub uninterp spec fn uri_ok(s: Seq<char>) -> bool;

/// Relies on hyper's `Uri` parser (`http::uri`, `TryFrom<&str>`):
/// whether a string is a well-formed URI depends on the string alone.
/// The parsed value is carried along for the host's requests.
#[verifier::external_body]
fn parse_uri(s: &str) -> (r: Result<hyper::Uri, hyper::http::uri::InvalidUri>)
    ensures
        r is Ok <==> uri_ok(s@),
{
    hyper::Uri::try_from(s)
}

/// The request URL of an HTTP service: scheme, host, port and path.
pub open spec fn http_url_chars(ssl: bool, host: Seq<char>, port: int, path: Seq<char>) -> Seq<
    char,
> {
    (if ssl {
        "https://"@
    } else {
        "http://"@
    }) + host + ":"@ + dec_chars_of(port) + path
}

/// An HTTP service the process depends on. The probe issues a
/// request: a success status is success; any other status turns the
/// dependency down for good; a connection failure is retried until
/// the deadline.
pub struct HttpService {
    /// A tag used as an identificator of the dependency in the output.
    pub tag: String,
    /// Request address, parsed at construction.
    pub addr: hyper::Uri,
    /// Whether the address uses TLS.
    pub ssl: bool,
    /// HTTP method of the probe request.
    pub method: HttpMethod,
    /// Service wait timeout, in milliseconds.
    pub timeout_ms: u64,
}

impl HttpService {
    /// The URL text of a service at `host:port` under `path`.
    pub fn format_url(host: &str, port: u16, path: &str, ssl: bool) -> (r: String)
        ensures
            r@ == http_url_chars(ssl, host@, port as int, path@),
    {
        let mut out: String = if ssl {
            "https://".to_owned()
        } else {
            "http://".to_owned()
        };
        out.append(host);
        out.append(":");
        let port_text = format_u64(port as u64);
        out.append(port_text.as_str());
        out.append(path);
        out
    }

    /// Constructs a new HttpService, rejecting an address that does
    /// not parse as a URI.
    pub fn new(
        tag: String,
        host: &str,
        port: u16,
        path: &str,
        ssl: bool,
        method: HttpMethod,
        timeout_ms: u64,
    ) -> (r: Result<Self, WaitError>)
        ensures
            r is Ok <==> uri_ok(http_url_chars(ssl, host@, port as int, path@)),
            r matches Ok(s) ==> s.tag == tag && s.ssl == ssl && s.method == method
                && s.timeout_ms == timeout_ms,
            r matches Err(e) ==> e == WaitError::InvalidTarget,
    {
        let url = Self::format_url(host, port, path, ssl);
        match parse_uri(url.as_str()) {
            Ok(addr) => Ok(HttpService { tag, addr, ssl, method, timeout_ms }),
            Err(_) => Err(WaitError::InvalidTarget),
        }
    }

    /// What one request attempt means to the wait protocol: a
    /// response with a success-class status is success; a response
    /// with any other status turns the dependency down for good; no
    /// response is retried.
    pub fn classify(response_status: Option<u16>) -> (s: ProbeSample)
        ensures
            s == (match response_status {
                Some(st) => if 200 <= st < 300 {
                    ProbeSample::Ready
                } else {
                    ProbeSample::Rejected
                },
                None => ProbeSample::NotReady,
            }),
    {
        match response_status {
            Some(st) => {
                if 200 <= st && st < 300 {
                    ProbeSample::Ready
                } else {
                    ProbeSample::Rejected
                }
            },
            None => ProbeSample::NotReady,
        }
    }
}

} // verus!
