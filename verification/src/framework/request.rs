//! The request that a client hands to its transport.

use crate::framework::headers::Header;
use crate::framework::url::Url;
use crate::framework::IpAddress;
use std::time::Duration;
use vstd::prelude::*;

verus! {

/// The verb of an HTTP request.
#[derive(Clone, Copy, Debug, PartialEq, Eq, Structural)]
pub enum Method {
    Get,
    Head,
    Post,
    Put,
    Delete,
    Connect,
    Options,
    Trace,
    Patch,
}

impl Method {
    /// The verb as HTTP writes it.
    pub open spec fn name(self) -> Seq<char> {
        match self {
            Method::Get => "GET"@,
            Method::Head => "HEAD"@,
            Method::Post => "POST"@,
            Method::Put => "PUT"@,
            Method::Delete => "DELETE"@,
            Method::Connect => "CONNECT"@,
            Method::Options => "OPTIONS"@,
            Method::Trace => "TRACE"@,
            Method::Patch => "PATCH"@,
        }
    }

    /// Returns the verb as HTTP writes it.
    pub fn as_str(&self) -> (name: &'static str)
        ensures
            name@ == self.name(),
    {
        match self {
            Method::Get => "GET",
            Method::Head => "HEAD",
            Method::Post => "POST",
            Method::Put => "PUT",
            Method::Delete => "DELETE",
            Method::Connect => "CONNECT",
            Method::Options => "OPTIONS",
            Method::Trace => "TRACE",
            Method::Patch => "PATCH",
        }
    }
}

/// A request, ready to be sent: where it goes, what it carries, and how
/// long the transport may take over it. A request has no printed form,
/// since its headers may hold a secret.
pub struct Request {
    pub method: Method,
    pub url: Url,
    /// The headers, in the order in which they are to be written.
    pub headers: Vec<Header>,
    /// The body as JSON text, where the request has one.
    pub body: Option<String>,
    /// The time after which the transport gives the call up.
    pub timeout: Duration,
    /// The address that the transport connects to in place of a looked-up one.
    pub resolve_ip: Option<IpAddress>,
}

/// The mathematical value of a [`Request`].
pub struct RequestView {
    pub method: Method,
    pub url: Seq<char>,
    pub headers: Seq<(Seq<char>, Seq<u8>)>,
    pub body: Option<Seq<char>>,
    pub timeout: Duration,
    pub resolve_ip: Option<IpAddress>,
}

impl View for Request {
    type V = RequestView;

    open spec fn view(&self) -> RequestView {
        RequestView {
            method: self.method,
            url: self.url@,
            headers: self.headers.deep_view(),
            body: match self.body {
                Some(text) => Some(text@),
                None => None,
            },
            timeout: self.timeout,
            resolve_ip: self.resolve_ip,
        }
    }
}

} // verus!
