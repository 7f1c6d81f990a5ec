//! The target of a request: the parts of a URL that the client reads.

use crate::error::{ErrorKind, Failure, HttpError};
use crate::text::{str_eq, wire};
use vstd::prelude::*;

verus! {

/// An absolute URL, taken apart.
#[derive(Clone, Debug)]
pub struct Uri {
    scheme: String,
    host: Option<String>,
    domain: Option<String>,
    port: Option<u16>,
    path: String,
    query: Option<String>,
}

/// The parts of a URL, as mathematical values.
pub struct UriView {
    pub scheme: Seq<char>,
    pub host: Option<Seq<char>>,
    /// The host, where it is a domain name and no IP address.
    pub domain: Option<Seq<char>>,
    pub port: Option<u16>,
    pub path: Seq<char>,
    pub query: Option<Seq<char>>,
}

impl UriView {
    /// What a request line names: the path, and behind a `?` the query where
    /// the URL has one.
    pub open spec fn target(self) -> Seq<u8> {
        match self.query {
            Some(query) => wire(self.path) + wire("?"@) + wire(query),
            None => wire(self.path),
        }
    }

    /// The port that a scheme stands for where the URL names none.
    pub open spec fn default_port(self) -> Option<u16> {
        if self.scheme == "http"@ {
            Some(80u16)
        } else if self.scheme == "https"@ {
            Some(443u16)
        } else {
            None
        }
    }

    /// The port to connect to: the one that the URL names, else the scheme's.
    pub open spec fn effective_port(self) -> Option<u16> {
        match self.port {
            Some(port) => Some(port),
            None => self.default_port(),
        }
    }
}

/// What `url::Url::parse` makes of a text: the parts of the URL, or nothing
/// where it rejects the text.
pub uninterp spec fn url_parsed(input: Seq<char>) -> Option<UriView>;

impl View for Uri {
    type V = UriView;

    closed spec fn view(&self) -> UriView {
        UriView {
            scheme: self.scheme@,
            host: match self.host {
                Some(host) => Some(host@),
                None => None,
            },
            domain: match self.domain {
                Some(domain) => Some(domain@),
                None => None,
            },
            port: self.port,
            path: self.path@,
            query: match self.query {
                Some(query) => Some(query@),
                None => None,
            },
        }
    }
}

/// `url::Url::parse`, and the accessors `scheme`, `host_str`, `domain`, `port`,
/// `path` and `query` of the URL that it returns. The parts are those of the parsed,
/// normalised URL; which text gives which parts is the parser's business and
/// goes by the name `url_parsed`.
#[verifier::external_body]
fn parse_url(input: &str) -> (r: Result<Uri, url::ParseError>)
    ensures
        match r {
            Ok(uri) => url_parsed(input@) == Some(uri@),
            Err(_) => url_parsed(input@) is None,
        },
{
    let url = url::Url::parse(input)?;
    Ok(Uri {
        scheme: url.scheme().to_owned(),
        host: url.host_str().map(str::to_owned),
        domain: url.domain().map(str::to_owned),
        port: url.port(),
        path: url.path().to_owned(),
        query: url.query().map(str::to_owned),
    })
}

impl Uri {
    /// Parses an absolute URL.
    pub fn parse(input: &str) -> (r: Result<Uri, HttpError>)
        ensures
            match url_parsed(input@) {
                Some(parts) => r matches Ok(uri) && uri@ == parts,
                None => r matches Err(e) && e.failure() == Failure::Uri,
            },
    {
        match parse_url(input) {
            Ok(uri) => Ok(uri),
            Err(e) => Err(HttpError::new(ErrorKind::Uri(e))),
        }
    }

    /// A URL made of the given parts.
    pub fn from_parts(
        scheme: String,
        host: Option<String>,
        domain: Option<String>,
        port: Option<u16>,
        path: String,
        query: Option<String>,
    ) -> (uri: Uri)
        ensures
            uri@ == (UriView {
                scheme: scheme@,
                host: match host {
                    Some(h) => Some(h@),
                    None => None,
                },
                domain: match domain {
                    Some(d) => Some(d@),
                    None => None,
                },
                port: port,
                path: path@,
                query: match query {
                    Some(q) => Some(q@),
                    None => None,
                },
            }),
    {
        Uri { scheme, host, domain, port, path, query }
    }

    pub fn scheme(&self) -> (s: &str)
        ensures
            s@ == self@.scheme,
    {
        self.scheme.as_str()
    }

    pub fn host(&self) -> (h: Option<&str>)
        ensures
            match h {
                Some(s) => self@.host == Some(s@),
                None => self@.host is None,
            },
    {
        match &self.host {
            Some(host) => Some(host.as_str()),
            None => None,
        }
    }

    /// The host, where it is a domain name and no IP address.
    pub fn domain(&self) -> (d: Option<&str>)
        ensures
            match d {
                Some(s) => self@.domain == Some(s@),
                None => self@.domain is None,
            },
    {
        match &self.domain {
            Some(domain) => Some(domain.as_str()),
            None => None,
        }
    }

    pub fn port(&self) -> (p: Option<u16>)
        ensures
            p == self@.port,
    {
        self.port
    }

    pub fn path(&self) -> (s: &str)
        ensures
            s@ == self@.path,
    {
        self.path.as_str()
    }

    pub fn query(&self) -> (q: Option<&str>)
        ensures
            match q {
                Some(s) => self@.query == Some(s@),
                None => self@.query is None,
            },
    {
        match &self.query {
            Some(query) => Some(query.as_str()),
            None => None,
        }
    }

    /// The port that the scheme stands for: 80 for `http`, 443 for `https`.
    pub fn default_port(&self) -> (p: Option<u16>)
        ensures
            p == self@.default_port(),
    {
        if str_eq(self.scheme.as_str(), "http") {
            Some(80)
        } else if str_eq(self.scheme.as_str(), "https") {
            Some(443)
        } else {
            None
        }
    }

    /// The port to connect to: the one that the URL names, else the scheme's.
    pub fn port_or_default(&self) -> (p: Option<u16>)
        ensures
            p == self@.effective_port(),
    {
        match self.port {
            Some(port) => Some(port),
            None => self.default_port(),
        }
    }
}

} // verus!
