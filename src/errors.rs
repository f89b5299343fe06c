use crate::address::IpType;
use crate::text::{decimal, decimal_of};
use vstd::prelude::*;

verus! {

/// Failures of the HTTP client, carried unread so that callers can report
/// their chain of causes.
#[verifier::external_type_specification]
#[verifier::external_body]
pub struct ExHttpError(reqwest::Error);

/// Failures of the DNS client, carried unread for the same purpose.
#[verifier::external_type_specification]
#[verifier::external_body]
pub struct ExResolveError(hickory_resolver::ResolveError);

/// Why a DNS lookup produced no usable address.
#[derive(Debug)]
pub enum DnsErrorKind {
    /// The query itself failed (not found, network error, timeout).
    DnsResolve(Box<hickory_resolver::ResolveError>),
    /// The query answered with this many addresses instead of exactly one.
    UnexpectedResponse(usize),
}

#[derive(Debug)]
pub struct DnsError {
    pub kind: DnsErrorKind,
}

pub open spec fn dns_error_text(kind: DnsErrorKind) -> Seq<char> {
    match kind {
        DnsErrorKind::DnsResolve(_) => "could not resolve via dns"@,
        DnsErrorKind::UnexpectedResponse(n) => "unexpected number of results: "@ + decimal_of(
            n as nat,
        ),
    }
}

impl DnsError {
    /// A one-line account of the failure, without its cause.
    pub fn description(&self) -> (r: String)
        ensures
            r@ == dns_error_text(self.kind),
    {
        match &self.kind {
            DnsErrorKind::DnsResolve(_) => String::from_str("could not resolve via dns"),
            DnsErrorKind::UnexpectedResponse(n) => {
                String::from_str("unexpected number of results: ").concat(decimal(*n).as_str())
            },
        }
    }
}

/// The cause beneath an error of this library.
#[derive(Debug)]
pub enum ErrorSource {
    Http(reqwest::Error),
    Dns(DnsError),
}

/// What went wrong, in the library's own terms.
#[derive(Debug)]
pub enum DnessErrorKind {
    /// The request could not be formed or sent.
    SendHttp { url: String, context: String },
    /// The provider answered with a status that is not a success.
    BadResponse { url: String, context: String },
    /// The provider's answer could not be read.
    Deserialize { url: String, context: String },
    /// Any other failure, described in words.
    Message(String),
    /// A DNS lookup failed.
    Dns,
    /// The provider cannot publish an address of this family.
    UnsupportedAddressFamily { provider: String, ip_type: IpType },
    /// The provider answered with a success status but a body that reports failure.
    Rejected { body: String },
}

/// The abstract content of a `DnessErrorKind`.
pub enum ErrorKindView {
    SendHttp { url: Seq<char>, context: Seq<char> },
    BadResponse { url: Seq<char>, context: Seq<char> },
    Deserialize { url: Seq<char>, context: Seq<char> },
    Message(Seq<char>),
    Dns,
    UnsupportedAddressFamily { provider: Seq<char>, ip_type: IpType },
    Rejected { body: Seq<char> },
}

impl View for DnessErrorKind {
    type V = ErrorKindView;

    open spec fn view(&self) -> ErrorKindView {
        match self {
            DnessErrorKind::SendHttp { url, context } => ErrorKindView::SendHttp {
                url: url@,
                context: context@,
            },
            DnessErrorKind::BadResponse { url, context } => ErrorKindView::BadResponse {
                url: url@,
                context: context@,
            },
            DnessErrorKind::Deserialize { url, context } => ErrorKindView::Deserialize {
                url: url@,
                context: context@,
            },
            DnessErrorKind::Message(m) => ErrorKindView::Message(m@),
            DnessErrorKind::Dns => ErrorKindView::Dns,
            DnessErrorKind::UnsupportedAddressFamily { provider, ip_type } => {
                ErrorKindView::UnsupportedAddressFamily { provider: provider@, ip_type: *ip_type }
            },
            DnessErrorKind::Rejected { body } => ErrorKindView::Rejected { body: body@ },
        }
    }
}

pub open spec fn family_name(t: IpType) -> Seq<char> {
    match t {
        IpType::V4 => "IPv4"@,
        IpType::V6 => "IPv6"@,
    }
}

/// The one-line account of each kind of failure.
pub open spec fn kind_text(k: ErrorKindView) -> Seq<char> {
    match k {
        ErrorKindView::SendHttp { url, context } => "unable to send http request for "@ + context
            + ": url attempted: "@ + url,
        ErrorKindView::BadResponse { url, context } => "received bad http response for "@ + context
            + ": url attempted: "@ + url,
        ErrorKindView::Deserialize { url, context } => "unable to deserialize response for "@
            + context + ": url attempted: "@ + url,
        ErrorKindView::Message(m) => m,
        ErrorKindView::Dns => "dns lookup"@,
        ErrorKindView::UnsupportedAddressFamily { provider, ip_type } => family_name(ip_type)
            + " not supported for "@ + provider,
        ErrorKindView::Rejected { body } => "expected zero errors, but received: "@ + body,
    }
}

fn family_text(t: IpType) -> (r: &'static str)
    ensures
        r@ == family_name(t),
{
    match t {
        IpType::V4 => "IPv4",
        IpType::V6 => "IPv6",
    }
}

fn located(prefix: &str, context: &String, url: &String) -> (r: String)
    ensures
        r@ == prefix@ + context@ + ": url attempted: "@ + url@,
{
    String::from_str(prefix).concat(context.as_str()).concat(": url attempted: ").concat(
        url.as_str(),
    )
}

impl DnessErrorKind {
    /// A one-line account of the failure.
    pub fn description(&self) -> (r: String)
        ensures
            r@ == kind_text(self@),
    {
        match self {
            DnessErrorKind::SendHttp { url, context } => located(
                "unable to send http request for ",
                context,
                url,
            ),
            DnessErrorKind::BadResponse { url, context } => located(
                "received bad http response for ",
                context,
                url,
            ),
            DnessErrorKind::Deserialize { url, context } => located(
                "unable to deserialize response for ",
                context,
                url,
            ),
            DnessErrorKind::Message(m) => m.clone(),
            DnessErrorKind::Dns => String::from_str("dns lookup"),
            DnessErrorKind::UnsupportedAddressFamily { provider, ip_type } => {
                String::from_str(family_text(*ip_type)).concat(" not supported for ").concat(
                    provider.as_str(),
                )
            },
            DnessErrorKind::Rejected { body } => String::from_str(
                "expected zero errors, but received: ",
            ).concat(body.as_str()),
        }
    }
}

/// An error of this library: what went wrong, and the failure beneath it, if any.
#[derive(Debug)]
pub struct DnessError {
    kind: DnessErrorKind,
    source: Option<ErrorSource>,
}

impl DnessError {
    pub closed spec fn spec_kind(&self) -> DnessErrorKind {
        self.kind
    }

    pub closed spec fn spec_source(&self) -> Option<ErrorSource> {
        self.source
    }

    /// The request to `url`, made for `context`, could not be sent.
    pub fn send_http(url: &str, context: &str, source: reqwest::Error) -> (r: DnessError)
        ensures
            r.spec_kind()@ == (ErrorKindView::SendHttp { url: url@, context: context@ }),
            r.spec_source() == Some(ErrorSource::Http(source)),
    {
        DnessError {
            kind: DnessErrorKind::SendHttp {
                url: String::from_str(url),
                context: String::from_str(context),
            },
            source: Some(ErrorSource::Http(source)),
        }
    }

    /// The request to `url`, made for `context`, was answered with a failure status.
    pub fn bad_response(url: &str, context: &str, source: reqwest::Error) -> (r: DnessError)
        ensures
            r.spec_kind()@ == (ErrorKindView::BadResponse { url: url@, context: context@ }),
            r.spec_source() == Some(ErrorSource::Http(source)),
    {
        DnessError {
            kind: DnessErrorKind::BadResponse {
                url: String::from_str(url),
                context: String::from_str(context),
            },
            source: Some(ErrorSource::Http(source)),
        }
    }

    /// The answer to the request to `url`, made for `context`, could not be read.
    pub fn deserialize(url: &str, context: &str, source: reqwest::Error) -> (r: DnessError)
        ensures
            r.spec_kind()@ == (ErrorKindView::Deserialize { url: url@, context: context@ }),
            r.spec_source() == Some(ErrorSource::Http(source)),
    {
        DnessError {
            kind: DnessErrorKind::Deserialize {
                url: String::from_str(url),
                context: String::from_str(context),
            },
            source: Some(ErrorSource::Http(source)),
        }
    }

    /// A failure described by `msg` alone.
    pub fn message(msg: String) -> (r: DnessError)
        ensures
            r.spec_kind()@ == ErrorKindView::Message(msg@),
            r.spec_source() is None,
    {
        DnessError { kind: DnessErrorKind::Message(msg), source: None }
    }

    /// A failed DNS lookup.
    pub fn dns(source: DnsError) -> (r: DnessError)
        ensures
            r.spec_kind()@ == ErrorKindView::Dns,
            r.spec_source() == Some(ErrorSource::Dns(source)),
    {
        DnessError { kind: DnessErrorKind::Dns, source: Some(ErrorSource::Dns(source)) }
    }

    /// `provider` cannot publish an address of family `ip_type`.
    pub fn unsupported_family(provider: &str, ip_type: IpType) -> (r: DnessError)
        ensures
            r.spec_kind()@ == (ErrorKindView::UnsupportedAddressFamily {
                provider: provider@,
                ip_type,
            }),
            r.spec_source() is None,
    {
        DnessError {
            kind: DnessErrorKind::UnsupportedAddressFamily {
                provider: String::from_str(provider),
                ip_type,
            },
            source: None,
        }
    }

    /// The provider answered with a success status and this `body`, which reports failure.
    pub fn rejected(body: String) -> (r: DnessError)
        ensures
            r.spec_kind()@ == (ErrorKindView::Rejected { body: body@ }),
            r.spec_source() is None,
    {
        DnessError { kind: DnessErrorKind::Rejected { body }, source: None }
    }

    pub fn kind(&self) -> (r: &DnessErrorKind)
        ensures
            *r == self.spec_kind(),
    {
        &self.kind
    }

    pub fn source(&self) -> (r: &Option<ErrorSource>)
        ensures
            *r == self.spec_source(),
    {
        &self.source
    }

    /// A one-line account of the failure, without its cause.
    pub fn description(&self) -> (r: String)
        ensures
            r@ == kind_text(self.spec_kind()@),
    {
        self.kind.description()
    }
}

} // verus!
