pub mod dynu;
pub mod he;
pub mod namecheap;
pub mod noip;

use crate::address::{IpAddress, IpType};
use crate::config::DomainConfig;
use crate::errors::{DnessError, ErrorKindView};
use crate::request::{UpdateRequest, UpdateRequestView};
use dynu::{dynu_accepts, dynu_request, dynu_url, DynuProvider};
use he::{he_accepts, he_host, he_request, he_url, HeProvider};
use namecheap::{namecheap_accepts, namecheap_request, namecheap_url, NamecheapProvider};
use noip::{noip_accepts, noip_request, noip_url, NoIpProvider};
use vstd::prelude::*;

verus! {

/// The views of a sequence of strings.
pub open spec fn strings_view(v: Seq<String>) -> Seq<Seq<char>> {
    v.map_values(|s: String| s@)
}

/// The provider's name, for diagnostics.
pub open spec fn provider_name(d: DomainConfig) -> Seq<char> {
    match d {
        DomainConfig::Dynu(_) => "dynu"@,
        DomainConfig::He(_) => "he"@,
        DomainConfig::Namecheap(_) => "namecheap"@,
        DomainConfig::NoIp(_) => "noip"@,
    }
}

/// The zone that the domain's records live under.
pub open spec fn domain_hostname(d: DomainConfig) -> Seq<char> {
    match d {
        DomainConfig::Dynu(c) => c.hostname@,
        DomainConfig::He(c) => c.hostname@,
        DomainConfig::Namecheap(c) => c.domain@,
        DomainConfig::NoIp(c) => c.hostname@,
    }
}

/// The domain's record names, in configured order. A provider that manages a
/// single host has the one record `@`.
pub open spec fn domain_records(d: DomainConfig) -> Seq<Seq<char>> {
    match d {
        DomainConfig::Dynu(c) => strings_view(c.records@),
        DomainConfig::He(c) => strings_view(c.records@),
        DomainConfig::Namecheap(c) => strings_view(c.records@),
        DomainConfig::NoIp(_) => seq!["@"@],
    }
}

/// The address families that the domain is kept up to date for.
pub open spec fn domain_ip_types(d: DomainConfig) -> Seq<IpType> {
    match d {
        DomainConfig::Dynu(c) => c.ip_types@,
        DomainConfig::He(c) => c.ip_types@,
        DomainConfig::Namecheap(_) => seq![IpType::V4],
        DomainConfig::NoIp(c) => c.ip_types@,
    }
}

/// Whether the provider can publish an address of family `t`.
pub open spec fn supports(d: DomainConfig, t: IpType) -> bool {
    match d {
        DomainConfig::Namecheap(_) => t == IpType::V4,
        _ => true,
    }
}

/// Where update requests go.
pub open spec fn domain_endpoint(d: DomainConfig) -> Seq<char> {
    match d {
        DomainConfig::Dynu(c) => dynu_url(&c),
        DomainConfig::He(c) => he_url(&c),
        DomainConfig::Namecheap(c) => namecheap_url(&c),
        DomainConfig::NoIp(c) => noip_url(&c),
    }
}

/// The request that sets `record` to `wan`, for a family the provider supports.
pub open spec fn domain_request(d: DomainConfig, record: Seq<char>, wan: IpAddress) -> UpdateRequestView {
    match d {
        DomainConfig::Dynu(c) => dynu_request(&c, record, wan),
        DomainConfig::He(c) => he_request(&c, he_host(&c, record), wan),
        DomainConfig::Namecheap(c) => namecheap_request(&c, record, wan),
        DomainConfig::NoIp(c) => noip_request(&c, wan),
    }
}

/// Whether a response body with a success status reports success, in the provider's terms.
pub open spec fn domain_accepts(d: DomainConfig, body: Seq<char>) -> bool {
    match d {
        DomainConfig::Dynu(_) => dynu_accepts(body),
        DomainConfig::He(_) => he_accepts(body),
        DomainConfig::Namecheap(_) => namecheap_accepts(body),
        DomainConfig::NoIp(_) => noip_accepts(body),
    }
}

/// The error that a request for an unsupported family fails with.
pub open spec fn unsupported_error(d: DomainConfig, t: IpType) -> ErrorKindView {
    ErrorKindView::UnsupportedAddressFamily { provider: provider_name(d), ip_type: t }
}

/// What building the update request of `record` for `wan` gives: the request,
/// or the error for a family the provider does not support.
pub open spec fn request_outcome(
    d: DomainConfig,
    record: Seq<char>,
    wan: IpAddress,
    r: Result<UpdateRequest, DnessError>,
) -> bool {
    if supports(d, wan.family()) {
        r matches Ok(req) && req@ == domain_request(d, record, wan)
    } else {
        r matches Err(e) && e.spec_kind()@ == unsupported_error(d, wan.family())
    }
}

/// A provider adapter bound to one domain's configuration.
#[derive(Debug)]
pub enum Provider<'a> {
    Dynu(DynuProvider<'a>),
    He(HeProvider<'a>),
    Namecheap(NamecheapProvider<'a>),
    NoIp(NoIpProvider<'a>),
}

impl<'a> Provider<'a> {
    /// The configuration this adapter is bound to.
    pub open spec fn spec_domain(&self) -> DomainConfig {
        match self {
            Provider::Dynu(p) => DomainConfig::Dynu(*p.spec_config()),
            Provider::He(p) => DomainConfig::He(*p.spec_config()),
            Provider::Namecheap(p) => DomainConfig::Namecheap(*p.spec_config()),
            Provider::NoIp(p) => DomainConfig::NoIp(*p.spec_config()),
        }
    }

    /// The adapter's endpoint is the one its configuration gives.
    pub open spec fn wf(&self) -> bool {
        match self {
            Provider::Dynu(p) => p.spec_url() == dynu_url(p.spec_config()),
            Provider::He(p) => p.spec_url() == he_url(p.spec_config()),
            Provider::Namecheap(p) => p.spec_url() == namecheap_url(p.spec_config()),
            Provider::NoIp(p) => p.spec_url() == noip_url(p.spec_config()),
        }
    }

    pub fn name(&self) -> (r: &'static str)
        ensures
            r@ == provider_name(self.spec_domain()),
    {
        match self {
            Provider::Dynu(_) => DynuProvider::name(),
            Provider::He(_) => HeProvider::name(),
            Provider::Namecheap(_) => NamecheapProvider::name(),
            Provider::NoIp(_) => NoIpProvider::name(),
        }
    }

    /// Where update requests go: the configured base URL without trailing
    /// slashes, followed by the provider's update path.
    pub fn endpoint(&self) -> (r: &String)
        requires
            self.wf(),
        ensures
            r@ == domain_endpoint(self.spec_domain()),
    {
        match self {
            Provider::Dynu(p) => p.url(),
            Provider::He(p) => p.url(),
            Provider::Namecheap(p) => p.url(),
            Provider::NoIp(p) => p.url(),
        }
    }

    /// The request that sets `record` to `wan`. Fails, without forming any
    /// request, when the provider cannot publish an address of `wan`'s family.
    pub fn build_update_request(&self, record: &str, wan: IpAddress) -> (r: Result<UpdateRequest, DnessError>)
        requires
            self.wf(),
        ensures
            request_outcome(self.spec_domain(), record@, wan, r),
    {
        match self {
            Provider::Dynu(p) => p.create_request(record, wan),
            Provider::He(p) => {
                let host = p.host(record);
                p.create_request(host.as_str(), wan)
            },
            Provider::Namecheap(p) => p.create_request(record, wan),
            Provider::NoIp(p) => p.create_request(record, wan),
        }
    }

    /// Whether `body`, received with a success status, reports success.
    pub fn response_indicates_success(&self, body: &str) -> (r: bool)
        ensures
            r == domain_accepts(self.spec_domain(), body@),
    {
        match self {
            Provider::Dynu(_) => DynuProvider::response_ok(body),
            Provider::He(_) => HeProvider::response_ok(body),
            Provider::Namecheap(_) => NamecheapProvider::response_ok(body),
            Provider::NoIp(_) => NoIpProvider::response_ok(body),
        }
    }
}

fn clone_strings(v: &Vec<String>) -> (r: Vec<String>)
    ensures
        strings_view(r@) == strings_view(v@),
{
    let mut r: Vec<String> = Vec::new();
    let mut i: usize = 0;
    while i < v.len()
        invariant
            i <= v.len(),
            strings_view(r@) == strings_view(v@.subrange(0, i as int)),
        decreases v.len() - i,
    {
        let ghost prev = r@;
        r.push(v[i].clone());
        assert(strings_view(v@.subrange(0, i + 1)) =~= strings_view(v@.subrange(0, i as int)).push(v@[i as int]@));
        assert(strings_view(r@) =~= strings_view(prev).push(v@[i as int]@));
        i = i + 1;
    }
    assert(v@.subrange(0, v.len() as int) == v@);
    r
}

impl DomainConfig {
    /// An adapter bound to this configuration.
    pub fn create_provider(&self) -> (p: Provider<'_>)
        ensures
            p.spec_domain() == *self,
            p.wf(),
    {
        match self {
            DomainConfig::Dynu(c) => Provider::Dynu(c.create_provider()),
            DomainConfig::He(c) => Provider::He(c.create_provider()),
            DomainConfig::Namecheap(c) => Provider::Namecheap(c.create_provider()),
            DomainConfig::NoIp(c) => Provider::NoIp(c.create_provider()),
        }
    }

    pub fn hostname(&self) -> (r: &str)
        ensures
            r@ == domain_hostname(*self),
    {
        match self {
            DomainConfig::Dynu(c) => c.hostname(),
            DomainConfig::He(c) => c.hostname(),
            DomainConfig::Namecheap(c) => c.hostname(),
            DomainConfig::NoIp(c) => c.hostname(),
        }
    }

    pub fn records(&self) -> (r: Vec<String>)
        ensures
            strings_view(r@) == domain_records(*self),
    {
        match self {
            DomainConfig::Dynu(c) => clone_strings(c.records()),
            DomainConfig::He(c) => clone_strings(c.records()),
            DomainConfig::Namecheap(c) => clone_strings(c.records()),
            DomainConfig::NoIp(c) => {
                let r = c.records();
                assert(strings_view(r@) =~= seq!["@"@]);
                r
            },
        }
    }

    pub fn get_ip_types(&self) -> (r: Vec<IpType>)
        ensures
            r@ == domain_ip_types(*self),
    {
        match self {
            DomainConfig::Dynu(c) => c.ip_types.clone(),
            DomainConfig::He(c) => c.ip_types.clone(),
            DomainConfig::Namecheap(_) => vec![IpType::V4],
            DomainConfig::NoIp(c) => c.ip_types.clone(),
        }
    }
}

} // verus!
