use crate::address::IpType;
use vstd::prelude::*;

verus! {

/// Dynu: updates one host, or an alias under it, per request.
#[derive(Clone, Debug)]
pub struct DynuConfig {
    pub base_url: String,
    pub hostname: String,
    pub username: String,
    pub password: String,
    pub records: Vec<String>,
    pub ip_types: Vec<IpType>,
}

/// Hurricane Electric: each record has its own dynamic DNS key.
#[derive(Clone, Debug)]
pub struct HeConfig {
    pub base_url: String,
    pub hostname: String,
    pub password: String,
    pub records: Vec<String>,
    pub ip_types: Vec<IpType>,
}

/// Namecheap: IPv4 only, one password per domain.
#[derive(Clone, Debug)]
pub struct NamecheapConfig {
    pub base_url: String,
    pub domain: String,
    pub ddns_password: String,
    pub records: Vec<String>,
}

/// No-IP: a single managed host.
#[derive(Clone, Debug)]
pub struct NoIpConfig {
    pub base_url: String,
    pub hostname: String,
    pub username: String,
    pub password: String,
    pub ip_types: Vec<IpType>,
}

/// One managed domain, tagged with its provider.
#[derive(Clone, Debug)]
pub enum DomainConfig {
    Dynu(DynuConfig),
    He(HeConfig),
    Namecheap(NamecheapConfig),
    NoIp(NoIpConfig),
}

} // verus!
