use crate::address::IpAddress;
use crate::config::NoIpConfig;
use crate::errors::DnessError;
use crate::request::{
    add_field, address, address_field, credentials, fields_view, text, text_field, Field,
    Method, UpdateRequest, UpdateRequestView,
};
use crate::text::{contains, has_infix, trim_end, trim_trailing_slashes};
use vstd::prelude::*;

verus! {

/// Builds No-IP's update requests: a GET with basic authentication for the
/// single managed host.
#[derive(Debug)]
pub struct NoIpProvider<'a> {
    get_url: String,
    config: &'a NoIpConfig,
}

pub open spec fn noip_url(c: &NoIpConfig) -> Seq<char> {
    trim_end(c.base_url@, '/') + "/nic/update"@
}

/// The request that sets the host to `wan`.
pub open spec fn noip_request(c: &NoIpConfig, wan: IpAddress) -> UpdateRequestView {
    UpdateRequestView {
        method: Method::Get,
        url: noip_url(c),
        query: seq![text_field("hostname"@, c.hostname@), address_field("myip"@, wan)],
        form: Seq::empty(),
        basic_auth: Some((c.username@, c.password@)),
        http10: false,
    }
}

pub open spec fn noip_accepts(body: Seq<char>) -> bool {
    has_infix(body, "good"@)
}

impl<'a> NoIpProvider<'a> {
    pub closed spec fn spec_config(&self) -> &'a NoIpConfig {
        self.config
    }

    pub closed spec fn spec_url(&self) -> Seq<char> {
        self.get_url@
    }

    pub fn name() -> (r: &'static str)
        ensures
            r@ == "noip"@,
    {
        "noip"
    }

    pub fn url(&self) -> (r: &String)
        ensures
            r@ == self.spec_url(),
    {
        &self.get_url
    }

    /// The host is the only record, so `record` plays no part.
    pub fn create_request(&self, record: &str, wan: IpAddress) -> (r: Result<UpdateRequest, DnessError>)
        requires
            self.spec_url() == noip_url(self.spec_config()),
        ensures
            r matches Ok(req) && req@ == noip_request(self.spec_config(), wan),
    {
        let c = self.config;
        let mut query: Vec<Field> = Vec::new();
        add_field(&mut query, text("hostname", c.hostname.as_str()));
        add_field(&mut query, address("myip", wan));
        let req = UpdateRequest {
            method: Method::Get,
            url: self.get_url.clone(),
            query,
            form: Vec::new(),
            basic_auth: Some(credentials(c.username.as_str(), c.password.as_str())),
            http10: false,
        };
        assert(fields_view(req.form@) =~= Seq::empty());
        assert(req@.query =~= noip_request(c, wan).query);
        Ok(req)
    }

    pub fn response_ok(response: &str) -> (r: bool)
        ensures
            r == noip_accepts(response@),
    {
        contains(response, "good")
    }
}

impl NoIpConfig {
    pub fn create_provider(&self) -> (p: NoIpProvider<'_>)
        ensures
            p.spec_config() == self,
            p.spec_url() == noip_url(self),
    {
        let base_url = trim_trailing_slashes(self.base_url.as_str());
        let get_url = base_url.concat("/nic/update");
        NoIpProvider { get_url, config: self }
    }

    /// No-IP manages one host: its only record is the apex.
    pub fn records(&self) -> (r: Vec<String>)
        ensures
            r@.len() == 1,
            r@[0]@ == "@"@,
    {
        let mut r: Vec<String> = Vec::new();
        r.push(String::from_str("@"));
        r
    }

    pub fn hostname(&self) -> (r: &str)
        ensures
            r@ == self.hostname@,
    {
        self.hostname.as_str()
    }
}

} // verus!
