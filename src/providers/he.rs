use crate::address::IpAddress;
use crate::config::HeConfig;
use crate::errors::DnessError;
use crate::request::{
    add_field, address, address_field, fields_view, text, text_field, Field, Method,
    UpdateRequest, UpdateRequestView,
};
use crate::text::{contains, has_infix, is_apex, trim_end, trim_trailing_slashes};
use vstd::prelude::*;

verus! {

/// Builds Hurricane Electric's update requests: a form POST over HTTP/1.0.
///
/// The service closes the connection without announcing it, so the request
/// asks for HTTP/1.0, under which no connection is kept for reuse.
#[derive(Debug)]
pub struct HeProvider<'a> {
    post_url: String,
    config: &'a HeConfig,
}

pub open spec fn he_url(c: &HeConfig) -> Seq<char> {
    trim_end(c.base_url@, '/') + "/nic/update"@
}

/// The full host name of `record`: the zone itself for `@`.
pub open spec fn he_host(c: &HeConfig, record: Seq<char>) -> Seq<char> {
    if record == "@"@ {
        c.hostname@
    } else {
        record + "."@ + c.hostname@
    }
}

/// The request that sets `host` to `wan`.
pub open spec fn he_request(c: &HeConfig, host: Seq<char>, wan: IpAddress) -> UpdateRequestView {
    UpdateRequestView {
        method: Method::Post,
        url: he_url(c),
        query: Seq::empty(),
        form: seq![
            text_field("hostname"@, host),
            text_field("password"@, c.password@),
            address_field("myip"@, wan),
        ],
        basic_auth: None,
        http10: true,
    }
}

/// The service reports success with `good`, or `nochg` when the address was already set.
pub open spec fn he_accepts(body: Seq<char>) -> bool {
    has_infix(body, "good"@) || has_infix(body, "nochg"@)
}

impl<'a> HeProvider<'a> {
    pub closed spec fn spec_config(&self) -> &'a HeConfig {
        self.config
    }

    pub closed spec fn spec_url(&self) -> Seq<char> {
        self.post_url@
    }

    pub fn name() -> (r: &'static str)
        ensures
            r@ == "he"@,
    {
        "he"
    }

    pub fn url(&self) -> (r: &String)
        ensures
            r@ == self.spec_url(),
    {
        &self.post_url
    }

    /// The full host name that the service knows `record` by.
    pub fn host(&self, record: &str) -> (r: String)
        ensures
            r@ == he_host(self.spec_config(), record@),
    {
        if is_apex(record) {
            self.config.hostname.clone()
        } else {
            String::from_str(record).concat(".").concat(self.config.hostname.as_str())
        }
    }

    pub fn create_request(&self, host: &str, wan: IpAddress) -> (r: Result<UpdateRequest, DnessError>)
        requires
            self.spec_url() == he_url(self.spec_config()),
        ensures
            r matches Ok(req) && req@ == he_request(self.spec_config(), host@, wan),
    {
        let c = self.config;
        let mut form: Vec<Field> = Vec::new();
        add_field(&mut form, text("hostname", host));
        add_field(&mut form, text("password", c.password.as_str()));
        add_field(&mut form, address("myip", wan));
        let req = UpdateRequest {
            method: Method::Post,
            url: self.post_url.clone(),
            query: Vec::new(),
            form,
            basic_auth: None,
            http10: true,
        };
        assert(fields_view(req.query@) =~= Seq::empty());
        assert(req@.form =~= he_request(c, host@, wan).form);
        Ok(req)
    }

    pub fn response_ok(response: &str) -> (r: bool)
        ensures
            r == he_accepts(response@),
    {
        contains(response, "good") || contains(response, "nochg")
    }
}

impl HeConfig {
    pub fn create_provider(&self) -> (p: HeProvider<'_>)
        ensures
            p.spec_config() == self,
            p.spec_url() == he_url(self),
    {
        let base_url = trim_trailing_slashes(self.base_url.as_str());
        let post_url = base_url.concat("/nic/update");
        HeProvider { post_url, config: self }
    }

    pub fn records(&self) -> (r: &Vec<String>)
        ensures
            r == &self.records,
    {
        &self.records
    }

    pub fn hostname(&self) -> (r: &str)
        ensures
            r@ == self.hostname@,
    {
        self.hostname.as_str()
    }
}

} // verus!
