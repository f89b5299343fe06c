use crate::address::IpAddress;
use crate::config::DynuConfig;
use crate::errors::DnessError;
use crate::request::{
    Field,
    add_field, address, address_field, credentials, fields_view, text, text_field, Method,
    UpdateRequest, UpdateRequestView,
};
use crate::text::{contains, has_infix, is_apex, trim_end, trim_trailing_slashes};
use vstd::prelude::*;

verus! {

/// Builds Dynu's update requests: a GET with basic authentication.
#[derive(Debug)]
pub struct DynuProvider<'a> {
    get_url: String,
    config: &'a DynuConfig,
}

pub open spec fn dynu_url(c: &DynuConfig) -> Seq<char> {
    trim_end(c.base_url@, '/') + "/nic/update"@
}

/// The address fields: the address under the name of its family, `no` under the other.
pub open spec fn dynu_address_fields(wan: IpAddress) -> Seq<crate::request::FieldView> {
    match wan {
        IpAddress::V4(_) => seq![address_field("myip"@, wan), text_field("myipv6"@, "no"@)],
        IpAddress::V6(_) => seq![text_field("myip"@, "no"@), address_field("myipv6"@, wan)],
    }
}

/// The request that sets `record` (the host itself for `@`, else an alias) to `wan`.
pub open spec fn dynu_request(c: &DynuConfig, record: Seq<char>, wan: IpAddress) -> UpdateRequestView {
    UpdateRequestView {
        method: Method::Get,
        url: dynu_url(c),
        query: seq![text_field("hostname"@, c.hostname@)] + dynu_address_fields(wan) + if record
            == "@"@ {
            Seq::empty()
        } else {
            seq![text_field("alias"@, record)]
        },
        form: Seq::empty(),
        basic_auth: Some((c.username@, c.password@)),
        http10: false,
    }
}

/// Dynu reports success with `good`, or `nochg` when the address was already set.
pub open spec fn dynu_accepts(body: Seq<char>) -> bool {
    has_infix(body, "nochg"@) || has_infix(body, "good"@)
}

impl<'a> DynuProvider<'a> {
    pub closed spec fn spec_config(&self) -> &'a DynuConfig {
        self.config
    }

    pub closed spec fn spec_url(&self) -> Seq<char> {
        self.get_url@
    }

    pub fn name() -> (r: &'static str)
        ensures
            r@ == "dynu"@,
    {
        "dynu"
    }

    pub fn url(&self) -> (r: &String)
        ensures
            r@ == self.spec_url(),
    {
        &self.get_url
    }

    pub fn create_request(&self, record: &str, wan: IpAddress) -> (r: Result<UpdateRequest, DnessError>)
        requires
            self.spec_url() == dynu_url(self.spec_config()),
        ensures
            r matches Ok(req) && req@ == dynu_request(self.spec_config(), record@, wan),
    {
        let c = self.config;
        let mut query: Vec<Field> = Vec::new();
        add_field(&mut query, text("hostname", c.hostname.as_str()));
        match wan {
            IpAddress::V4(_) => {
                add_field(&mut query, address("myip", wan));
                add_field(&mut query, text("myipv6", "no"));
            },
            IpAddress::V6(_) => {
                add_field(&mut query, text("myip", "no"));
                add_field(&mut query, address("myipv6", wan));
            },
        }
        if !is_apex(record) {
            add_field(&mut query, text("alias", record));
        }
        let req = UpdateRequest {
            method: Method::Get,
            url: self.get_url.clone(),
            query,
            form: Vec::new(),
            basic_auth: Some(credentials(c.username.as_str(), c.password.as_str())),
            http10: false,
        };
        assert(fields_view(req.form@) =~= Seq::empty());
        assert(req@.query =~= dynu_request(c, record@, wan).query);
        Ok(req)
    }

    pub fn response_ok(response: &str) -> (r: bool)
        ensures
            r == dynu_accepts(response@),
    {
        contains(response, "nochg") || contains(response, "good")
    }
}

impl DynuConfig {
    pub fn create_provider(&self) -> (p: DynuProvider<'_>)
        ensures
            p.spec_config() == self,
            p.spec_url() == dynu_url(self),
    {
        let base_url = trim_trailing_slashes(self.base_url.as_str());
        let get_url = base_url.concat("/nic/update");
        DynuProvider { get_url, config: self }
    }

    pub fn records(&self) -> (r: &Vec<String>)
        ensures
            r == &self.records,
    {
        &self.records
    }

    pub fn hostname(&self) -> (r: &str)
        ensures
            r@ == self.hostname@,
    {
        self.hostname.as_str()
    }
}

} // verus!
