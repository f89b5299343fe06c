use crate::address::{IpAddress, IpType};
use crate::config::NamecheapConfig;
use crate::errors::{DnessError, ErrorKindView};
use crate::request::{
    add_field, address, address_field, fields_view, text, text_field, Field, Method,
    UpdateRequest, UpdateRequestView,
};
use crate::text::{contains, has_infix, trim_end, trim_trailing_slashes};
use vstd::prelude::*;

verus! {

/// Builds Namecheap's update requests: a GET whose query carries the password.
/// Namecheap publishes IPv4 addresses only.
#[derive(Debug)]
pub struct NamecheapProvider<'a> {
    get_url: String,
    config: &'a NamecheapConfig,
}

pub open spec fn namecheap_url(c: &NamecheapConfig) -> Seq<char> {
    trim_end(c.base_url@, '/') + "/update"@
}

/// The request that sets `record` to the IPv4 address `wan`.
pub open spec fn namecheap_request(c: &NamecheapConfig, record: Seq<char>, wan: IpAddress) -> UpdateRequestView {
    UpdateRequestView {
        method: Method::Get,
        url: namecheap_url(c),
        query: seq![
            text_field("host"@, record),
            text_field("domain"@, c.domain@),
            text_field("password"@, c.ddns_password@),
            address_field("ip"@, wan),
        ],
        form: Seq::empty(),
        basic_auth: None,
        http10: false,
    }
}

/// Namecheap answers with XML that counts its errors.
pub open spec fn namecheap_accepts(body: Seq<char>) -> bool {
    has_infix(body, "<ErrCount>0</ErrCount>"@)
}

impl<'a> NamecheapProvider<'a> {
    pub closed spec fn spec_config(&self) -> &'a NamecheapConfig {
        self.config
    }

    pub closed spec fn spec_url(&self) -> Seq<char> {
        self.get_url@
    }

    pub fn name() -> (r: &'static str)
        ensures
            r@ == "namecheap"@,
    {
        "namecheap"
    }

    pub fn url(&self) -> (r: &String)
        ensures
            r@ == self.spec_url(),
    {
        &self.get_url
    }

    pub fn create_request(&self, record: &str, wan: IpAddress) -> (r: Result<UpdateRequest, DnessError>)
        requires
            self.spec_url() == namecheap_url(self.spec_config()),
        ensures
            wan is V4 ==> (r matches Ok(req) && req@ == namecheap_request(
                self.spec_config(),
                record@,
                wan,
            )),
            wan is V6 ==> (r matches Err(e) && e.spec_kind()@ == (
            ErrorKindView::UnsupportedAddressFamily { provider: "namecheap"@, ip_type: IpType::V6 })),
    {
        if let IpAddress::V6(_) = wan {
            return Err(DnessError::unsupported_family(NamecheapProvider::name(), IpType::V6));
        }
        let c = self.config;
        let mut query: Vec<Field> = Vec::new();
        add_field(&mut query, text("host", record));
        add_field(&mut query, text("domain", c.domain.as_str()));
        add_field(&mut query, text("password", c.ddns_password.as_str()));
        add_field(&mut query, address("ip", wan));
        let req = UpdateRequest {
            method: Method::Get,
            url: self.get_url.clone(),
            query,
            form: Vec::new(),
            basic_auth: None,
            http10: false,
        };
        assert(fields_view(req.form@) =~= Seq::empty());
        assert(req@.query =~= namecheap_request(c, record@, wan).query);
        Ok(req)
    }

    pub fn response_ok(response: &str) -> (r: bool)
        ensures
            r == namecheap_accepts(response@),
    {
        contains(response, "<ErrCount>0</ErrCount>")
    }
}

impl NamecheapConfig {
    pub fn create_provider(&self) -> (p: NamecheapProvider<'_>)
        ensures
            p.spec_config() == self,
            p.spec_url() == namecheap_url(self),
    {
        let base_url = trim_trailing_slashes(self.base_url.as_str());
        let get_url = base_url.concat("/update");
        NamecheapProvider { get_url, config: self }
    }

    pub fn records(&self) -> (r: &Vec<String>)
        ensures
            r == &self.records,
    {
        &self.records
    }

    /// The zone; Namecheap calls it the domain.
    pub fn hostname(&self) -> (r: &str)
        ensures
            r@ == self.domain@,
    {
        self.domain.as_str()
    }
}

} // verus!
