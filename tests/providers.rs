use dness::address::{IpAddress, IpType};
use dness::config::{DomainConfig, DynuConfig, HeConfig, NamecheapConfig, NoIpConfig};
use dness::providers::dynu::DynuProvider;
use dness::providers::he::HeProvider;
use dness::providers::namecheap::NamecheapProvider;
use dness::providers::noip::NoIpProvider;
use dness::request::{FieldValue, Method, UpdateRequest};

fn pairs(fields: &[dness::request::Field]) -> Vec<(String, String)> {
    fields
        .iter()
        .map(|f| {
            let v = match &f.value {
                FieldValue::Text(t) => t.clone(),
                FieldValue::Address(IpAddress::V4(a)) => format!("v4:{a:08x}"),
                FieldValue::Address(IpAddress::V6(a)) => format!("v6:{a:032x}"),
            };
            (f.name.clone(), v)
        })
        .collect()
}

fn p(name: &str, value: &str) -> (String, String) {
    (String::from(name), String::from(value))
}

fn dynu_config() -> DynuConfig {
    DynuConfig {
        base_url: String::from("https://api.dynu.com//"),
        hostname: String::from("example.com"),
        username: String::from("me"),
        password: String::from("pw"),
        records: vec![String::from("@"), String::from("d")],
        ip_types: vec![IpType::V4, IpType::V6],
    }
}

#[test]
fn dynu_endpoint_drops_trailing_slashes() {
    let c = dynu_config();
    let provider = c.create_provider();
    assert_eq!(provider.url(), "https://api.dynu.com/nic/update");
    assert_eq!(DynuProvider::name(), "dynu");
}

#[test]
fn dynu_request_for_apex_v4() {
    let c = dynu_config();
    let req: UpdateRequest = c.create_provider().create_request("@", IpAddress::V4(0x0202_0202)).unwrap();
    assert_eq!(req.method, Method::Get);
    assert!(!req.http10);
    assert!(req.form.is_empty());
    assert_eq!(
        pairs(&req.query),
        vec![p("hostname", "example.com"), p("myip", "v4:02020202"), p("myipv6", "no")]
    );
    let auth = req.basic_auth.unwrap();
    assert_eq!((auth.username.as_str(), auth.password.as_str()), ("me", "pw"));
}

#[test]
fn dynu_request_for_alias_v6() {
    let c = dynu_config();
    let req = c.create_provider().create_request("d", IpAddress::V6(1)).unwrap();
    assert_eq!(
        pairs(&req.query),
        vec![
            p("hostname", "example.com"),
            p("myip", "no"),
            p("myipv6", "v6:00000000000000000000000000000001"),
            p("alias", "d"),
        ]
    );
}

#[test]
fn he_request_is_a_form_post_over_http10() {
    let c = HeConfig {
        base_url: String::from("https://dyn.dns.he.net/"),
        hostname: String::from("example.com"),
        password: String::from("key"),
        records: vec![String::from("@")],
        ip_types: vec![IpType::V4],
    };
    let provider = c.create_provider();
    assert_eq!(provider.host("@"), "example.com");
    assert_eq!(provider.host("www"), "www.example.com");
    let req = provider.create_request("example.com", IpAddress::V4(7)).unwrap();
    assert_eq!(req.url, "https://dyn.dns.he.net/nic/update");
    assert_eq!(req.method, Method::Post);
    assert!(req.http10);
    assert!(req.query.is_empty());
    assert!(req.basic_auth.is_none());
    assert_eq!(
        pairs(&req.form),
        vec![p("hostname", "example.com"), p("password", "key"), p("myip", "v4:00000007")]
    );
    assert_eq!(HeProvider::name(), "he");
}

#[test]
fn namecheap_request_and_family() {
    let c = NamecheapConfig {
        base_url: String::from("https://dynamicdns.park-your-domain.com"),
        domain: String::from("example.com"),
        ddns_password: String::from("secret"),
        records: vec![String::from("@")],
    };
    let provider = c.create_provider();
    assert_eq!(provider.url(), "https://dynamicdns.park-your-domain.com/update");
    let req = provider.create_request("@", IpAddress::V4(0x0102_0304)).unwrap();
    assert_eq!(
        pairs(&req.query),
        vec![p("host", "@"), p("domain", "example.com"), p("password", "secret"), p("ip", "v4:01020304")]
    );
    let err = provider.create_request("@", IpAddress::V6(5)).unwrap_err();
    assert_eq!(err.description(), "IPv6 not supported for namecheap");
    assert_eq!(c.hostname(), "example.com");
}

#[test]
fn noip_has_one_apex_record() {
    let c = NoIpConfig {
        base_url: String::from("https://dynupdate.no-ip.com"),
        hostname: String::from("host.example.com"),
        username: String::from("me@example.com"),
        password: String::from("my-pass"),
        ip_types: vec![IpType::V4],
    };
    assert_eq!(c.records(), vec![String::from("@")]);
    let req = c.create_provider().create_request("ignored", IpAddress::V4(9)).unwrap();
    assert_eq!(req.url, "https://dynupdate.no-ip.com/nic/update");
    assert_eq!(pairs(&req.query), vec![p("hostname", "host.example.com"), p("myip", "v4:00000009")]);
    assert_eq!(NoIpProvider::name(), "noip");
}

#[test]
fn success_grammars() {
    assert!(DynuProvider::response_ok("good 1.2.3.4"));
    assert!(DynuProvider::response_ok("nochg 1.2.3.4"));
    assert!(!DynuProvider::response_ok("badauth"));
    assert!(HeProvider::response_ok("nochg"));
    assert!(!HeProvider::response_ok("abuse"));
    assert!(NoIpProvider::response_ok("good 1.2.3.4"));
    assert!(!NoIpProvider::response_ok("nochg 1.2.3.4"));
    assert!(NamecheapProvider::response_ok("<r><ErrCount>0</ErrCount></r>"));
    assert!(!NamecheapProvider::response_ok("<r><ErrCount>1</ErrCount></r>"));
    assert!(!NamecheapProvider::response_ok(""));
}

#[test]
fn adapter_dispatch() {
    let d = DomainConfig::Dynu(dynu_config());
    let provider = d.create_provider();
    assert_eq!(provider.name(), "dynu");
    assert_eq!(provider.endpoint(), "https://api.dynu.com/nic/update");
    assert!(provider.response_indicates_success("nochg"));
    let req = provider.build_update_request("d", IpAddress::V4(1)).unwrap();
    assert_eq!(pairs(&req.query).last().unwrap(), &p("alias", "d"));
    assert_eq!(d.hostname(), "example.com");
    assert_eq!(d.records(), vec![String::from("@"), String::from("d")]);
    assert_eq!(d.get_ip_types(), vec![IpType::V4, IpType::V6]);

    let he = DomainConfig::He(HeConfig {
        base_url: String::from("https://dyn.dns.he.net"),
        hostname: String::from("example.com"),
        password: String::from("key"),
        records: vec![String::from("www")],
        ip_types: vec![IpType::V6],
    });
    let req = he.create_provider().build_update_request("www", IpAddress::V6(2)).unwrap();
    assert_eq!(pairs(&req.form)[0], p("hostname", "www.example.com"));

    let nc = DomainConfig::Namecheap(NamecheapConfig {
        base_url: String::from("https://x"),
        domain: String::from("example.com"),
        ddns_password: String::from("s"),
        records: vec![],
    });
    assert_eq!(nc.get_ip_types(), vec![IpType::V4]);
    assert!(nc.create_provider().build_update_request("@", IpAddress::V6(2)).is_err());
}
