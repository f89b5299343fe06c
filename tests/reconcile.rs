use dness::address::{IpAddress, IpType};
use dness::config::{DomainConfig, DynuConfig, HeConfig, NamecheapConfig, NoIpConfig};
use dness::engine::{classify, fqdn, single_address, Exchange, Reconciler, Step, Verdict};
use dness::errors::{DnessError, DnsError, DnsErrorKind, DnessErrorKind};
use dness::request::{FieldValue, Method, UpdateRequest};
use dness::summary::Updates;

const WAN: IpAddress = IpAddress::V4(0x0202_0202); // 2.2.2.2
const OTHER: IpAddress = IpAddress::V4(0x0101_0101); // 1.1.1.1
const ROOT_D: IpAddress = IpAddress::V4(0xC707_5B0D); // 199.7.91.13

/// Runs a reconciliation, answering lookups with `dns` and requests with
/// `respond`; returns the result and every request handed out.
fn drive(
    domain: &DomainConfig,
    wan: IpAddress,
    dns: &dyn Fn(&str) -> Result<IpAddress, DnsError>,
    respond: &dyn Fn(&UpdateRequest) -> Exchange,
) -> (Result<Updates, DnessError>, Vec<UpdateRequest>, Vec<String>) {
    let (mut engine, mut step) = Reconciler::start(domain, wan);
    let mut sent = Vec::new();
    let mut asked = Vec::new();
    loop {
        step = match step {
            Step::Verify { fqdn, ip_type } => {
                assert_eq!(ip_type, wan.ip_type());
                asked.push(fqdn.clone());
                engine.on_lookup(dns(&fqdn))
            }
            Step::Send(req) => {
                let x = respond(&req);
                sent.push(req);
                engine.on_response(x)
            }
            Step::Finished(r) => return (r, sent, asked),
        }
    }
}

fn answer(a: IpAddress) -> Result<IpAddress, DnsError> {
    Ok(a)
}

fn not_found() -> Result<IpAddress, DnsError> {
    Err(DnsError { kind: DnsErrorKind::UnexpectedResponse(0) })
}

fn good(_: &UpdateRequest) -> Exchange {
    Exchange::Body(String::from("good 2.2.2.2"))
}

fn never(_: &UpdateRequest) -> Exchange {
    panic!("no request may be sent")
}

fn http_error() -> reqwest::Error {
    reqwest::Client::new().get("http://[::1").build().unwrap_err()
}

fn dynu(records: &[&str], hostname: &str) -> DomainConfig {
    DomainConfig::Dynu(DynuConfig {
        base_url: String::from("http://127.0.0.1:9/"),
        hostname: String::from(hostname),
        username: String::from("myusername"),
        password: String::from("secret-1"),
        records: records.iter().map(|r| String::from(*r)).collect(),
        ip_types: vec![IpType::V4],
    })
}

fn query_of(req: &UpdateRequest) -> Vec<(String, String)> {
    req.query
        .iter()
        .map(|f| {
            let v = match &f.value {
                FieldValue::Text(t) => t.clone(),
                FieldValue::Address(IpAddress::V4(a)) => {
                    let b = a.to_be_bytes();
                    format!("{}.{}.{}.{}", b[0], b[1], b[2], b[3])
                }
                FieldValue::Address(IpAddress::V6(a)) => format!("{a:x}"),
            };
            (f.name.clone(), v)
        })
        .collect()
}

#[test]
fn test_dynu_update() {
    let config = DomainConfig::Dynu(DynuConfig {
        base_url: String::from("http://127.0.0.1:8080"),
        hostname: String::from("root-servers.net"),
        username: String::from("myusername"),
        password: String::from("secret-1"),
        records: vec![String::from("d")],
        ip_types: vec![IpType::V4],
    });
    let (summary, sent, _) = drive(&config, WAN, &|_| answer(ROOT_D), &good);
    assert_eq!(summary.unwrap(), Updates { current: 0, updated: 1, missing: 0 });
    assert_eq!(sent.len(), 1);
    assert_eq!(sent[0].url, "http://127.0.0.1:8080/nic/update");
}

#[test]
fn test_he_update() {
    let config = DomainConfig::He(HeConfig {
        base_url: String::from("http://127.0.0.1:8080"),
        hostname: String::from("root-servers.net"),
        password: String::from("secret-1"),
        records: vec![String::from("d")],
        ip_types: vec![IpType::V4],
    });
    let (summary, sent, _) = drive(&config, WAN, &|_| answer(ROOT_D), &|_| {
        Exchange::Body(String::from("good 2.2.2.2"))
    });
    assert_eq!(summary.unwrap(), Updates { current: 0, updated: 1, missing: 0 });
    assert_eq!(sent.len(), 1);
    assert_eq!(sent[0].method, Method::Post);
    assert!(sent[0].http10);
    assert_eq!(sent[0].form[0].name, "hostname");
    assert!(matches!(&sent[0].form[0].value, FieldValue::Text(h) if h == "d.root-servers.net"));
}

#[test]
fn test_namecheap_update() {
    let config = DomainConfig::Namecheap(NamecheapConfig {
        base_url: String::from("http://127.0.0.1:8080"),
        domain: String::from("root-servers.net"),
        ddns_password: String::from("secret-1"),
        records: vec![String::from("d")],
    });
    let body = "<?xml version=\"1.0\"?><interface-response><Command>SETDNSHOST</Command>\
                <Language>eng</Language><IP>2.2.2.2</IP><ErrCount>0</ErrCount>\
                <ResponseCount>0</ResponseCount><Done>true</Done></interface-response>";
    let (summary, sent, _) =
        drive(&config, WAN, &|_| answer(ROOT_D), &|_| Exchange::Body(String::from(body)));
    assert_eq!(summary.unwrap(), Updates { current: 0, updated: 1, missing: 0 });
    assert_eq!(sent[0].url, "http://127.0.0.1:8080/update");
}

#[test]
fn test_noip_update() {
    let config = DomainConfig::NoIp(NoIpConfig {
        base_url: String::from("http://127.0.0.1:8080"),
        hostname: String::from("d.root-servers.net"),
        username: String::from("me@example.com"),
        password: String::from("my-pass"),
        ip_types: vec![IpType::V4],
    });
    let (summary, sent, asked) = drive(&config, WAN, &|_| answer(ROOT_D), &good);
    assert_eq!(summary.unwrap(), Updates { current: 0, updated: 1, missing: 0 });
    assert_eq!(asked, vec![String::from("d.root-servers.net.")]);
    let auth = sent[0].basic_auth.as_ref().unwrap();
    assert_eq!((auth.username.as_str(), auth.password.as_str()), ("me@example.com", "my-pass"));
}

#[test]
fn end_to_end_apex_current_alias_updated() {
    let config = dynu(&["@", "d"], "example.com");
    let dns = |name: &str| match name {
        "example.com." => answer(WAN),
        "d.example.com." => answer(OTHER),
        other => panic!("unexpected lookup of {other}"),
    };
    let (summary, sent, asked) = drive(&config, WAN, &dns, &good);
    assert_eq!(summary.unwrap(), Updates { current: 1, updated: 1, missing: 0 });
    assert_eq!(asked, vec![String::from("example.com."), String::from("d.example.com.")]);
    assert_eq!(sent.len(), 1);
    let q = query_of(&sent[0]);
    assert!(q.contains(&(String::from("alias"), String::from("d"))));
    assert!(q.contains(&(String::from("myip"), String::from("2.2.2.2"))));
}

#[test]
fn rerun_after_updates_is_all_current() {
    let config = dynu(&["@", "a", "b"], "example.com");
    let first = |name: &str| if name == "a.example.com." { answer(WAN) } else { answer(OTHER) };
    let (summary, sent, _) = drive(&config, WAN, &first, &good);
    assert_eq!(summary.unwrap(), Updates { current: 1, updated: 2, missing: 0 });
    assert_eq!(sent.len(), 2);
    let (summary, sent, _) = drive(&config, WAN, &|_| answer(WAN), &never);
    assert_eq!(summary.unwrap(), Updates { current: 3, updated: 0, missing: 0 });
    assert!(sent.is_empty());
}

#[test]
fn equal_address_is_current_without_request() {
    let config = dynu(&["d"], "example.com");
    let (summary, sent, _) = drive(&config, WAN, &|_| answer(WAN), &never);
    assert_eq!(summary.unwrap(), Updates { current: 1, updated: 0, missing: 0 });
    assert!(sent.is_empty());
}

#[test]
fn no_or_many_addresses_are_missing_without_request() {
    let config = dynu(&["a", "b", "c"], "example.com");
    let dns = |name: &str| match name {
        "a.example.com." => single_address(vec![]),
        "b.example.com." => single_address(vec![WAN, OTHER]),
        _ => Err(DnsError { kind: DnsErrorKind::UnexpectedResponse(3) }),
    };
    let (summary, sent, _) = drive(&config, WAN, &dns, &never);
    assert_eq!(summary.unwrap(), Updates { current: 0, updated: 0, missing: 3 });
    assert!(sent.is_empty());
}

#[test]
fn unsupported_family_fails_without_request() {
    let config = DomainConfig::Namecheap(NamecheapConfig {
        base_url: String::from("http://127.0.0.1:8080"),
        domain: String::from("example.com"),
        ddns_password: String::from("secret-1"),
        records: vec![String::from("@"), String::from("d")],
    });
    let wan6 = IpAddress::V6(0x2001_0db8_0000_0000_0000_0000_0000_0001);
    let (result, sent, asked) = drive(&config, wan6, &|_| answer(IpAddress::V6(1)), &never);
    let err = result.unwrap_err();
    match err.kind() {
        DnessErrorKind::UnsupportedAddressFamily { provider, ip_type } => {
            assert_eq!(provider, "namecheap");
            assert_eq!(*ip_type, IpType::V6);
        }
        other => panic!("unexpected error {other:?}"),
    }
    assert_eq!(err.description(), "IPv6 not supported for namecheap");
    assert!(sent.is_empty());
    assert_eq!(asked.len(), 1);
}

#[test]
fn rejected_body_stops_the_domain() {
    let config = dynu(&["a", "b"], "example.com");
    let (result, sent, asked) = drive(&config, WAN, &|_| answer(OTHER), &|_| {
        Exchange::Body(String::from("badauth"))
    });
    let err = result.unwrap_err();
    assert!(matches!(err.kind(), DnessErrorKind::Rejected { body } if body == "badauth"));
    assert_eq!(err.description(), "expected zero errors, but received: badauth");
    assert_eq!(sent.len(), 1);
    assert_eq!(asked.len(), 1);
}

#[test]
fn transport_failures_are_classified() {
    let config = dynu(&["a"], "example.com");
    let cases: Vec<(fn(reqwest::Error) -> Exchange, &str)> = vec![
        (Exchange::SendFailed, "unable to send http request for dynu update: url attempted: http://127.0.0.1:9/nic/update"),
        (Exchange::BadStatus, "received bad http response for dynu update: url attempted: http://127.0.0.1:9/nic/update"),
        (Exchange::Unreadable, "unable to deserialize response for dynu update: url attempted: http://127.0.0.1:9/nic/update"),
    ];
    for (make, text) in cases {
        let (result, _, _) = drive(&config, WAN, &|_| answer(OTHER), &|_| make(http_error()));
        let err = result.unwrap_err();
        assert_eq!(err.description(), text);
        assert!(err.source().is_some());
    }
}

#[test]
fn empty_domain_finishes_at_once() {
    let config = dynu(&[], "example.com");
    let (summary, sent, asked) = drive(&config, WAN, &|_| answer(WAN), &never);
    assert_eq!(summary.unwrap(), Updates::default());
    assert!(sent.is_empty() && asked.is_empty());
}

#[test]
fn verified_names() {
    assert_eq!(fqdn("example.com", "@"), "example.com.");
    assert_eq!(fqdn("example.com", "d"), "d.example.com.");
    assert_eq!(fqdn("example.com", "a.b"), "a.b.example.com.");
}

#[test]
fn classification() {
    assert_eq!(classify(&Ok(WAN), WAN), Verdict::Current);
    assert_eq!(classify(&Ok(OTHER), WAN), Verdict::Stale);
    assert_eq!(classify(&Ok(IpAddress::V6(0x0202_0202)), WAN), Verdict::Stale);
    assert_eq!(classify(&not_found(), WAN), Verdict::Missing);
}

#[test]
fn single_address_counts() {
    assert!(matches!(single_address(vec![OTHER]), Ok(a) if a == OTHER));
    let e = single_address(vec![]).unwrap_err();
    assert!(matches!(e.kind, DnsErrorKind::UnexpectedResponse(0)));
    let e = single_address(vec![WAN, OTHER]).unwrap_err();
    assert!(matches!(e.kind, DnsErrorKind::UnexpectedResponse(2)));
    assert_eq!(e.description(), "unexpected number of results: 2");
}
