use dness::address::{IpAddress, IpType};
use dness::config::{DomainConfig, DynuConfig, NamecheapConfig};
use dness::errors::{DnessError, DnsError, DnsErrorKind, DnessErrorKind};
use dness::resolvers::{ipify_url, opendns_servers};
use dness::run::{log_err, requested_families, RunReport};
use dness::summary::{RecordOutcome, Updates};
use dness::text::{contains, decimal, trim_trailing_slashes};

fn dynu(types: Vec<IpType>) -> DomainConfig {
    DomainConfig::Dynu(DynuConfig {
        base_url: String::from("https://api.dynu.com"),
        hostname: String::from("example.com"),
        username: String::from("u"),
        password: String::from("p"),
        records: vec![String::from("@")],
        ip_types: types,
    })
}

fn namecheap() -> DomainConfig {
    DomainConfig::Namecheap(NamecheapConfig {
        base_url: String::from("https://x"),
        domain: String::from("example.com"),
        ddns_password: String::from("s"),
        records: vec![String::from("@")],
    })
}

#[test]
fn families_default_to_ipv4() {
    assert_eq!(requested_families(&vec![]), vec![IpType::V4]);
}

#[test]
fn families_are_sorted_and_unique() {
    let domains = vec![dynu(vec![IpType::V6]), namecheap(), dynu(vec![IpType::V6, IpType::V4])];
    assert_eq!(requested_families(&domains), vec![IpType::V4, IpType::V6]);
    assert_eq!(requested_families(&vec![dynu(vec![IpType::V6])]), vec![IpType::V6]);
    assert_eq!(requested_families(&vec![dynu(vec![])]), Vec::<IpType>::new());
}

#[test]
fn domains_apply_to_their_families() {
    assert!(namecheap().applies_to(IpAddress::V4(1)));
    assert!(!namecheap().applies_to(IpAddress::V6(1)));
    assert!(dynu(vec![IpType::V6]).applies_to(IpAddress::V6(1)));
    assert!(!dynu(vec![IpType::V6]).applies_to(IpAddress::V4(1)));
}

#[test]
fn run_total_sums_domains_and_failures_set_exit_code() {
    let mut report = RunReport::new();
    assert_eq!(report.exit_code(), 0);
    let a = Updates { current: 1, updated: 2, missing: 3 };
    let b = Updates { current: 10, updated: 0, missing: 1 };
    report.domain_finished(&Ok(a));
    assert!(report.can_add(&b));
    report.domain_finished(&Ok(b));
    assert_eq!(report.total(), Updates { current: 11, updated: 2, missing: 4 });
    assert!(!report.failed());
    assert_eq!(report.exit_code(), 0);
    report.domain_finished(&Err(DnessError::message(String::from("boom"))));
    assert_eq!(report.total(), Updates { current: 11, updated: 2, missing: 4 });
    assert_eq!(report.exit_code(), 1);
    assert!(!report.can_add(&Updates { current: u64::MAX, updated: 0, missing: 0 }));
}

#[test]
fn failed_resolution_sets_exit_code() {
    let mut report = RunReport::new();
    report.resolution_failed();
    assert!(report.failed());
    assert_eq!(report.exit_code(), 1);
    assert_eq!(report.total(), Updates::default());
}

#[test]
fn summaries_form_a_monoid() {
    let a = Updates { current: 1, updated: 2, missing: 3 };
    let b = Updates { current: 4, updated: 0, missing: 1 };
    let c = Updates { current: 0, updated: 7, missing: 0 };
    assert_eq!(a.merged(&b).merged(&c), a.merged(&b.merged(&c)));
    assert_eq!(a.merged(&b), b.merged(&a));
    assert_eq!(a.merged(&Updates::default()), a);
    // per-record, per-domain and whole-run sums agree
    let outcomes = [
        RecordOutcome::Current,
        RecordOutcome::Updated,
        RecordOutcome::Missing,
        RecordOutcome::Updated,
    ];
    let mut all = Updates::default();
    for o in outcomes {
        all.record(o);
    }
    let mut first = Updates::default();
    let mut second = Updates::default();
    for o in &outcomes[..1] {
        first.record(*o);
    }
    for o in &outcomes[1..] {
        second.record(*o);
    }
    assert_eq!(first.merged(&second), all);
    assert_eq!(all, Updates { current: 1, updated: 2, missing: 1 });
}

#[test]
fn error_descriptions() {
    assert_eq!(DnessError::message(String::from("plain")).description(), "plain");
    let dns = DnessError::dns(DnsError { kind: DnsErrorKind::UnexpectedResponse(12) });
    assert!(matches!(dns.kind(), DnessErrorKind::Dns));
    assert_eq!(dns.description(), "dns lookup");
    match dns.source() {
        Some(dness::errors::ErrorSource::Dns(e)) => {
            assert_eq!(e.description(), "unexpected number of results: 12")
        }
        other => panic!("unexpected source {other:?}"),
    }
    let e = reqwest::Client::new().get("http://[::1").build().unwrap_err();
    let err = DnessError::send_http("https://api.ipify.org/", "ipify get ip", e);
    assert_eq!(
        err.description(),
        "unable to send http request for ipify get ip: url attempted: https://api.ipify.org/"
    );
    let err = DnessError::unsupported_family("namecheap", IpType::V6);
    assert!(err.source().is_none());
}

#[test]
fn error_report_lists_causes() {
    let causes = vec![String::from("inner"), String::from("innermost")];
    assert_eq!(
        log_err("could not update", "outer", &causes),
        "could not update \n\tcaused by: outer\n\tcaused by: inner\n\tcaused by: innermost"
    );
    assert_eq!(log_err("ctx", "only", &vec![]), "ctx \n\tcaused by: only");
}

#[test]
fn wan_resolution_targets() {
    assert_eq!(
        opendns_servers(IpType::V4),
        vec![IpAddress::V4(0xD043_DEDE), IpAddress::V4(0xD043_DCDC)]
    );
    assert_eq!(
        opendns_servers(IpType::V6)[1],
        IpAddress::V6(0x2620_0119_0053_0000_0000_0000_0000_0053)
    );
    assert_eq!(ipify_url(IpType::V4), "https://api.ipify.org/");
    assert_eq!(ipify_url(IpType::V6), "https://api6.ipify.org/");
}

#[test]
fn text_helpers() {
    assert_eq!(decimal(0), "0");
    assert_eq!(decimal(1907), "1907");
    assert_eq!(decimal(usize::MAX), usize::MAX.to_string());
    assert!(contains("abc", ""));
    assert!(contains("xx<ErrCount>0</ErrCount>", "<ErrCount>0</ErrCount>"));
    assert!(!contains("goo", "good"));
    assert_eq!(trim_trailing_slashes("a///"), "a");
    assert_eq!(trim_trailing_slashes("///"), "");
    assert_eq!(trim_trailing_slashes("a/b"), "a/b");
}
