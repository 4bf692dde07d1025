use site_check::aggregate::{aggregate, check_sites, overall_status, summarize, OverallStatus, Summary};
use site_check::probe::{classify_response, probe_outcome, ProbeError, ProbeResult, TransportEvent};
use site_check::registry::{validate_registry, validate_target, Target};
use site_check::text::{str_contains, u64_digits};

fn target(name: &str, host: &str, port: u16, path: &str) -> Target {
    Target { name: name.to_string(), host: host.to_string(), port, path: path.to_string() }
}

fn default_registry() -> Vec<Target> {
    vec![
        target("Google", "google.com", 80, "/"),
        target("GitHub", "github.com", 80, "/"),
        target("Cloudflare", "cloudflare.com", 80, "/"),
    ]
}

#[test]
fn contains_found() {
    assert!(str_contains("HTTP/1.1 200 OK\r\n", "HTTP/1."));
    assert!(str_contains("HTTP/1.1 200 OK\r\n", " 200 "));
    assert!(str_contains("abc", "abc"));
}

#[test]
fn contains_absent() {
    assert!(!str_contains("HTTP/1.1 404 Not Found", " 200 "));
    assert!(!str_contains("abc", "abd"));
    assert!(!str_contains("ab", "abc"));
    assert!(!str_contains("", "x"));
}

#[test]
fn contains_empty_needle() {
    assert!(str_contains("anything", ""));
    assert!(str_contains("", ""));
}

#[test]
fn digits_exact() {
    assert_eq!(u64_digits(0), "0");
    assert_eq!(u64_digits(7), "7");
    assert_eq!(u64_digits(10), "10");
    assert_eq!(u64_digits(12345), "12345");
    assert_eq!(u64_digits(u64::MAX), "18446744073709551615");
}

#[test]
fn registry_default_table_valid() {
    assert!(validate_registry(&default_registry()));
}

#[test]
fn registry_empty_valid() {
    assert!(validate_registry(&Vec::new()));
}

#[test]
fn registry_duplicate_name_invalid() {
    let mut ts = default_registry();
    ts.push(target("Google", "example.com", 80, "/"));
    assert!(!validate_registry(&ts));
}

#[test]
fn registry_empty_host_invalid() {
    assert!(!validate_target(&target("A", "", 80, "/")));
    assert!(!validate_registry(&vec![target("A", "", 80, "/")]));
}

#[test]
fn registry_zero_port_invalid() {
    assert!(!validate_target(&target("A", "example.com", 0, "/")));
}

#[test]
fn registry_bad_path_invalid() {
    assert!(!validate_target(&target("A", "example.com", 80, "index.html")));
    assert!(!validate_target(&target("A", "example.com", 80, "")));
    assert!(validate_target(&target("A", "example.com", 80, "/index.html")));
}

#[test]
fn probe_code_200_up() {
    let ev = TransportEvent::Response {
        body: "HTTP/1.1 200 OK\r\nContent-Type: text/html\r\n".to_string(),
        elapsed_ms: 42,
    };
    let r = probe_outcome("Google", &ev);
    assert_eq!(r.target_name, "Google");
    assert!(r.reachable);
    assert_eq!(r.latency_ms, 42);
    assert_eq!(r.error, None);
}

#[test]
fn probe_redirect_codes_up() {
    for code in ["301", "302"] {
        let ev = TransportEvent::Response {
            body: format!("HTTP/1.1 {} Moved\r\n", code),
            elapsed_ms: 7,
        };
        let r = probe_outcome("T", &ev);
        assert!(r.reachable);
        assert_eq!(r.latency_ms, 7);
    }
}

#[test]
fn probe_code_404_unaccepted() {
    let ev = TransportEvent::Response {
        body: "HTTP/1.1 404 Not Found\r\n".to_string(),
        elapsed_ms: 13,
    };
    let r = probe_outcome("T", &ev);
    assert!(!r.reachable);
    assert_eq!(r.latency_ms, 0);
    assert_eq!(r.error, Some(ProbeError::UnacceptedStatus));
}

#[test]
fn probe_gibberish_malformed() {
    let ev = TransportEvent::Response { body: "SSH-2.0-OpenSSH_9.6\r\n".to_string(), elapsed_ms: 3 };
    let r = probe_outcome("T", &ev);
    assert!(!r.reachable);
    assert_eq!(r.error, Some(ProbeError::MalformedResponse));
}

#[test]
fn probe_code_without_token_malformed() {
    assert_eq!(
        classify_response("here is 200 but no status line: 200 "),
        Some(ProbeError::MalformedResponse)
    );
}

#[test]
fn probe_connect_failure_down() {
    let ev = TransportEvent::ConnectFailed { detail: "connection timed out".to_string() };
    let r = probe_outcome("T", &ev);
    assert!(!r.reachable);
    assert_eq!(r.latency_ms, 0);
    match r.error {
        Some(ProbeError::ConnectFailure { detail }) => {
            assert_eq!(detail, "connection timed out");
            assert!(!detail.is_empty());
        }
        other => panic!("expected a connect failure, got {:?}", other),
    }
}

#[test]
fn probe_write_failure_down() {
    let r = probe_outcome("T", &TransportEvent::WriteFailed);
    assert!(!r.reachable);
    assert_eq!(r.error, Some(ProbeError::WriteFailure));
}

#[test]
fn probe_no_data_down() {
    let r = probe_outcome("T", &TransportEvent::NoData);
    assert!(!r.reachable);
    assert_eq!(r.latency_ms, 0);
    assert_eq!(r.error, Some(ProbeError::NoResponse));
}

#[test]
fn check_sites_keeps_registry_order() {
    let registry = default_registry();
    let events = vec![
        TransportEvent::Response { body: "HTTP/1.1 200 OK\r\n".to_string(), elapsed_ms: 11 },
        TransportEvent::ConnectFailed { detail: "refused".to_string() },
        TransportEvent::Response { body: "HTTP/1.1 301 Moved\r\n".to_string(), elapsed_ms: 22 },
    ];
    let results = check_sites(&registry, &events);
    assert_eq!(results.len(), 3);
    assert_eq!(results[0].target_name, "Google");
    assert_eq!(results[1].target_name, "GitHub");
    assert_eq!(results[2].target_name, "Cloudflare");
    assert!(results[0].reachable);
    assert!(!results[1].reachable);
    assert!(results[2].reachable);
}

#[test]
fn one_failure_never_hides_other_results() {
    let registry = default_registry();
    let events = vec![
        TransportEvent::ConnectFailed { detail: "no route to host".to_string() },
        TransportEvent::Response { body: "HTTP/1.1 200 OK\r\n".to_string(), elapsed_ms: 5 },
        TransportEvent::NoData,
    ];
    let s = aggregate(&registry, &events);
    assert_eq!(s.results.len(), 3);
    assert_eq!(s.total, 3);
    assert_eq!(s.up_count, 1);
    assert!(s.results[1].reachable);
}

#[test]
fn summarize_counts_reachable() {
    let mk = |name: &str, up: bool| ProbeResult {
        target_name: name.to_string(),
        reachable: up,
        latency_ms: if up { 9 } else { 0 },
        error: if up { None } else { Some(ProbeError::NoResponse) },
    };
    let s: Summary = summarize(vec![mk("a", true), mk("b", false), mk("c", true), mk("d", true)]);
    assert_eq!(s.total, 4);
    assert_eq!(s.up_count, 3);
    assert!(s.up_count <= s.total);
    assert_eq!(s.results.len(), 4);
}

#[test]
fn overall_status_three_way() {
    assert_eq!(overall_status(3, 3), OverallStatus::AllUp);
    assert_eq!(overall_status(0, 3), OverallStatus::AllDown);
    assert_eq!(overall_status(1, 3), OverallStatus::Partial);
    assert_eq!(overall_status(0, 0), OverallStatus::AllUp);
}
