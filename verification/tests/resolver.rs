use whois_dns::registry::{Registry, ServerEntry};
use whois_dns::resolver::{
    begin, fallback_warning, Attempt, ResolutionError, Step, WhoisResult,
};
use whois_dns::transport::{transport_failure, Stage, TransportError, WhoisQuery};

struct Trace {
    asked: Vec<WhoisQuery>,
    warnings: Vec<TransportError>,
    result: Result<WhoisResult, ResolutionError>,
}

fn drive(
    registry: &Registry,
    target: &str,
    outcomes: Vec<Result<String, TransportError>>,
) -> Trace {
    let mut outcomes = outcomes.into_iter();
    let mut asked = Vec::new();
    let mut warnings = Vec::new();
    let mut pending = begin(registry, target);
    loop {
        asked.push(pending.query.clone());
        let outcome = outcomes.next().expect("more exchanges than outcomes");
        match pending.advance(outcome) {
            Step::Retry { warning, next } => {
                warnings.push(warning);
                pending = next;
            }
            Step::Done(result) => return Trace { asked, warnings, result: Ok(result) },
            Step::Failed(error) => return Trace { asked, warnings, result: Err(error) },
        }
    }
}

fn query(host: &str, line: &str) -> WhoisQuery {
    WhoisQuery { host: host.to_string(), raw_query_line: line.to_string() }
}

fn refused() -> TransportError {
    transport_failure(Stage::Connect, false, "Connection refused".to_string())
}

#[test]
fn known_tld_begins_with_its_server() {
    let pending = begin(&Registry::builtin(), "example.com");
    assert_eq!(pending.attempt, Attempt::Specific);
    assert_eq!(pending.target, "example.com");
    assert_eq!(pending.query, query("whois.verisign-grs.com", "domain example.com\r\n"));
}

#[test]
fn unknown_tld_begins_with_the_fallback() {
    let pending = begin(&Registry::builtin(), "example.xyz");
    assert_eq!(pending.attempt, Attempt::Fallback);
    assert_eq!(pending.query, query("whois.iana.org", "example.xyz\r\n"));
}

#[test]
fn target_without_a_dot_begins_with_the_fallback() {
    let pending = begin(&Registry::builtin(), "com");
    assert_eq!(pending.attempt, Attempt::Fallback);
    assert_eq!(pending.query, query("whois.iana.org", "com\r\n"));
}

#[test]
fn upper_case_tld_is_not_in_the_registry() {
    let pending = begin(&Registry::builtin(), "EXAMPLE.COM");
    assert_eq!(pending.attempt, Attempt::Fallback);
    assert_eq!(pending.query, query("whois.iana.org", "EXAMPLE.COM\r\n"));
}

#[test]
fn answer_of_the_specific_server_ends_the_resolution() {
    let trace = drive(
        &Registry::builtin(),
        "example.com",
        vec![Ok("Domain Name: EXAMPLE.COM\r\n".to_string())],
    );
    assert_eq!(trace.asked, vec![query("whois.verisign-grs.com", "domain example.com\r\n")]);
    assert!(trace.warnings.is_empty());
    assert_eq!(
        trace.result,
        Ok(WhoisResult {
            responding_server: "whois.verisign-grs.com".to_string(),
            body: "Domain Name: EXAMPLE.COM\r\n".to_string(),
        })
    );
}

#[test]
fn german_domain_is_asked_with_the_denic_prefix() {
    let trace = drive(&Registry::builtin(), "example.de", vec![Ok("Domain: example.de".to_string())]);
    assert_eq!(trace.asked, vec![query("whois.denic.de", "-T dn example.de\r\n")]);
    assert_eq!(trace.result.unwrap().responding_server, "whois.denic.de");
}

#[test]
fn unknown_tld_asks_only_the_fallback() {
    let trace = drive(&Registry::builtin(), "example.xyz", vec![Ok("refer: whois.nic.xyz\n".to_string())]);
    assert_eq!(trace.asked, vec![query("whois.iana.org", "example.xyz\r\n")]);
    assert!(trace.warnings.is_empty());
    assert_eq!(
        trace.result,
        Ok(WhoisResult {
            responding_server: "whois.iana.org".to_string(),
            body: "refer: whois.nic.xyz\n".to_string(),
        })
    );
}

#[test]
fn ip_address_is_asked_of_the_fallback() {
    let trace = drive(&Registry::builtin(), "203.0.113.1", vec![Ok("inetnum: 203.0.113.0\n".to_string())]);
    assert_eq!(trace.asked, vec![query("whois.iana.org", "203.0.113.1\r\n")]);
    assert_eq!(trace.result.unwrap().responding_server, "whois.iana.org");
}

#[test]
fn refused_specific_server_falls_back_to_iana() {
    let trace = drive(
        &Registry::builtin(),
        "example.com",
        vec![Err(refused()), Ok("domain: COM\n".to_string())],
    );
    assert_eq!(
        trace.asked,
        vec![
            query("whois.verisign-grs.com", "domain example.com\r\n"),
            query("whois.iana.org", "example.com\r\n"),
        ]
    );
    assert_eq!(trace.warnings, vec![TransportError::Connect("Connection refused".to_string())]);
    assert_eq!(
        trace.result,
        Ok(WhoisResult {
            responding_server: "whois.iana.org".to_string(),
            body: "domain: COM\n".to_string(),
        })
    );
}

#[test]
fn fallback_drops_the_prefix_of_the_specific_server() {
    let trace = drive(
        &Registry::builtin(),
        "example.de",
        vec![Err(refused()), Ok("domain: DE\n".to_string())],
    );
    assert_eq!(trace.asked[0].raw_query_line, "-T dn example.de\r\n");
    assert_eq!(trace.asked[1], query("whois.iana.org", "example.de\r\n"));
}

#[test]
fn timeout_on_the_specific_server_causes_one_fallback() {
    for stage in [Stage::Write, Stage::Read] {
        let stalled = transport_failure(stage, true, "timed out".to_string());
        let trace = drive(
            &Registry::builtin(),
            "example.org",
            vec![Err(stalled.clone()), Ok("domain: ORG\n".to_string())],
        );
        assert_eq!(trace.asked.len(), 2);
        assert_eq!(trace.asked[0], query("whois.pir.org", "example.org\r\n"));
        assert_eq!(trace.asked[1], query("whois.iana.org", "example.org\r\n"));
        assert_eq!(trace.warnings, vec![stalled]);
        assert_eq!(trace.result.unwrap().responding_server, "whois.iana.org");
    }
}

#[test]
fn empty_answer_of_the_specific_server_falls_back() {
    let trace = drive(
        &Registry::builtin(),
        "example.net",
        vec![Ok("  \r\n".to_string()), Ok("domain: NET\n".to_string())],
    );
    assert_eq!(trace.asked.len(), 2);
    assert_eq!(trace.warnings, vec![TransportError::EmptyResponse]);
    assert_eq!(trace.result.unwrap().responding_server, "whois.iana.org");
}

#[test]
fn failure_of_both_servers_reports_the_fallback_cause() {
    let trace = drive(
        &Registry::builtin(),
        "example.com",
        vec![
            Err(refused()),
            Err(transport_failure(Stage::Read, false, "Connection reset by peer".to_string())),
        ],
    );
    assert_eq!(trace.asked.len(), 2);
    assert_eq!(trace.warnings, vec![TransportError::Connect("Connection refused".to_string())]);
    let error = trace.result.unwrap_err();
    assert_eq!(error.cause, TransportError::Read("Connection reset by peer".to_string()));
    assert_eq!(error.message(), "WHOIS lookup failed: Connection reset by peer");
}

#[test]
fn failure_of_the_fallback_alone_fails_the_resolution() {
    let trace = drive(&Registry::builtin(), "localhost", vec![Err(refused())]);
    assert_eq!(trace.asked, vec![query("whois.iana.org", "localhost\r\n")]);
    assert!(trace.warnings.is_empty());
    assert_eq!(trace.result, Err(ResolutionError { cause: TransportError::Connect("Connection refused".to_string()) }));
}

#[test]
fn empty_answer_of_the_fallback_fails_the_resolution() {
    let trace = drive(&Registry::builtin(), "example.xyz", vec![Ok(String::new())]);
    let error = trace.result.unwrap_err();
    assert_eq!(error.cause, TransportError::EmptyResponse);
    assert_eq!(error.message(), "WHOIS lookup failed: Empty response from server");
}

#[test]
fn answer_is_reported_untrimmed() {
    let trace = drive(&Registry::builtin(), "example.uk", vec![Ok("\n\n  text \n\n".to_string())]);
    assert_eq!(trace.result.unwrap().body, "\n\n  text \n\n");
}

#[test]
fn warning_names_the_cause_and_iana() {
    assert_eq!(
        fallback_warning(&TransportError::Connect("Connection refused".to_string())),
        "TLD-specific server failed: Connection refused. Trying IANA..."
    );
    assert_eq!(
        fallback_warning(&TransportError::EmptyResponse),
        "TLD-specific server failed: Empty response from server. Trying IANA..."
    );
}

#[test]
fn custom_registry_is_used_for_the_first_question() {
    let registry = Registry::from_entries(vec![ServerEntry {
        tld: "fr".to_string(),
        host: "whois.nic.fr".to_string(),
        query_prefix: "-V ".to_string(),
    }])
    .unwrap();
    let trace = drive(&registry, "example.fr", vec![Ok("domain: example.fr\n".to_string())]);
    assert_eq!(trace.asked, vec![query("whois.nic.fr", "-V example.fr\r\n")]);
    let other = drive(&registry, "example.com", vec![Ok("domain: COM\n".to_string())]);
    assert_eq!(other.asked, vec![query("whois.iana.org", "example.com\r\n")]);
}

#[test]
fn trailing_dot_still_selects_the_server() {
    let trace = drive(&Registry::builtin(), "example.com.", vec![Ok("x".to_string())]);
    assert_eq!(trace.asked, vec![query("whois.verisign-grs.com", "domain example.com.\r\n")]);
}
