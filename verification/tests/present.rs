use whois_dns::present::{
    layout, present, present_colored, rule, server_line, RULE_WIDTH, WHOIS_TITLE,
};
use whois_dns::registry::Registry;
use whois_dns::resolver::{begin, Step, WhoisResult};

const RULE: &str = "--------------------------------------------------";

fn verisign_result() -> WhoisResult {
    WhoisResult {
        responding_server: "whois.verisign-grs.com".to_string(),
        body: "   Domain Name: EXAMPLE.COM\r\n".to_string(),
    }
}

#[test]
fn rule_is_fifty_dashes() {
    assert_eq!(RULE_WIDTH, 50);
    assert_eq!(RULE.len(), 50);
    assert_eq!(rule(), RULE);
}

#[test]
fn server_line_names_the_server() {
    assert_eq!(server_line("whois.verisign-grs.com"), "Server used: whois.verisign-grs.com");
    assert_eq!(server_line(""), "Server used: ");
}

#[test]
fn layout_puts_title_rule_server_rule_body() {
    let text = layout("Title", "host.example", "line one\nline two");
    assert_eq!(
        text,
        format!("Title\n{}\nServer used: host.example\n{}\nline one\nline two\n", RULE, RULE)
    );
}

#[test]
fn plain_display_of_a_result() {
    let text = present(&verisign_result());
    assert_eq!(
        text,
        format!(
            "WHOIS Information:\n{}\nServer used: whois.verisign-grs.com\n{}\n   Domain Name: EXAMPLE.COM\r\n\n",
            RULE, RULE
        )
    );
}

#[test]
fn display_keeps_the_body_verbatim() {
    let body = "\n\n% comment\r\n  refer:  x \t\n";
    let result = WhoisResult { responding_server: "whois.iana.org".to_string(), body: body.to_string() };
    let text = present(&result);
    assert!(text.ends_with(&format!("{}\n", body)));
    let lines: Vec<&str> = text.split('\n').collect();
    assert_eq!(lines[0], WHOIS_TITLE);
    assert_eq!(lines[1], RULE);
    assert_eq!(lines[2], "Server used: whois.iana.org");
    assert_eq!(lines[3], RULE);
}

#[test]
fn display_of_an_empty_body() {
    let result = WhoisResult { responding_server: "s".to_string(), body: String::new() };
    assert_eq!(present(&result), format!("WHOIS Information:\n{}\nServer used: s\n{}\n\n", RULE, RULE));
}

fn is_shown(shown: &str, text: &str, codes: &str) -> bool {
    shown == text
        || shown == format!("\x1b[{}m{}\x1b[0m", codes, text)
        || shown == format!("{}\x1b[0m", text)
}

#[test]
fn coloured_display_shows_title_and_server_in_one_of_their_forms() {
    let result = verisign_result();
    let text = present_colored(&result);
    let tail = format!("\n{}\n   Domain Name: EXAMPLE.COM\r\n\n", RULE);
    let middle = format!("\n{}\nServer used: ", RULE);
    assert!(text.ends_with(&tail));
    let head = &text[..text.len() - tail.len()];
    let cut = head.find(&middle).unwrap();
    let title = &head[..cut];
    let server = &head[cut + middle.len()..];
    assert!(is_shown(title, "WHOIS Information:", "1;32"));
    assert!(is_shown(server, "whois.verisign-grs.com", "34"));
}

#[test]
fn colours_switched_on_and_off() {
    let result = verisign_result();
    colored::control::set_override(true);
    let painted = present_colored(&result);
    colored::control::set_override(false);
    let plain = present_colored(&result);
    colored::control::unset_override();
    assert_eq!(
        painted,
        format!(
            "\x1b[1;32mWHOIS Information:\x1b[0m\n{}\nServer used: \x1b[34mwhois.verisign-grs.com\x1b[0m\n{}\n   Domain Name: EXAMPLE.COM\r\n\n",
            RULE, RULE
        )
    );
    assert_eq!(plain, present(&result));
}

#[test]
fn example_com_from_target_to_display() {
    let registry = Registry::builtin();
    let tld = whois_dns::tld::get_tld("example.com").unwrap();
    assert_eq!(tld, "com");
    let entry = registry.lookup(tld).unwrap();
    assert_eq!((entry.host.as_str(), entry.query_prefix.as_str()), ("whois.verisign-grs.com", "domain "));
    let pending = begin(&registry, "example.com");
    assert_eq!(pending.query.host, "whois.verisign-grs.com");
    assert_eq!(pending.query.raw_query_line, "domain example.com\r\n");
    assert_eq!(whois_dns::transport::WHOIS_PORT, 43);
    let result = match pending.advance(Ok("Domain Name: EXAMPLE.COM\n".to_string())) {
        Step::Done(result) => result,
        other => panic!("no answer: {:?}", other),
    };
    let text = present(&result);
    let after_header = text.strip_prefix(&format!("WHOIS Information:\n{}\n", RULE)).unwrap();
    assert!(after_header.starts_with("Server used: whois.verisign-grs.com\n"));
    assert!(server_line(&result.responding_server).starts_with("Server used: whois.verisign-grs.com"));
}

#[test]
fn ip_address_from_target_to_fallback_query() {
    let registry = Registry::builtin();
    let tld = whois_dns::tld::get_tld("203.0.113.1").unwrap();
    assert_eq!(tld, "1");
    assert!(registry.lookup(tld).is_none());
    let pending = begin(&registry, "203.0.113.1");
    assert_eq!(pending.query.host, "whois.iana.org");
    assert_eq!(pending.query.raw_query_line, "203.0.113.1\r\n");
}
