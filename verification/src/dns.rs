//! The display of DNS answers. The lookup itself is a resolver's work; this
//! module reads the record type that the user asked for and lays out the
//! records that came back.

use crate::present::{rule, rule_of};
use crate::style::{bold_green, green_bold, shows, ESCAPE};
use crate::text::str_eq;
use vstd::prelude::*;
use vstd::string::*;

verus! {

/// The title above the DNS records.
pub const DNS_TITLE: &'static str = "DNS Records:";

/// The record types that can be asked for.
#[derive(Clone, Copy, Debug, PartialEq, Eq, Structural)]
pub enum RecordKind {
    A,
    AAAA,
    MX,
    TXT,
    NS,
    CNAME,
}

/// Why a DNS request is refused before any lookup.
#[derive(Clone, Copy, Debug, PartialEq, Eq, Structural)]
pub enum DnsError {
    /// The record type is none of those in [`RecordKind`].
    UnsupportedRecordType,
}

/// One record of an answer, with what is shown of it.
#[derive(Clone, Debug, PartialEq, Eq)]
pub enum DnsRecord {
    /// An IPv4 address, as text.
    A(String),
    /// An IPv6 address, as text.
    AAAA(String),
    /// A mail exchange: its preference and its host.
    MX { preference: u16, exchange: String },
    /// Text, in the chunks in which it was sent.
    TXT(Vec<Vec<u8>>),
    /// A name server.
    NS(String),
    /// A canonical name.
    CNAME(String),
    /// A record of another type, as text.
    Other(String),
}

/// A [`DnsRecord`] as sequences.
pub enum DnsRecordView {
    A(Seq<char>),
    AAAA(Seq<char>),
    MX { preference: u16, exchange: Seq<char> },
    TXT(Seq<Seq<u8>>),
    NS(Seq<char>),
    CNAME(Seq<char>),
    Other(Seq<char>),
}

impl View for DnsRecord {
    type V = DnsRecordView;

    open spec fn view(&self) -> DnsRecordView {
        match self {
            DnsRecord::A(address) => DnsRecordView::A(address@),
            DnsRecord::AAAA(address) => DnsRecordView::AAAA(address@),
            DnsRecord::MX { preference, exchange } => DnsRecordView::MX {
                preference: *preference,
                exchange: exchange@,
            },
            DnsRecord::TXT(chunks) => DnsRecordView::TXT(chunks@.map_values(|c: Vec<u8>| c@)),
            DnsRecord::NS(name) => DnsRecordView::NS(name@),
            DnsRecord::CNAME(name) => DnsRecordView::CNAME(name@),
            DnsRecord::Other(shown) => DnsRecordView::Other(shown@),
        }
    }
}

/// The upper-case form of a text, as `str::to_uppercase` gives it.
pub uninterp spec fn uppercase(text: Seq<char>) -> Seq<char>;

/// The text that `String::from_utf8_lossy` makes of bytes: the text that
/// they encode in UTF-8, with a replacement character for what is no valid
/// encoding.
pub uninterp spec fn utf8_lossy(bytes: Seq<u8>) -> Seq<char>;

/// Calls `str::to_uppercase`. The contract only gives the result its name.
#[verifier::external_body]
fn to_upper(text: &str) -> (upper: String)
    ensures
        upper@ == uppercase(text@),
{
    text.to_uppercase()
}

/// Calls `String::from_utf8_lossy`. The contract only gives the result its
/// name.
#[verifier::external_body]
fn lossy_text(bytes: &Vec<u8>) -> (text: String)
    ensures
        text@ == utf8_lossy(bytes@),
{
    String::from_utf8_lossy(bytes).into_owned()
}

/// The record type that an upper-case name stands for.
pub open spec fn kind_of(upper: Seq<char>) -> Result<RecordKind, DnsError> {
    if upper == "A"@ {
        Ok(RecordKind::A)
    } else if upper == "AAAA"@ {
        Ok(RecordKind::AAAA)
    } else if upper == "MX"@ {
        Ok(RecordKind::MX)
    } else if upper == "TXT"@ {
        Ok(RecordKind::TXT)
    } else if upper == "NS"@ {
        Ok(RecordKind::NS)
    } else if upper == "CNAME"@ {
        Ok(RecordKind::CNAME)
    } else {
        Err(DnsError::UnsupportedRecordType)
    }
}

/// The record type that `upper` names, a name in upper case.
pub fn record_kind_of_upper(upper: &str) -> (kind: Result<RecordKind, DnsError>)
    ensures
        kind == kind_of(upper@),
{
    if str_eq(upper, "A") {
        Ok(RecordKind::A)
    } else if str_eq(upper, "AAAA") {
        Ok(RecordKind::AAAA)
    } else if str_eq(upper, "MX") {
        Ok(RecordKind::MX)
    } else if str_eq(upper, "TXT") {
        Ok(RecordKind::TXT)
    } else if str_eq(upper, "NS") {
        Ok(RecordKind::NS)
    } else if str_eq(upper, "CNAME") {
        Ok(RecordKind::CNAME)
    } else {
        Err(DnsError::UnsupportedRecordType)
    }
}

/// The record type that `text` names, in upper or lower case.
pub fn parse_record_type(text: &str) -> (kind: Result<RecordKind, DnsError>)
    ensures
        kind == kind_of(uppercase(text@)),
{
    let upper = to_upper(text);
    record_kind_of_upper(upper.as_str())
}

impl DnsError {
    /// The error, as a text for the user.
    pub fn message(&self) -> (text: String)
        ensures
            text@ == "Unsupported record type"@,
    {
        "Unsupported record type".to_owned()
    }
}

/// The character for a digit.
pub open spec fn digit_of(d: nat) -> char
    recommends
        d < 10,
{
    ('0' as u8 + d) as char
}

/// A number in decimal, without leading zeros.
pub open spec fn decimal_of(n: nat) -> Seq<char>
    decreases n,
{
    if n < 10 {
        seq![digit_of(n)]
    } else {
        decimal_of(n / 10).push(digit_of(n % 10))
    }
}

/// `parts`, with `separator` between each two.
pub open spec fn joined(parts: Seq<Seq<char>>, separator: Seq<char>) -> Seq<char>
    decreases parts.len(),
{
    if parts.len() == 0 {
        Seq::empty()
    } else if parts.len() == 1 {
        parts[0]
    } else {
        joined(parts.drop_last(), separator) + separator + parts.last()
    }
}

/// The text of a TXT record: each chunk read as UTF-8, and a space between
/// each two.
pub open spec fn txt_text_of(chunks: Seq<Seq<u8>>) -> Seq<char> {
    joined(chunks.map_values(|c: Seq<u8>| utf8_lossy(c)), seq![' '])
}

/// The line for a record, without a line feed.
pub open spec fn record_line_of(record: DnsRecordView) -> Seq<char> {
    match record {
        DnsRecordView::A(address) => "A Record: "@ + address,
        DnsRecordView::AAAA(address) => "AAAA Record: "@ + address,
        DnsRecordView::MX { preference, exchange } => "MX Record: "@ + exchange + " (priority: "@
            + decimal_of(preference as nat) + ")"@,
        DnsRecordView::TXT(chunks) => "TXT Record: "@ + txt_text_of(chunks),
        DnsRecordView::NS(name) => "NS Record: "@ + name,
        DnsRecordView::CNAME(name) => "CNAME Record: "@ + name,
        DnsRecordView::Other(shown) => "Other Record: "@ + shown,
    }
}

/// The lines for the records, each ended by a line feed.
pub open spec fn record_lines_of(records: Seq<DnsRecordView>) -> Seq<char>
    decreases records.len(),
{
    if records.len() == 0 {
        Seq::empty()
    } else {
        record_lines_of(records.drop_last()) + record_line_of(records.last()) + seq!['\n']
    }
}

/// The whole display: the title as it is to be shown, a rule, and a line
/// for each record.
pub open spec fn dns_display_of(title: Seq<char>, records: Seq<DnsRecordView>) -> Seq<char> {
    title + seq!['\n'] + rule_of() + seq!['\n'] + record_lines_of(records)
}

/// The views of a sequence of records, one for one.
pub open spec fn record_views(records: Seq<DnsRecord>) -> Seq<DnsRecordView> {
    records.map_values(|r: DnsRecord| r@)
}

/// The digit `d` as a text of one character.
fn digit_text(d: u16) -> (text: &'static str)
    requires
        d < 10,
    ensures
        text@ == seq![digit_of(d as nat)],
{
    proof {
        reveal_strlit("0");
        reveal_strlit("1");
        reveal_strlit("2");
        reveal_strlit("3");
        reveal_strlit("4");
        reveal_strlit("5");
        reveal_strlit("6");
        reveal_strlit("7");
        reveal_strlit("8");
        reveal_strlit("9");
    }
    match d {
        0 => "0",
        1 => "1",
        2 => "2",
        3 => "3",
        4 => "4",
        5 => "5",
        6 => "6",
        7 => "7",
        8 => "8",
        _ => "9",
    }
}

/// `n` in decimal.
pub fn decimal(n: u16) -> (text: String)
    ensures
        text@ == decimal_of(n as nat),
    decreases n,
{
    if n < 10 {
        digit_text(n).to_owned()
    } else {
        let mut text = decimal(n / 10);
        text.append(digit_text(n % 10));
        text
    }
}

/// The views of a sequence of texts, one for one.
pub open spec fn text_views(texts: Seq<String>) -> Seq<Seq<char>> {
    texts.map_values(|t: String| t@)
}

/// `parts` in one text, with a single space between each two.
pub fn join_with_spaces(parts: &Vec<String>) -> (text: String)
    ensures
        text@ == joined(text_views(parts@), seq![' ']),
{
    proof {
        reveal_strlit(" ");
    }
    let ghost views = text_views(parts@);
    let mut text = String::new();
    let mut i: usize = 0;
    while i < parts.len()
        invariant
            i <= parts.len(),
            views == text_views(parts@),
            text@ == joined(views.take(i as int), seq![' ']),
            " "@ == seq![' '],
        decreases parts.len() - i,
    {
        if i > 0 {
            text.append(" ");
        }
        text.append(parts[i].as_str());
        proof {
            assert(views.take(i + 1).drop_last() =~= views.take(i as int));
        }
        i += 1;
    }
    proof {
        assert(views.take(i as int) =~= views);
    }
    text
}

/// The text of a TXT record.
pub fn txt_text(chunks: &Vec<Vec<u8>>) -> (text: String)
    ensures
        text@ == txt_text_of(chunks@.map_values(|c: Vec<u8>| c@)),
{
    let ghost decoded = chunks@.map_values(|c: Vec<u8>| c@).map_values(|c: Seq<u8>| utf8_lossy(c));
    let mut parts: Vec<String> = Vec::new();
    let mut i: usize = 0;
    while i < chunks.len()
        invariant
            i <= chunks.len(),
            decoded == chunks@.map_values(|c: Vec<u8>| c@).map_values(|c: Seq<u8>| utf8_lossy(c)),
            text_views(parts@) == decoded.take(i as int),
        decreases chunks.len() - i,
    {
        let ghost before = text_views(parts@);
        parts.push(lossy_text(&chunks[i]));
        proof {
            assert(text_views(parts@) =~= before.push(decoded[i as int]));
            assert(before.push(decoded[i as int]) =~= decoded.take(i + 1));
        }
        i += 1;
    }
    proof {
        assert(decoded.take(i as int) =~= decoded);
    }
    join_with_spaces(&parts)
}

/// The line for a record, without a line feed.
pub fn record_line(record: &DnsRecord) -> (line: String)
    ensures
        line@ == record_line_of(record@),
{
    match record {
        DnsRecord::A(address) => {
            let mut line = "A Record: ".to_owned();
            line.append(address.as_str());
            line
        },
        DnsRecord::AAAA(address) => {
            let mut line = "AAAA Record: ".to_owned();
            line.append(address.as_str());
            line
        },
        DnsRecord::MX { preference, exchange } => {
            let mut line = "MX Record: ".to_owned();
            let priority = decimal(*preference);
            line.append(exchange.as_str());
            line.append(" (priority: ");
            line.append(priority.as_str());
            line.append(")");
            line
        },
        DnsRecord::TXT(chunks) => {
            let mut line = "TXT Record: ".to_owned();
            let text = txt_text(chunks);
            line.append(text.as_str());
            line
        },
        DnsRecord::NS(name) => {
            let mut line = "NS Record: ".to_owned();
            line.append(name.as_str());
            line
        },
        DnsRecord::CNAME(name) => {
            let mut line = "CNAME Record: ".to_owned();
            line.append(name.as_str());
            line
        },
        DnsRecord::Other(shown) => {
            let mut line = "Other Record: ".to_owned();
            line.append(shown.as_str());
            line
        },
    }
}

/// Lays out the display of an answer under a title as it is to be shown.
pub fn dns_layout(title: &str, records: &Vec<DnsRecord>) -> (text: String)
    ensures
        text@ == dns_display_of(title@, record_views(records@)),
{
    proof {
        reveal_strlit("\n");
    }
    let ghost views = record_views(records@);
    let rule = rule();
    let mut text = title.to_owned();
    text.append("\n");
    text.append(rule.as_str());
    text.append("\n");
    let ghost head = text@;
    let mut i: usize = 0;
    while i < records.len()
        invariant
            i <= records.len(),
            views == record_views(records@),
            head == title@ + seq!['\n'] + rule_of() + seq!['\n'],
            text@ == head + record_lines_of(views.take(i as int)),
            "\n"@ == seq!['\n'],
        decreases records.len() - i,
    {
        let line = record_line(&records[i]);
        text.append(line.as_str());
        text.append("\n");
        proof {
            assert(views.take(i + 1).drop_last() =~= views.take(i as int));
        }
        i += 1;
    }
    proof {
        assert(views.take(i as int) =~= views);
    }
    text
}

/// The display of an answer in plain text.
pub fn present_dns(records: &Vec<DnsRecord>) -> (text: String)
    ensures
        text@ == dns_display_of(DNS_TITLE@, record_views(records@)),
{
    dns_layout(DNS_TITLE, records)
}

proof fn lemma_dns_title_has_no_escape()
    ensures
        !DNS_TITLE@.contains(ESCAPE),
{
    reveal_strlit("DNS Records:");
}

/// The display of an answer for a terminal: the title in bold green where
/// colours are on, plain where they are off, in one of the forms that
/// [`shows`] allows; the records whatever the colours do.
pub fn present_dns_colored(records: &Vec<DnsRecord>) -> (text: String)
    ensures
        exists|title: Seq<char>|
            {
                &&& text@ == #[trigger] dns_display_of(title, record_views(records@))
                &&& shows(title, DNS_TITLE@, bold_green())
            },
{
    proof {
        lemma_dns_title_has_no_escape();
    }
    let title = green_bold(DNS_TITLE);
    dns_layout(title.as_str(), records)
}

} // verus!
