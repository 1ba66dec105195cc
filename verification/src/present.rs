//! The display of a WHOIS answer: a title, a rule, the server that
//! answered, a rule again, and the answer as it arrived.

use crate::resolver::{WhoisResult, WhoisResultView};
use crate::style::{blue, bold_green, green_bold, plain_blue, shows, ESCAPE};
use vstd::prelude::*;
use vstd::string::*;

verus! {

/// The title above a WHOIS answer.
pub const WHOIS_TITLE: &'static str = "WHOIS Information:";

/// How many dashes make a rule.
pub const RULE_WIDTH: usize = 50;

/// A rule: a line of dashes.
pub open spec fn rule_of() -> Seq<char> {
    Seq::new(RULE_WIDTH as nat, |i: int| '-')
}

/// The line that names the server.
pub open spec fn server_line_of(server: Seq<char>) -> Seq<char> {
    "Server used: "@ + server
}

/// The whole display, each line ended by a line feed. `title` and `server`
/// stand as they are to be shown, coloured or not; `body` is the answer,
/// verbatim.
pub open spec fn display_of(title: Seq<char>, server: Seq<char>, body: Seq<char>) -> Seq<char> {
    title + seq!['\n'] + rule_of() + seq!['\n'] + server_line_of(server) + seq!['\n'] + rule_of()
        + seq!['\n'] + body + seq!['\n']
}

/// The plain display of a result.
pub open spec fn plain_display_of(result: WhoisResultView) -> Seq<char> {
    display_of(WHOIS_TITLE@, result.responding_server, result.body)
}

/// A rule, without a line feed.
pub fn rule() -> (line: String)
    ensures
        line@ == rule_of(),
{
    proof {
        reveal_strlit("-");
    }
    let mut line = String::new();
    let mut i: usize = 0;
    while i < RULE_WIDTH
        invariant
            i <= RULE_WIDTH,
            line@ == Seq::new(i as nat, |k: int| '-'),
            "-"@ == seq!['-'],
        decreases RULE_WIDTH - i,
    {
        line.append("-");
        i += 1;
    }
    line
}

/// The line that names the server, without a line feed.
pub fn server_line(server: &str) -> (line: String)
    ensures
        line@ == server_line_of(server@),
{
    let mut line = "Server used: ".to_owned();
    line.append(server);
    line
}

/// Lays out a display from the title and the server as they are to be
/// shown and the answer.
pub fn layout(title: &str, server: &str, body: &str) -> (text: String)
    ensures
        text@ == display_of(title@, server@, body@),
{
    proof {
        reveal_strlit("\n");
    }
    let rule = rule();
    let server_line = server_line(server);
    let mut text = title.to_owned();
    text.append("\n");
    text.append(rule.as_str());
    text.append("\n");
    text.append(server_line.as_str());
    text.append("\n");
    text.append(rule.as_str());
    text.append("\n");
    text.append(body);
    text.append("\n");
    text
}

/// The display of a result in plain text.
pub fn present(result: &WhoisResult) -> (text: String)
    ensures
        text@ == plain_display_of(result@),
{
    layout(WHOIS_TITLE, result.responding_server.as_str(), result.body.as_str())
}

proof fn lemma_title_has_no_escape()
    ensures
        !WHOIS_TITLE@.contains(ESCAPE),
{
    reveal_strlit("WHOIS Information:");
}

/// The display of a result for a terminal: the title in bold green and the
/// server in blue where colours are on, plain where they are off, each in
/// one of the forms that [`shows`] allows. The answer stands verbatim
/// whatever the colours do.
pub fn present_colored(result: &WhoisResult) -> (text: String)
    ensures
        exists|title: Seq<char>, server: Seq<char>|
            {
                &&& text@ == #[trigger] display_of(title, server, result@.body)
                &&& shows(title, WHOIS_TITLE@, bold_green())
                &&& !result@.responding_server.contains(ESCAPE) ==> shows(
                    server,
                    result@.responding_server,
                    plain_blue(),
                )
            },
{
    proof {
        lemma_title_has_no_escape();
    }
    let title = green_bold(WHOIS_TITLE);
    let server = blue(result.responding_server.as_str());
    let text = layout(title.as_str(), server.as_str(), result.body.as_str());
    assert(text@ == display_of(title@, server@, result@.body));
    text
}

} // verus!
