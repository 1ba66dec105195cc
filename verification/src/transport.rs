//! What is sent to a WHOIS server and how the outcome of an exchange is
//! judged. The exchange itself, over TCP, is the caller's part.

use crate::registry::{ServerEntry, ServerEntryView};
use crate::text::{blank, is_blank};
use vstd::prelude::*;
use vstd::string::*;

verus! {

/// The TCP port of the WHOIS service.
pub const WHOIS_PORT: u16 = 43;

/// The time allowed for a read and for a write, in seconds.
pub const TIMEOUT_SECS: u64 = 10;

/// The host of the root authority, asked where no other server answers.
pub const FALLBACK_HOST: &'static str = "whois.iana.org";

/// The step of an exchange at which the connection failed.
#[derive(Clone, Copy, Debug, PartialEq, Eq, Structural)]
pub enum Stage {
    /// Resolving the server's name, connecting, or preparing the connection.
    Connect,
    /// Writing the query line.
    Write,
    /// Reading the answer until the server closes the connection.
    Read,
}

/// Why an exchange with one server gave no answer. The text in a variant is
/// the cause as the system reported it.
#[derive(Clone, Debug, PartialEq, Eq)]
pub enum TransportError {
    /// The connection was refused, the host is unknown, or connecting took
    /// too long.
    Connect(String),
    /// The write stalled for longer than the time allowed.
    Timeout(String),
    /// The query line could not be written in full.
    Write(String),
    /// The answer could not be read to its end.
    Read(String),
    /// The server closed the connection and sent nothing but whitespace.
    EmptyResponse,
}

/// A [`TransportError`] as character sequences.
pub enum TransportErrorView {
    Connect(Seq<char>),
    Timeout(Seq<char>),
    Write(Seq<char>),
    Read(Seq<char>),
    EmptyResponse,
}

impl View for TransportError {
    type V = TransportErrorView;

    open spec fn view(&self) -> TransportErrorView {
        match self {
            TransportError::Connect(detail) => TransportErrorView::Connect(detail@),
            TransportError::Timeout(detail) => TransportErrorView::Timeout(detail@),
            TransportError::Write(detail) => TransportErrorView::Write(detail@),
            TransportError::Read(detail) => TransportErrorView::Read(detail@),
            TransportError::EmptyResponse => TransportErrorView::EmptyResponse,
        }
    }
}

/// The error for a failure at `stage`. A failure to connect is a connect
/// error whatever caused it; a write that ran out of time is a timeout; a
/// read that failed is a read error, out of time or not.
pub open spec fn failure_of(stage: Stage, timed_out: bool, detail: Seq<char>) -> TransportErrorView {
    match stage {
        Stage::Connect => TransportErrorView::Connect(detail),
        Stage::Write => if timed_out {
            TransportErrorView::Timeout(detail)
        } else {
            TransportErrorView::Write(detail)
        },
        Stage::Read => TransportErrorView::Read(detail),
    }
}

/// What an error says of itself.
pub open spec fn message_of(error: TransportErrorView) -> Seq<char> {
    match error {
        TransportErrorView::Connect(detail) => detail,
        TransportErrorView::Timeout(detail) => detail,
        TransportErrorView::Write(detail) => detail,
        TransportErrorView::Read(detail) => detail,
        TransportErrorView::EmptyResponse => "Empty response from server"@,
    }
}

/// The line sent for `target` to a server that wants `prefix` before it.
pub open spec fn query_line_of(prefix: Seq<char>, target: Seq<char>) -> Seq<char> {
    prefix + target + seq!['\r', '\n']
}

/// How an exchange ended, given all the text that arrived before the server
/// closed the connection: a blank text is no answer.
pub open spec fn judged(received: Seq<char>) -> Result<Seq<char>, TransportErrorView> {
    if is_blank(received) {
        Err(TransportErrorView::EmptyResponse)
    } else {
        Ok(received)
    }
}

/// The error for a failure at `stage` of an exchange.
pub fn transport_failure(stage: Stage, timed_out: bool, detail: String) -> (error: TransportError)
    ensures
        error@ == failure_of(stage, timed_out, detail@),
{
    match stage {
        Stage::Connect => TransportError::Connect(detail),
        Stage::Write => if timed_out {
            TransportError::Timeout(detail)
        } else {
            TransportError::Write(detail)
        },
        Stage::Read => TransportError::Read(detail),
    }
}

impl TransportError {
    /// The cause, as a text for the user.
    pub fn message(&self) -> (text: String)
        ensures
            text@ == message_of(self@),
    {
        match self {
            TransportError::Connect(detail) => detail.clone(),
            TransportError::Timeout(detail) => detail.clone(),
            TransportError::Write(detail) => detail.clone(),
            TransportError::Read(detail) => detail.clone(),
            TransportError::EmptyResponse => "Empty response from server".to_owned(),
        }
    }
}

/// The line to send for `target`: the prefix, the target, then CR and LF.
pub fn query_line(prefix: &str, target: &str) -> (line: String)
    ensures
        line@ == query_line_of(prefix@, target@),
{
    proof {
        reveal_strlit("\r\n");
    }
    let mut line = prefix.to_owned();
    line.append(target);
    line.append("\r\n");
    line
}

/// Judges the text that arrived before the server closed the connection. A
/// text that is empty once the whitespace around it is trimmed is an error,
/// not an empty answer; any other text is the answer, kept as it arrived.
pub fn complete_exchange(received: String) -> (outcome: Result<String, TransportError>)
    ensures
        match outcome {
            Ok(body) => body == received && judged(received@) == Ok::<
                Seq<char>,
                TransportErrorView,
            >(received@),
            Err(error) => judged(received@) == Err::<Seq<char>, TransportErrorView>(error@),
        },
        received@.len() == 0 ==> outcome is Err,
{
    if blank(received.as_str()) {
        Err(TransportError::EmptyResponse)
    } else {
        Ok(received)
    }
}

/// One question to one server.
#[derive(Clone, Debug, PartialEq, Eq)]
pub struct WhoisQuery {
    /// The server to connect to, on [`WHOIS_PORT`].
    pub host: String,
    /// The line to write, CR and LF included.
    pub raw_query_line: String,
}

/// A [`WhoisQuery`] as character sequences.
pub struct WhoisQueryView {
    pub host: Seq<char>,
    pub raw_query_line: Seq<char>,
}

impl View for WhoisQuery {
    type V = WhoisQueryView;

    open spec fn view(&self) -> WhoisQueryView {
        WhoisQueryView { host: self.host@, raw_query_line: self.raw_query_line@ }
    }
}

/// The question that `entry` stands for: its host, and its prefix before
/// the target.
pub open spec fn query_for(entry: ServerEntryView, target: Seq<char>) -> WhoisQueryView {
    WhoisQueryView { host: entry.host, raw_query_line: query_line_of(entry.query_prefix, target) }
}

/// The question for the root authority: the bare target, whatever prefix
/// another server wanted.
pub open spec fn fallback_query(target: Seq<char>) -> WhoisQueryView {
    WhoisQueryView { host: FALLBACK_HOST@, raw_query_line: query_line_of(Seq::empty(), target) }
}

impl WhoisQuery {
    /// The question for the server of `entry`.
    pub fn for_entry(entry: &ServerEntry, target: &str) -> (query: WhoisQuery)
        ensures
            query@ == query_for(entry@, target@),
    {
        WhoisQuery {
            host: entry.host.clone(),
            raw_query_line: query_line(entry.query_prefix.as_str(), target),
        }
    }

    /// The question for the root authority.
    pub fn fallback(target: &str) -> (query: WhoisQuery)
        ensures
            query@ == fallback_query(target@),
    {
        proof {
            reveal_strlit("");
        }
        WhoisQuery { host: FALLBACK_HOST.to_owned(), raw_query_line: query_line("", target) }
    }
}

} // verus!
