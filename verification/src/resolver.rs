//! The resolution of one target: the server for its top-level domain first,
//! then the root authority, and never more than these two.
//!
//! The resolver is a state machine. [`begin`] gives the first question; the
//! caller performs the exchange and hands its outcome to
//! [`Pending::advance`], which answers with the result, the failure, or the
//! one further question to ask.

use crate::registry::{builtin_entries, lookup_entry, Registry, ServerEntryView};
use crate::tld::{get_tld, tld_of};
use crate::transport::{
    complete_exchange, failure_of, fallback_query, judged, message_of, query_for, Stage,
    TransportError, TransportErrorView, WhoisQuery, WhoisQueryView, FALLBACK_HOST,
};
use vstd::prelude::*;
use vstd::string::*;

verus! {

/// The answer to a resolution.
#[derive(Clone, Debug, PartialEq, Eq)]
pub struct WhoisResult {
    /// The host of the server that gave the answer.
    pub responding_server: String,
    /// All the text that it sent, untrimmed.
    pub body: String,
}

/// A [`WhoisResult`] as character sequences.
pub struct WhoisResultView {
    pub responding_server: Seq<char>,
    pub body: Seq<char>,
}

impl View for WhoisResult {
    type V = WhoisResultView;

    open spec fn view(&self) -> WhoisResultView {
        WhoisResultView { responding_server: self.responding_server@, body: self.body@ }
    }
}

/// The failure of a resolution: no server gave an answer.
#[derive(Clone, Debug, PartialEq, Eq)]
pub struct ResolutionError {
    /// Why the last server asked, the root authority, gave none.
    pub cause: TransportError,
}

/// A [`ResolutionError`] as character sequences.
pub struct ResolutionErrorView {
    pub cause: TransportErrorView,
}

impl View for ResolutionError {
    type V = ResolutionErrorView;

    open spec fn view(&self) -> ResolutionErrorView {
        ResolutionErrorView { cause: self.cause@ }
    }
}

/// Which of the two attempts a question belongs to.
#[derive(Clone, Copy, Debug, PartialEq, Eq, Structural)]
pub enum Attempt {
    /// The server that the registry names for the target's top-level domain.
    Specific,
    /// The root authority.
    Fallback,
}

/// A resolution that waits for the outcome of one exchange.
#[derive(Clone, Debug, PartialEq, Eq)]
pub struct Pending {
    /// The target, as the caller gave it.
    pub target: String,
    /// The attempt that is under way.
    pub attempt: Attempt,
    /// The question to ask.
    pub query: WhoisQuery,
}

/// A [`Pending`] as character sequences.
pub struct PendingView {
    pub target: Seq<char>,
    pub attempt: Attempt,
    pub query: WhoisQueryView,
}

impl View for Pending {
    type V = PendingView;

    open spec fn view(&self) -> PendingView {
        PendingView { target: self.target@, attempt: self.attempt, query: self.query@ }
    }
}

/// What a resolution does once an exchange has ended.
#[derive(Clone, Debug, PartialEq, Eq)]
pub enum Step {
    /// The specific server gave no answer: `warning` says why, and `next`
    /// holds the question for the root authority.
    Retry { warning: TransportError, next: Pending },
    /// The resolution has its answer.
    Done(WhoisResult),
    /// The resolution has failed.
    Failed(ResolutionError),
}

/// A [`Step`] as character sequences.
pub enum StepView {
    Retry { warning: TransportErrorView, next: PendingView },
    Done(WhoisResultView),
    Failed(ResolutionErrorView),
}

impl View for Step {
    type V = StepView;

    open spec fn view(&self) -> StepView {
        match self {
            Step::Retry { warning, next } => StepView::Retry { warning: warning@, next: next@ },
            Step::Done(result) => StepView::Done(result@),
            Step::Failed(error) => StepView::Failed(error@),
        }
    }
}

/// The outcome of an exchange as the caller saw it: the text that arrived
/// before the server closed the connection, or the failure.
pub open spec fn exchange_view(outcome: Result<String, TransportError>) -> Result<
    Seq<char>,
    TransportErrorView,
> {
    match outcome {
        Ok(received) => Ok(received@),
        Err(error) => Err(error@),
    }
}

/// The outcome of an exchange as the resolver counts it: a blank text is a
/// failure too.
pub open spec fn settled(outcome: Result<Seq<char>, TransportErrorView>) -> Result<
    Seq<char>,
    TransportErrorView,
> {
    match outcome {
        Ok(received) => judged(received),
        Err(error) => Err(error),
    }
}

/// The resolution that asks the root authority about `target`.
pub open spec fn fallback_of(target: Seq<char>) -> PendingView {
    PendingView { target, attempt: Attempt::Fallback, query: fallback_query(target) }
}

/// The entry of `registry` for the top-level domain of `target`, if the
/// target has one and the registry knows it.
pub open spec fn entry_for(registry: Seq<ServerEntryView>, target: Seq<char>) -> Option<
    ServerEntryView,
> {
    match tld_of(target) {
        Some(tld) => lookup_entry(registry, tld),
        None => None,
    }
}

/// How a resolution starts: with the server that `registry` names for the
/// target's top-level domain, or, where it names none, with the root
/// authority at once.
pub open spec fn begin_of(registry: Seq<ServerEntryView>, target: Seq<char>) -> PendingView {
    match entry_for(registry, target) {
        Some(entry) => PendingView {
            target,
            attempt: Attempt::Specific,
            query: query_for(entry, target),
        },
        None => fallback_of(target),
    }
}

/// How a resolution goes on after an exchange. An answer ends it, and names
/// the server that was asked. A failure of the specific server leads to
/// the root authority, once; a failure of the root authority ends it.
pub open spec fn advance_of(
    pending: PendingView,
    outcome: Result<Seq<char>, TransportErrorView>,
) -> StepView {
    match settled(outcome) {
        Ok(body) => StepView::Done(
            WhoisResultView { responding_server: pending.query.host, body },
        ),
        Err(error) => match pending.attempt {
            Attempt::Specific => StepView::Retry {
                warning: error,
                next: fallback_of(pending.target),
            },
            Attempt::Fallback => StepView::Failed(ResolutionErrorView { cause: error }),
        },
    }
}

/// Starts the resolution of `target`.
pub fn begin(registry: &Registry, target: &str) -> (pending: Pending)
    ensures
        pending@ == begin_of(registry@, target@),
{
    let found = match get_tld(target) {
        Some(tld) => registry.lookup(tld),
        None => None,
    };
    match found {
        Some(entry) => Pending {
            target: target.to_owned(),
            attempt: Attempt::Specific,
            query: WhoisQuery::for_entry(entry, target),
        },
        None => Pending {
            target: target.to_owned(),
            attempt: Attempt::Fallback,
            query: WhoisQuery::fallback(target),
        },
    }
}

impl Pending {
    /// Takes the outcome of the exchange for [`Pending::query`] and says how
    /// the resolution goes on.
    pub fn advance(self, outcome: Result<String, TransportError>) -> (step: Step)
        ensures
            step@ == advance_of(self@, exchange_view(outcome)),
    {
        let counted = match outcome {
            Ok(received) => complete_exchange(received),
            Err(error) => Err(error),
        };
        match counted {
            Ok(body) => Step::Done(WhoisResult { responding_server: self.query.host, body }),
            Err(error) => match self.attempt {
                Attempt::Specific => {
                    let query = WhoisQuery::fallback(self.target.as_str());
                    Step::Retry {
                        warning: error,
                        next: Pending { target: self.target, attempt: Attempt::Fallback, query },
                    }
                },
                Attempt::Fallback => Step::Failed(ResolutionError { cause: error }),
            },
        }
    }
}

/// What the user is told when the resolution has failed.
pub open spec fn failure_message_of(error: ResolutionErrorView) -> Seq<char> {
    "WHOIS lookup failed: "@ + message_of(error.cause)
}

/// What the user is told when the specific server gave no answer and the
/// root authority is asked instead.
pub open spec fn fallback_warning_of(warning: TransportErrorView) -> Seq<char> {
    "TLD-specific server failed: "@ + message_of(warning) + ". Trying IANA..."@
}

impl ResolutionError {
    /// The failure, as a text for the user.
    pub fn message(&self) -> (text: String)
        ensures
            text@ == failure_message_of(self@),
    {
        let mut text = "WHOIS lookup failed: ".to_owned();
        let cause = self.cause.message();
        text.append(cause.as_str());
        text
    }
}

/// The warning to show before the root authority is asked.
pub fn fallback_warning(warning: &TransportError) -> (text: String)
    ensures
        text@ == fallback_warning_of(warning@),
{
    let mut text = "TLD-specific server failed: ".to_owned();
    let cause = warning.message();
    text.append(cause.as_str());
    text.append(". Trying IANA...");
    text
}

/// A whole resolution: the questions asked, in order, and how it ended.
pub struct Run {
    pub asked: Seq<WhoisQueryView>,
    pub result: Result<WhoisResultView, ResolutionErrorView>,
}

/// How many further attempts may follow one.
pub open spec fn attempts_after(attempt: Attempt) -> nat {
    match attempt {
        Attempt::Specific => 1,
        Attempt::Fallback => 0,
    }
}

/// The rest of a resolution, from `pending` on, after the questions in
/// `asked`. `network(n, q)` is the outcome of asking `q` as the exchange
/// number `n`, counted from 0.
pub open spec fn run_from(
    pending: PendingView,
    network: spec_fn(int, WhoisQueryView) -> Result<Seq<char>, TransportErrorView>,
    asked: Seq<WhoisQueryView>,
) -> Run
    decreases attempts_after(pending.attempt),
{
    match advance_of(pending, network(asked.len() as int, pending.query)) {
        StepView::Done(result) => Run { asked: asked.push(pending.query), result: Ok(result) },
        StepView::Failed(error) => Run { asked: asked.push(pending.query), result: Err(error) },
        StepView::Retry { warning, next } => run_from(next, network, asked.push(pending.query)),
    }
}

/// The resolution of `target` on a given network, as a caller drives it:
/// [`begin`], then [`Pending::advance`] after each exchange until it says
/// `Done` or `Failed`.
pub open spec fn run(
    registry: Seq<ServerEntryView>,
    target: Seq<char>,
    network: spec_fn(int, WhoisQueryView) -> Result<Seq<char>, TransportErrorView>,
) -> Run {
    run_from(begin_of(registry, target), network, Seq::empty())
}

/// What a resolution that ends with the root authority gives: its answer
/// under the root authority's name, or its failure as the cause.
pub open spec fn fallback_result(outcome: Result<Seq<char>, TransportErrorView>) -> Result<
    WhoisResultView,
    ResolutionErrorView,
> {
    match settled(outcome) {
        Ok(body) => Ok(WhoisResultView { responding_server: FALLBACK_HOST@, body }),
        Err(error) => Err(ResolutionErrorView { cause: error }),
    }
}

/// Where the registry knows the target's top-level domain and its server
/// answers, that server is the only one asked, and the result carries its
/// host and its answer.
pub proof fn lemma_specific_answer_is_final(
    registry: Seq<ServerEntryView>,
    target: Seq<char>,
    network: spec_fn(int, WhoisQueryView) -> Result<Seq<char>, TransportErrorView>,
)
    requires
        entry_for(registry, target) is Some,
        settled(network(0, query_for(entry_for(registry, target)->0, target))) is Ok,
    ensures
        run(registry, target, network).asked == seq![
            query_for(entry_for(registry, target)->0, target),
        ],
        run(registry, target, network).result == Ok::<WhoisResultView, ResolutionErrorView>(
            WhoisResultView {
                responding_server: entry_for(registry, target)->0.host,
                body: settled(network(0, query_for(entry_for(registry, target)->0, target)))->Ok_0,
            },
        ),
{
}

/// Where the target has no top-level domain, or the registry does not know
/// it, the root authority is the only server asked, with the bare target,
/// and its outcome is the outcome of the resolution.
pub proof fn lemma_unknown_tld_asks_root_only(
    registry: Seq<ServerEntryView>,
    target: Seq<char>,
    network: spec_fn(int, WhoisQueryView) -> Result<Seq<char>, TransportErrorView>,
)
    requires
        entry_for(registry, target) is None,
    ensures
        run(registry, target, network).asked == seq![fallback_query(target)],
        run(registry, target, network).result == fallback_result(
            network(0, fallback_query(target)),
        ),
{
}

/// Where the registry knows the target's top-level domain and its server
/// gives no answer, whatever the reason, the root authority is asked next,
/// once and with the bare target, and its outcome is the outcome of the
/// resolution. The specific server is not asked again.
pub proof fn lemma_failure_falls_back_once(
    registry: Seq<ServerEntryView>,
    target: Seq<char>,
    network: spec_fn(int, WhoisQueryView) -> Result<Seq<char>, TransportErrorView>,
)
    requires
        entry_for(registry, target) is Some,
        settled(network(0, query_for(entry_for(registry, target)->0, target))) is Err,
    ensures
        run(registry, target, network).asked == seq![
            query_for(entry_for(registry, target)->0, target),
            fallback_query(target),
        ],
        run(registry, target, network).result == fallback_result(
            network(1, fallback_query(target)),
        ),
{
    let first = begin_of(registry, target);
    let asked = Seq::<WhoisQueryView>::empty().push(first.query);
    let next = fallback_of(target);
    assert(run(registry, target, network) == run_from(next, network, asked));
}

/// A write or a read that ran out of time is such a failure: after it the
/// root authority is asked, once.
pub proof fn lemma_timeout_falls_back_once(
    registry: Seq<ServerEntryView>,
    target: Seq<char>,
    network: spec_fn(int, WhoisQueryView) -> Result<Seq<char>, TransportErrorView>,
    stage: Stage,
    detail: Seq<char>,
)
    requires
        entry_for(registry, target) is Some,
        network(0, query_for(entry_for(registry, target)->0, target)) == Err::<
            Seq<char>,
            TransportErrorView,
        >(failure_of(stage, true, detail)),
    ensures
        run(registry, target, network).asked == seq![
            query_for(entry_for(registry, target)->0, target),
            fallback_query(target),
        ],
{
    lemma_failure_falls_back_once(registry, target, network);
}

/// No resolution asks more than two questions, and a second one goes to
/// the root authority.
pub proof fn lemma_at_most_two_questions(
    registry: Seq<ServerEntryView>,
    target: Seq<char>,
    network: spec_fn(int, WhoisQueryView) -> Result<Seq<char>, TransportErrorView>,
)
    ensures
        1 <= run(registry, target, network).asked.len() <= 2,
        run(registry, target, network).asked.len() == 2 ==> run(
            registry,
            target,
            network,
        ).asked[1] == fallback_query(target),
{
    if entry_for(registry, target) is None {
        lemma_unknown_tld_asks_root_only(registry, target, network);
    } else if settled(network(0, query_for(entry_for(registry, target)->0, target))) is Ok {
        lemma_specific_answer_is_final(registry, target, network);
    } else {
        lemma_failure_falls_back_once(registry, target, network);
    }
}

/// No server of the built-in table is the root authority, so that with it
/// the second question never goes to the server that failed.
pub proof fn lemma_builtin_hosts_are_not_root()
    ensures
        forall|i: int|
            0 <= i < builtin_entries().len() ==> (#[trigger] builtin_entries()[i]).host
                != FALLBACK_HOST@,
{
    reveal_strlit("whois.iana.org");
    reveal_strlit("whois.verisign-grs.com");
    reveal_strlit("whois.pir.org");
    reveal_strlit("whois.educause.edu");
    reveal_strlit("whois.nic.it");
    reveal_strlit("whois.nic.uk");
    reveal_strlit("whois.tcinet.ru");
    reveal_strlit("whois.denic.de");
    reveal_strlit("whois.domain-registry.nl");
    let e = builtin_entries();
    assert(FALLBACK_HOST@.len() == 14 && FALLBACK_HOST@[6] == 'i');
    assert(e[0].host.len() == 22);
    assert(e[1].host.len() == 22);
    assert(e[2].host.len() == 13);
    assert(e[3].host.len() == 18);
    assert(e[4].host.len() == 12);
    assert(e[5].host.len() == 12);
    assert(e[6].host.len() == 15);
    assert(e[7].host[6] == 'd');
    assert(e[8].host.len() == 24);
}

} // verus!
