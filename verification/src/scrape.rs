//! One scrape from its first request to its outcome, as a machine that is
//! told how each request went and says what to do next.

use crate::decimal::signed_decimal;
use crate::error::{
    status_is_failure, ErrorCategory, ScrapeError, ScrapeErrorView, TransportFailure,
    TransportFailureView,
};
use crate::metrics::TrafficStatistics;
use crate::modem::{request, Method, Modem, Request, RequestView, SessionView};
use crate::reply::{body_envelope, body_session, decode_session, decode_statistics, Envelope};
use vstd::prelude::*;

verus! {

/// What came back for a request that was sent.
#[derive(Clone, Debug, PartialEq, Eq)]
pub struct HttpReply {
    pub status: u16,
    pub body: Vec<u8>,
}

/// How a request went.
#[derive(Clone, Debug, PartialEq, Eq)]
pub enum Exchange {
    /// The device answered.
    Reply(HttpReply),
    /// No answer could be had; `detail` is the transport's account of it.
    Unreachable { detail: String },
}

pub enum ExchangeView {
    Reply { status: u16, body: Seq<u8> },
    Unreachable { detail: Seq<char> },
}

impl View for Exchange {
    type V = ExchangeView;

    open spec fn view(&self) -> ExchangeView {
        match *self {
            Exchange::Reply(reply) => ExchangeView::Reply { status: reply.status, body: reply.body@ },
            Exchange::Unreachable { detail } => ExchangeView::Unreachable { detail: detail@ },
        }
    }
}

/// Which reply a scrape is waiting for.
#[derive(Clone, Copy, Debug, PartialEq, Eq, Structural)]
pub enum Phase {
    AwaitingSession,
    AwaitingStatistics,
}

/// A scrape under way: it has sent a request and waits to be told how that
/// went. A scrape that has delivered or failed is no more.
#[derive(Clone, Debug, PartialEq, Eq)]
pub struct Scrape {
    modem: Modem,
    phase: Phase,
}

pub struct ScrapeView {
    pub session: Option<SessionView>,
    pub phase: Phase,
}

impl View for Scrape {
    type V = ScrapeView;

    closed spec fn view(&self) -> ScrapeView {
        ScrapeView { session: self.modem@, phase: self.phase }
    }
}

/// What a scrape comes to when it is told how its request went.
#[derive(Clone, Debug, PartialEq, Eq)]
pub enum Action {
    /// The scrape goes on: send this request and tell the scrape how it
    /// went.
    Send { scrape: Scrape, request: Request },
    /// The scrape has succeeded with these counters.
    Deliver(TrafficStatistics),
    /// The scrape has failed.
    Fail(ScrapeError),
}

pub enum ActionView {
    Send { scrape: ScrapeView, request: RequestView },
    Deliver(TrafficStatistics),
    Fail(ScrapeErrorView),
}

impl View for Action {
    type V = ActionView;

    open spec fn view(&self) -> ActionView {
        match *self {
            Action::Send { scrape, request } => ActionView::Send {
                scrape: scrape@,
                request: request@,
            },
            Action::Deliver(stats) => ActionView::Deliver(stats),
            Action::Fail(error) => ActionView::Fail(error@),
        }
    }
}

/// The body of a reply with a status of success, or the failure of the
/// transport: the device was not reached, or it answered with any other
/// status.
pub open spec fn received(exchange: ExchangeView) -> Result<Seq<u8>, ScrapeErrorView> {
    match exchange {
        ExchangeView::Unreachable { detail } => Err(
            ScrapeErrorView::Transport(TransportFailureView::Unreachable { detail }),
        ),
        ExchangeView::Reply { status, body } => if status_is_failure(status) {
            Err(ScrapeErrorView::Transport(TransportFailureView::Status { code: status }))
        } else {
            Ok(body)
        },
    }
}

pub open spec fn session_path() -> Seq<char> {
    "/api/webserver/SesTokInfo"@
}

pub open spec fn statistics_path() -> Seq<char> {
    "/api/monitoring/traffic-statistics"@
}

/// The first request of a scrape: the session call, under the session that
/// the client holds, if any.
pub open spec fn first_request(session: Option<SessionView>) -> RequestView {
    request(Method::Get, session_path(), session, None)
}

/// What a scrape comes to when it is told how its request went.
///
/// While it waits for the session, a reply that holds one makes it the
/// client's session, and the scrape goes on with the statistics call under
/// it. While it waits for the statistics, a reply that holds them delivers
/// them, and a reply that holds the device's own failure fails with its code
/// and message. A failure of the transport or a body that cannot be read
/// fails the scrape where it stands.
pub open spec fn next(scrape: ScrapeView, exchange: ExchangeView) -> ActionView {
    match received(exchange) {
        Err(error) => ActionView::Fail(error),
        Ok(body) => match scrape.phase {
            Phase::AwaitingSession => match body_session(body) {
                Some(session) => ActionView::Send {
                    scrape: ScrapeView { session: Some(session), phase: Phase::AwaitingStatistics },
                    request: request(Method::Get, statistics_path(), Some(session), None),
                },
                None => ActionView::Fail(ScrapeErrorView::Parse),
            },
            Phase::AwaitingStatistics => match body_envelope(body) {
                Some(Envelope::Response(stats)) => ActionView::Deliver(stats),
                Some(Envelope::Error { code, message }) => ActionView::Fail(
                    ScrapeErrorView::Api { code, message },
                ),
                None => ActionView::Fail(ScrapeErrorView::Parse),
            },
        },
    }
}

/// The answer to whoever asked for the metrics.
#[derive(Clone, Debug, PartialEq, Eq)]
pub struct HttpResponse {
    pub status: u16,
    pub body: String,
}

/// The body of the answer: the metrics text, or the account of the failure.
pub open spec fn response_body(outcome: Result<Seq<char>, ScrapeErrorView>) -> Seq<char> {
    match outcome {
        Ok(text) => text,
        Err(error) => error.description(),
    }
}

/// The view of a scrape's outcome.
pub open spec fn outcome_view(outcome: Result<String, ScrapeError>) -> Result<
    Seq<char>,
    ScrapeErrorView,
> {
    match outcome {
        Ok(text) => Ok(text@),
        Err(error) => Err(error@),
    }
}

/// Splits how a request went into the body to read and the failure of the
/// transport.
pub fn receive(exchange: Exchange) -> (r: Result<Vec<u8>, ScrapeError>)
    ensures
        match r {
            Ok(body) => received(exchange@) == Ok::<Seq<u8>, ScrapeErrorView>(body@),
            Err(error) => received(exchange@) == Err::<Seq<u8>, ScrapeErrorView>(error@),
        },
{
    match exchange {
        Exchange::Unreachable { detail } => Err(
            ScrapeError::Transport(TransportFailure::Unreachable { detail }),
        ),
        Exchange::Reply(reply) => {
            if 200 <= reply.status && reply.status < 300 {
                Ok(reply.body)
            } else {
                Err(ScrapeError::Transport(TransportFailure::Status { code: reply.status }))
            }
        },
    }
}

impl Modem {
    /// Begins a scrape with this client: the scrape waits for the session,
    /// and the request to send first is the session call.
    pub fn gather_statistics(self) -> (r: (Scrape, Request))
        ensures
            r.0@ == (ScrapeView { session: self@, phase: Phase::AwaitingSession }),
            r.1@ == first_request(self@),
    {
        let first = self.get("/api/webserver/SesTokInfo");
        (Scrape { modem: self, phase: Phase::AwaitingSession }, first)
    }
}

impl Scrape {
    /// Which reply the scrape is waiting for.
    pub fn phase(&self) -> (r: Phase)
        ensures
            r == self@.phase,
    {
        self.phase
    }

    /// The client that the scrape runs with.
    pub fn modem(&self) -> (r: &Modem)
        ensures
            r@ == self@.session,
    {
        &self.modem
    }

    /// Takes how the request went and says what the scrape comes to.
    pub fn step(self, exchange: Exchange) -> (r: Action)
        ensures
            r@ == next(self@, exchange@),
    {
        let body = match receive(exchange) {
            Ok(body) => body,
            Err(error) => {
                return Action::Fail(error);
            },
        };
        match self.phase {
            Phase::AwaitingSession => match decode_session(body.as_slice()) {
                Ok(session) => {
                    let mut modem = self.modem;
                    modem.open_session(session);
                    let request = modem.get("/api/monitoring/traffic-statistics");
                    Action::Send {
                        scrape: Scrape { modem, phase: Phase::AwaitingStatistics },
                        request,
                    }
                },
                Err(error) => Action::Fail(error),
            },
            Phase::AwaitingStatistics => match decode_statistics(body.as_slice()) {
                Ok(reply) => match reply.ok() {
                    Ok(stats) => Action::Deliver(stats),
                    Err(error) => Action::Fail(error),
                },
                Err(error) => Action::Fail(error),
            },
        }
    }
}

/// Begins a scrape with a new client, which holds no session. The request to
/// send first is the session call without any header.
pub fn gather_metrics() -> (r: Result<(Scrape, Request), ScrapeError>)
    ensures
        r is Ok,
        r->Ok_0.0@ == (ScrapeView { session: None, phase: Phase::AwaitingSession }),
        r->Ok_0.1@ == first_request(None),
        r->Ok_0.1@.headers.len() == 0,
{
    match Modem::new() {
        Ok(modem) => Ok(modem.gather_statistics()),
        Err(error) => Err(error),
    }
}

/// The answer to a request for the metrics: always with status 200, and with
/// the metrics text or the account of the failure as its body.
pub fn respond(outcome: Result<String, ScrapeError>) -> (r: HttpResponse)
    ensures
        r.status == 200,
        r.body@ == response_body(outcome_view(outcome)),
{
    match outcome {
        Ok(text) => HttpResponse { status: 200, body: text },
        Err(error) => HttpResponse { status: 200, body: error.describe() },
    }
}

/// A scrape sends at most two requests. The second is the statistics call:
/// it is sent only when the session call's reply held a session, under that
/// session, and whatever comes back for it ends the scrape.
pub proof fn lemma_statistics_call_follows_session(
    scrape: ScrapeView,
    exchange: ExchangeView,
    later: ExchangeView,
)
    ensures
        match next(scrape, exchange) {
            ActionView::Send { scrape: after, request: second } => {
                &&& scrape.phase == Phase::AwaitingSession
                &&& received(exchange) is Ok
                &&& body_session(received(exchange)->Ok_0) == after.session
                &&& after.session is Some
                &&& after.phase == Phase::AwaitingStatistics
                &&& second == request(Method::Get, statistics_path(), after.session, None)
                &&& second.headers.len() == 2
                &&& !(next(after, later) is Send)
            },
            _ => true,
        },
{
}

/// A session reply whose body holds no session fails the scrape with a parse
/// failure; the scrape does not go on, so no statistics call is sent.
pub proof fn lemma_malformed_session_fails(session: Option<SessionView>, status: u16, body: Seq<u8>)
    requires
        !status_is_failure(status),
        body_session(body) is None,
    ensures
        ({
            let scrape = ScrapeView { session, phase: Phase::AwaitingSession };
            let action = next(scrape, ExchangeView::Reply { status, body });
            &&& action == ActionView::Fail(ScrapeErrorView::Parse)
            &&& action->Fail_0.category() == ErrorCategory::Parse
        }),
{
}

/// A reply in which the device reports a failure of its own fails the scrape
/// with that code and message, and both stand in the account of the failure.
pub proof fn lemma_device_failure_is_shown(
    session: Option<SessionView>,
    status: u16,
    body: Seq<u8>,
    code: i32,
    message: Seq<char>,
)
    requires
        !status_is_failure(status),
        body_envelope(body) == Some(Envelope::Error { code, message }),
    ensures
        ({
            let scrape = ScrapeView { session, phase: Phase::AwaitingStatistics };
            let action = next(scrape, ExchangeView::Reply { status, body });
            &&& action == ActionView::Fail(ScrapeErrorView::Api { code, message })
            &&& action->Fail_0.category() == ErrorCategory::Api
            &&& action->Fail_0.description() == "api error: code="@ + signed_decimal(code as int)
                + " message="@ + message
        }),
{
}

/// Where the device is not reached, the scrape fails with a failure of the
/// transport, and the answer that shows it has the account of the failure
/// as its body. A reply with a status other than one of success fails it
/// likewise, whatever its body holds.
pub proof fn lemma_transport_failure_fails(scrape: ScrapeView, detail: Seq<char>, status: u16, body: Seq<u8>)
    ensures
        ({
            let action = next(scrape, ExchangeView::Unreachable { detail });
            &&& action == ActionView::Fail(
                ScrapeErrorView::Transport(TransportFailureView::Unreachable { detail }),
            )
            &&& action->Fail_0.category() == ErrorCategory::Transport
            &&& response_body(Err(action->Fail_0)) == "transport error: "@ + detail
        }),
        status_is_failure(status) ==> ({
            let action = next(scrape, ExchangeView::Reply { status, body });
            &&& action == ActionView::Fail(
                ScrapeErrorView::Transport(TransportFailureView::Status { code: status }),
            )
            &&& action->Fail_0.category() == ErrorCategory::Transport
        }),
{
}

} // verus!
