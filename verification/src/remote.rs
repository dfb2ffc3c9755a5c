//! A client that fetches over HTTPS under one shared rate limit.
//!
//! The client here holds the settings and makes the decisions; it performs
//! no I/O. Each logical request is an [`Exchange`]: the caller sends what
//! the exchange names, reports what came of it as an [`Event`], and does
//! what the exchange answers with, an [`Action`], until that is a return.

use crate::duration::Duration;
use crate::duration::UnixTime;
use crate::retry::is_retried;
use crate::retry::is_throttled;
use crate::retry::max_retry_nanos;
use crate::retry::MAX_RETRY_COUNT;
use crate::retry::RetryState;
use crate::retry::Step;
use crate::retry_after::parse_header_retry_after;
use crate::retry_after::retry_after_asked;
use crate::retry_after::retry_after_delay;
use crate::retry_after::retry_after_values;
use crate::retry_after::span_of;
use reqwest::header::HeaderMap;
use url::Url;
use vstd::prelude::*;

verus! {

/// A URL of the `url` crate. It is carried through as it comes: nothing here
/// looks inside one.
#[verifier::external_type_specification]
#[verifier::external_body]
pub struct ExUrl(url::Url);

/// What every request names as its sender: the product and its version.
pub const USER_AGENT: &'static str = "binstalk/0.1.0";

/// A version of the TLS protocol.
#[derive(Clone, Copy, Debug, PartialEq, Eq, Structural)]
pub enum TlsVersion {
    /// TLS 1.0.
    Tls1_0,
    /// TLS 1.1.
    Tls1_1,
    /// TLS 1.2.
    Tls1_2,
    /// TLS 1.3.
    Tls1_3,
}

impl TlsVersion {
    /// The place of the version among the versions, oldest first.
    pub open spec fn rank(self) -> nat {
        match self {
            TlsVersion::Tls1_0 => 0,
            TlsVersion::Tls1_1 => 1,
            TlsVersion::Tls1_2 => 2,
            TlsVersion::Tls1_3 => 3,
        }
    }
}

/// The oldest TLS version that a client accepts when `asked` for one: the
/// version asked for where it is newer than TLS 1.2, else TLS 1.2.
pub open spec fn min_tls_for(asked: Option<TlsVersion>) -> TlsVersion {
    match asked {
        Some(version) => if version.rank() > TlsVersion::Tls1_2.rank() {
            version
        } else {
            TlsVersion::Tls1_2
        },
        None => TlsVersion::Tls1_2,
    }
}

/// An HTTP request method.
#[derive(Debug, PartialEq, Eq)]
pub enum Method {
    /// OPTIONS
    Options,
    /// GET
    Get,
    /// POST
    Post,
    /// PUT
    Put,
    /// DELETE
    Delete,
    /// HEAD
    Head,
    /// TRACE
    Trace,
    /// CONNECT
    Connect,
    /// PATCH
    Patch,
    /// A method outside the standard ones, by its name.
    Extension(String),
}

/// How the transport under a client is set up.
#[derive(Clone, Copy, Debug, PartialEq, Eq)]
pub struct Transport {
    /// The `User-Agent` sent with every request.
    pub user_agent: &'static str,
    /// Whether requests to anything but `https` are refused.
    pub https_only: bool,
    /// The oldest TLS version accepted.
    pub min_tls: TlsVersion,
    /// Whether sockets have `TCP_NODELAY` set.
    pub tcp_nodelay: bool,
}

/// A budget of requests: so many in every window of time.
#[derive(Clone, Copy, Debug, PartialEq, Eq, Structural)]
pub struct Rate {
    num: u64,
    per: Duration,
}

impl Rate {
    #[verifier::type_invariant]
    spec fn is_positive(self) -> bool {
        self.num > 0 && self.per@ > 0
    }

    /// The requests allowed in one window.
    pub closed spec fn spec_num(self) -> u64 {
        self.num
    }

    /// The length of the window.
    pub closed spec fn spec_per(self) -> Duration {
        self.per
    }

    /// The requests allowed in one window: one at least.
    #[verifier::when_used_as_spec(spec_num)]
    pub fn num(self) -> (num: u64)
        ensures
            num == self.num(),
            num > 0,
    {
        proof {
            use_type_invariant(self);
        }
        self.num
    }

    /// The length of the window: never empty.
    #[verifier::when_used_as_spec(spec_per)]
    pub fn per(self) -> (per: Duration)
        ensures
            per == self.per(),
            per@ > 0,
    {
        proof {
            use_type_invariant(self);
        }
        self.per
    }
}

/// The settings of a client: its transport, and the one budget that all
/// users of the client draw on.
#[derive(Clone, Copy, Debug, PartialEq, Eq)]
pub struct Client {
    client: Transport,
    rate_limit: Rate,
}

/// What a response says, as far as the client reads it.
#[derive(Debug, PartialEq, Eq)]
pub struct Response {
    /// The status code.
    pub status: u16,
    /// The URL that answered, after any redirects.
    pub url: Url,
    /// The headers.
    pub headers: HeaderMap,
}

/// What came of sending a request.
#[derive(Debug, PartialEq, Eq)]
pub enum Event {
    /// A response arrived, with whatever status.
    Response(Response),
    /// The transport failed: no response arrived.
    Failure,
}

/// Why a request failed.
#[derive(Clone, Copy, Debug, PartialEq, Eq, Structural)]
pub enum HttpError {
    /// The transport failed before a response arrived.
    Transport,
    /// The response carried this client or server error status.
    Status(u16),
}

/// A failure of the client, with the request that it came from.
#[derive(Debug, PartialEq, Eq)]
pub enum BinstallError {
    /// An HTTP request failed.
    Http {
        /// The method of the request.
        method: Method,
        /// The URL of the request.
        url: Url,
        /// What went wrong.
        err: HttpError,
    },
}

/// What a logical request is made for.
#[derive(Clone, Copy, Debug, PartialEq, Eq, Structural)]
pub enum Purpose {
    /// To learn whether something answers at the URL.
    Exists,
    /// To learn where redirects lead from the URL.
    FinalUrl,
    /// To read what is at the URL.
    Download,
}

/// What a logical request found out.
#[derive(Debug, PartialEq, Eq)]
pub enum Answer {
    /// Whether the final status was a success.
    Exists(bool),
    /// The URL that answered in the end.
    FinalUrl(Url),
    /// The body of the final response is ready to be read.
    Body,
}

/// One logical request: what to send, and how often it has been retried.
#[derive(Debug, PartialEq, Eq)]
pub struct Exchange {
    /// The method to send.
    pub method: Method,
    /// The URL to send to.
    pub url: Url,
    /// Whether a client or server error status fails the request.
    pub error_for_status: bool,
    /// What the request is made for.
    pub purpose: Purpose,
    /// The retries made so far.
    pub retries: RetryState,
}

/// What to do next for a logical request.
#[derive(Debug, PartialEq, Eq)]
pub enum Action {
    /// Wait this long, then send the request again and go on with the
    /// exchange given.
    Retry(Duration, Exchange),
    /// The request is over, with this result.
    Return(Result<Answer, BinstallError>),
}

/// The status is a success: 200 to 299.
pub open spec fn is_success(status: u16) -> bool {
    200 <= status < 300
}

/// The status is a client or server error: 400 to 599.
pub open spec fn is_error_status(status: u16) -> bool {
    400 <= status < 600
}

/// Whether `status` is a success.
pub fn status_is_success(status: u16) -> (yes: bool)
    ensures
        yes == is_success(status),
{
    200 <= status && status < 300
}

/// Whether `status` is a client or server error.
pub fn status_is_error(status: u16) -> (yes: bool)
    ensures
        yes == is_error_status(status),
{
    400 <= status && status < 600
}

impl Client {
    /// The settings of the transport, for use in specifications.
    pub closed spec fn inner(&self) -> Transport {
        self.client
    }

    /// The budget of requests, for use in specifications.
    pub closed spec fn spec_rate(&self) -> Rate {
        self.rate_limit
    }

    /// A client that allows `num_request` requests in every window of
    /// length `per`. Its transport speaks HTTPS only, names [`USER_AGENT`],
    /// leaves `TCP_NODELAY` off, and accepts no TLS older than 1.2, or than
    /// `min_tls` where that is newer.
    pub fn new(min_tls: Option<TlsVersion>, per: Duration, num_request: u64) -> (client: Client)
        requires
            per@ > 0,
            num_request > 0,
        ensures
            client.inner().user_agent == USER_AGENT,
            client.inner().https_only,
            !client.inner().tcp_nodelay,
            client.inner().min_tls == min_tls_for(min_tls),
            client.rate().num() == num_request,
            client.rate().per() == per,
    {
        let floor: TlsVersion = match min_tls {
            Some(TlsVersion::Tls1_3) => TlsVersion::Tls1_3,
            _ => TlsVersion::Tls1_2,
        };
        Client {
            client: Transport {
                user_agent: USER_AGENT,
                https_only: true,
                min_tls: floor,
                tcp_nodelay: false,
            },
            rate_limit: Rate { num: num_request, per },
        }
    }

    /// The settings of the transport.
    pub fn get_inner(&self) -> (transport: &Transport)
        ensures
            *transport == self.inner(),
    {
        &self.client
    }

    /// The budget of requests that all users of the client share.
    #[verifier::when_used_as_spec(spec_rate)]
    pub fn rate(&self) -> (rate: Rate)
        ensures
            rate == self.rate(),
    {
        self.rate_limit
    }

    /// Begins a logical request that has not been retried.
    fn send_request(&self, method: Method, url: Url, error_for_status: bool, purpose: Purpose) -> (exchange: Exchange)
        ensures
            exchange.method == method,
            exchange.url == url,
            exchange.error_for_status == error_for_status,
            exchange.purpose == purpose,
            exchange.retries@ == 0,
    {
        Exchange { method, url, error_for_status, purpose, retries: RetryState::new() }
    }

    /// Begins a request that finds out whether something answers `method`
    /// at `url`. No status fails it: the answer is whether the final status
    /// is a success.
    pub fn remote_exists(&self, url: Url, method: Method) -> (exchange: Exchange)
        ensures
            exchange.method == method,
            exchange.url == url,
            !exchange.error_for_status,
            exchange.purpose == Purpose::Exists,
            exchange.retries@ == 0,
    {
        self.send_request(method, url, false, Purpose::Exists)
    }

    /// Begins a HEAD request that finds out where redirects lead from
    /// `url`. An error status fails it.
    pub fn get_redirected_final_url(&self, url: Url) -> (exchange: Exchange)
        ensures
            exchange.method == Method::Head,
            exchange.url == url,
            exchange.error_for_status,
            exchange.purpose == Purpose::FinalUrl,
            exchange.retries@ == 0,
    {
        self.send_request(Method::Head, url, true, Purpose::FinalUrl)
    }

    /// Begins a GET request for the body at `url`. An error status fails it.
    pub fn create_request(&self, url: Url) -> (exchange: Exchange)
        ensures
            exchange.method == Method::Get,
            exchange.url == url,
            exchange.error_for_status,
            exchange.purpose == Purpose::Download,
            exchange.retries@ == 0,
    {
        self.send_request(Method::Get, url, true, Purpose::Download)
    }
}

impl Exchange {
    /// The failure of this request for the reason `err`.
    pub open spec fn failed(self, err: HttpError) -> BinstallError {
        BinstallError::Http { method: self.method, url: self.url, err }
    }

    /// The result of the request when `response` is final: a failure where
    /// an error status fails the request and the response carries one, else
    /// what the request was made to find out.
    pub open spec fn result_for(self, response: Response) -> Result<Answer, BinstallError> {
        if self.error_for_status && is_error_status(response.status) {
            Err(self.failed(HttpError::Status(response.status)))
        } else {
            Ok(
                match self.purpose {
                    Purpose::Exists => Answer::Exists(is_success(response.status)),
                    Purpose::FinalUrl => Answer::FinalUrl(response.url),
                    Purpose::Download => Answer::Body,
                },
            )
        }
    }

    /// This exchange after one more retry.
    pub open spec fn is_retry_of(self, before: Exchange) -> bool {
        &&& self.method == before.method
        &&& self.url == before.url
        &&& self.error_for_status == before.error_for_status
        &&& self.purpose == before.purpose
        &&& self.retries@ == before.retries@ + 1
    }

    /// What to do when `response` arrives and asks for `wait`: retry after
    /// the wait where [`is_retried`] says so, else return the result for the
    /// response.
    pub open spec fn action_for(self, response: Response, wait: Option<nat>, action: Action) -> bool {
        if is_retried(self.retries@, response.status, wait) {
            &&& action matches Action::Retry(asked, next)
            &&& Some(asked@) == wait
            &&& next.is_retry_of(self)
        } else {
            action == Action::Return(self.result_for(response))
        }
    }

    /// Ends the request because the transport failed.
    pub fn on_failure(self) -> (err: BinstallError)
        ensures
            err == self.failed(HttpError::Transport),
    {
        BinstallError::Http { method: self.method, url: self.url, err: HttpError::Transport }
    }

    /// Decides on a response that asks for the wait given.
    pub fn on_response(self, response: Response, wait: Option<Duration>) -> (action: Action)
        ensures
            self.action_for(response, span_of(wait), action),
            action matches Action::Retry(asked, _) ==> Some(asked) == wait,
    {
        let mut retries: RetryState = self.retries;
        match retries.on_response(response.status, wait) {
            Step::Retry(asked) => Action::Retry(
                asked,
                Exchange {
                    method: self.method,
                    url: self.url,
                    error_for_status: self.error_for_status,
                    purpose: self.purpose,
                    retries,
                },
            ),
            Step::Done => {
                if self.error_for_status && status_is_error(response.status) {
                    Action::Return(
                        Err(
                            BinstallError::Http {
                                method: self.method,
                                url: self.url,
                                err: HttpError::Status(response.status),
                            },
                        ),
                    )
                } else {
                    Action::Return(
                        Ok(
                            match self.purpose {
                                Purpose::Exists => Answer::Exists(status_is_success(response.status)),
                                Purpose::FinalUrl => Answer::FinalUrl(response.url),
                                Purpose::Download => Answer::Body,
                            },
                        ),
                    )
                }
            },
        }
    }

    /// Decides what to do after a send. A response is read for the wait it
    /// asks for, by the system clock where it names a date; whatever the
    /// clock reads, the action is the one for the wait at that reading. A
    /// transport failure ends the request.
    pub fn handle(self, event: Event) -> (action: Action)
        ensures
            match event {
                Event::Response(response) => exists|now: UnixTime|
                    self.action_for(
                        response,
                        #[trigger] retry_after_delay(retry_after_values(response.headers), now),
                        action,
                    ),
                Event::Failure => action == Action::Return(Err(self.failed(HttpError::Transport))),
            },
            event matches Event::Response(response) ==> (!is_throttled(response.status)
                || self.retries@ >= MAX_RETRY_COUNT ==> action == Action::Return(
                self.result_for(response),
            )),
    {
        match event {
            Event::Response(response) => {
                let wait: Option<Duration> = parse_header_retry_after(&response.headers);
                self.on_response(response, wait)
            },
            Event::Failure => Action::Return(Err(self.on_failure())),
        }
    }
}

/// A response that asks for a wait longer than the longest honoured is
/// final: the request returns at once with the result for that response,
/// whatever its status and however few retries were made.
pub proof fn lemma_long_wait_returns(exchange: Exchange, response: Response, wait: nat, action: Action)
    requires
        wait > max_retry_nanos(),
        exchange.action_for(response, Some(wait), action),
    ensures
        action == Action::Return(exchange.result_for(response)),
{
}

/// A response to a request that has used up its retries is final.
pub proof fn lemma_spent_returns(exchange: Exchange, response: Response, wait: Option<nat>, action: Action)
    requires
        exchange.retries@ >= MAX_RETRY_COUNT,
        exchange.action_for(response, wait, action),
    ensures
        action == Action::Return(exchange.result_for(response)),
{
}

/// A request that is retried goes on as the same request: same method, same
/// URL, same handling of error statuses, one retry more.
pub proof fn lemma_retry_keeps_request(exchange: Exchange, response: Response, wait: Option<nat>, action: Action)
    requires
        exchange.action_for(response, wait, action),
        action is Retry,
    ensures
        is_throttled(response.status),
        wait is Some && wait->0 <= max_retry_nanos(),
        exchange.retries@ < MAX_RETRY_COUNT,
        action->Retry_1.is_retry_of(exchange),
        action->Retry_1.retries@ <= MAX_RETRY_COUNT,
{
}

/// A request is sent again only on the word of the server: the last
/// `Retry-After` of the response must say something that can be read.
pub proof fn lemma_retry_needs_retry_after(
    exchange: Exchange,
    response: Response,
    now: UnixTime,
    action: Action,
)
    requires
        exchange.action_for(
            response,
            retry_after_delay(retry_after_values(response.headers), now),
            action,
        ),
        action is Retry,
    ensures
        retry_after_values(response.headers).len() > 0,
        retry_after_asked(retry_after_values(response.headers)) is Some,
{
}

} // verus!
