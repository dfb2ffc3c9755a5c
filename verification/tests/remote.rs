use binstalk::duration::Duration;
use binstalk::remote::status_is_error;
use binstalk::remote::status_is_success;
use binstalk::remote::Action;
use binstalk::remote::Answer;
use binstalk::remote::BinstallError;
use binstalk::remote::Client;
use binstalk::remote::Event;
use binstalk::remote::Exchange;
use binstalk::remote::HttpError;
use binstalk::remote::Method;
use binstalk::remote::Purpose;
use binstalk::remote::Response;
use binstalk::remote::TlsVersion;
use binstalk::remote::USER_AGENT;
use reqwest::header::HeaderMap;
use reqwest::header::HeaderValue;
use reqwest::header::RETRY_AFTER;
use url::Url;

const URL: &str = "https://example.com/pkg.tgz";

fn client() -> Client {
    Client::new(None, Duration::from_secs(1), 10)
}

fn url() -> Url {
    Url::parse(URL).expect("a URL")
}

fn response(status: u16) -> Response {
    Response { status, url: url(), headers: HeaderMap::new() }
}

fn throttled(status: u16, retry_after: &[&[u8]]) -> Response {
    let mut headers = HeaderMap::new();
    for value in retry_after {
        headers.append(RETRY_AFTER, HeaderValue::from_bytes(value).expect("a header value"));
    }
    Response { status, url: url(), headers }
}

fn failure(method: Method, err: HttpError) -> Action {
    Action::Return(Err(BinstallError::Http { method, url: url(), err }))
}

#[test]
fn transport_is_https_only_with_a_fixed_user_agent() {
    let client = client();
    let transport = client.get_inner();
    assert!(transport.https_only);
    assert!(!transport.tcp_nodelay);
    assert_eq!(transport.user_agent, USER_AGENT);
    assert_eq!(USER_AGENT, "binstalk/0.1.0");
    let (product, version) = USER_AGENT.split_once('/').expect("product/version");
    assert!(!product.is_empty());
    assert!(!version.is_empty());
}

#[test]
fn minimum_tls_defaults_to_1_2() {
    assert_eq!(client().get_inner().min_tls, TlsVersion::Tls1_2);
}

#[test]
fn minimum_tls_can_be_raised() {
    let client = Client::new(Some(TlsVersion::Tls1_3), Duration::from_secs(1), 1);
    assert_eq!(client.get_inner().min_tls, TlsVersion::Tls1_3);
    let client = Client::new(Some(TlsVersion::Tls1_2), Duration::from_secs(1), 1);
    assert_eq!(client.get_inner().min_tls, TlsVersion::Tls1_2);
}

#[test]
fn minimum_tls_cannot_be_lowered() {
    for older in [TlsVersion::Tls1_0, TlsVersion::Tls1_1] {
        let client = Client::new(Some(older), Duration::from_secs(1), 1);
        assert_eq!(client.get_inner().min_tls, TlsVersion::Tls1_2);
    }
}

#[test]
fn rate_is_the_one_given() {
    let client = Client::new(None, Duration::new(0, 500_000_000), 7);
    assert_eq!(client.rate().num(), 7);
    assert_eq!(client.rate().per(), Duration::new(0, 500_000_000));
    let copy = client;
    assert_eq!(copy.rate(), client.rate());
    assert_eq!(copy, client);
}

#[test]
fn success_is_200_to_299() {
    for status in [200u16, 201, 204, 299] {
        assert!(status_is_success(status), "{}", status);
    }
    for status in [0u16, 100, 199, 300, 304, 404, 500, u16::MAX] {
        assert!(!status_is_success(status), "{}", status);
    }
}

#[test]
fn error_is_400_to_599() {
    for status in [400u16, 404, 429, 499, 500, 503, 599] {
        assert!(status_is_error(status), "{}", status);
    }
    for status in [0u16, 100, 200, 302, 399, 600, 999, u16::MAX] {
        assert!(!status_is_error(status), "{}", status);
    }
}

#[test]
fn remote_exists_sends_the_method_given_and_fails_on_no_status() {
    let exchange = client().remote_exists(url(), Method::Get);
    assert_eq!(exchange.method, Method::Get);
    assert_eq!(exchange.url, url());
    assert!(!exchange.error_for_status);
    assert_eq!(exchange.purpose, Purpose::Exists);
    assert_eq!(exchange.retries.count(), 0);
    let exchange = client().remote_exists(url(), Method::Head);
    assert_eq!(exchange.method, Method::Head);
}

#[test]
fn remote_exists_is_false_for_404_and_true_for_200() {
    let absent = client().remote_exists(url(), Method::Head);
    assert_eq!(
        absent.handle(Event::Response(response(404))),
        Action::Return(Ok(Answer::Exists(false)))
    );
    let present = client().remote_exists(url(), Method::Head);
    assert_eq!(
        present.handle(Event::Response(response(200))),
        Action::Return(Ok(Answer::Exists(true)))
    );
}

#[test]
fn remote_exists_raises_no_error_for_any_status() {
    for status in [100u16, 204, 301, 400, 403, 410, 500, 502, 599] {
        let exchange = client().remote_exists(url(), Method::Get);
        assert_eq!(
            exchange.handle(Event::Response(response(status))),
            Action::Return(Ok(Answer::Exists((200..300).contains(&status)))),
            "{}",
            status
        );
    }
}

#[test]
fn final_url_is_the_one_that_answered() {
    let exchange = client().get_redirected_final_url(url());
    assert_eq!(exchange.method, Method::Head);
    assert_eq!(exchange.url, url());
    assert!(exchange.error_for_status);
    assert_eq!(exchange.purpose, Purpose::FinalUrl);
    let landed = Url::parse("https://cdn.example.com/v2/pkg.tgz").expect("a URL");
    let answered = Response { status: 200, url: landed.clone(), headers: HeaderMap::new() };
    assert_eq!(
        exchange.handle(Event::Response(answered)),
        Action::Return(Ok(Answer::FinalUrl(landed)))
    );
}

#[test]
fn final_url_fails_on_an_error_status() {
    for status in [400u16, 404, 500, 599] {
        let exchange = client().get_redirected_final_url(url());
        assert_eq!(
            exchange.handle(Event::Response(response(status))),
            failure(Method::Head, HttpError::Status(status))
        );
    }
}

#[test]
fn download_is_a_get_that_fails_on_an_error_status() {
    let exchange = client().create_request(url());
    assert_eq!(exchange.method, Method::Get);
    assert_eq!(exchange.url, url());
    assert!(exchange.error_for_status);
    assert_eq!(exchange.purpose, Purpose::Download);
    assert_eq!(exchange.handle(Event::Response(response(200))), Action::Return(Ok(Answer::Body)));
    let exchange = client().create_request(url());
    assert_eq!(
        exchange.handle(Event::Response(response(403))),
        failure(Method::Get, HttpError::Status(403))
    );
}

#[test]
fn redirect_status_is_no_error() {
    let exchange = client().create_request(url());
    assert_eq!(exchange.handle(Event::Response(response(304))), Action::Return(Ok(Answer::Body)));
}

#[test]
fn transport_failure_names_method_and_url() {
    let exchange = client().remote_exists(url(), Method::Extension("PROPFIND".to_string()));
    assert_eq!(
        exchange.handle(Event::Failure),
        failure(Method::Extension("PROPFIND".to_string()), HttpError::Transport)
    );
    let exchange = client().get_redirected_final_url(url());
    assert_eq!(
        exchange.on_failure(),
        BinstallError::Http { method: Method::Head, url: url(), err: HttpError::Transport }
    );
}

#[test]
fn throttled_response_is_retried_after_the_wait_asked() {
    let exchange = client().create_request(url());
    match exchange.handle(Event::Response(throttled(429, &[b"7"]))) {
        Action::Retry(wait, next) => {
            assert_eq!(wait, Duration::from_secs(7));
            assert_eq!(next.method, Method::Get);
            assert_eq!(next.url, url());
            assert!(next.error_for_status);
            assert_eq!(next.purpose, Purpose::Download);
            assert_eq!(next.retries.count(), 1);
        }
        other => panic!("{:?}", other),
    }
}

#[test]
fn throttled_response_uses_the_last_retry_after() {
    let exchange = client().create_request(url());
    match exchange.handle(Event::Response(throttled(503, &[b"500", b"nonsense", b"2"]))) {
        Action::Retry(wait, _) => assert_eq!(wait, Duration::from_secs(2)),
        other => panic!("{:?}", other),
    }
    let exchange = client().create_request(url());
    assert_eq!(
        exchange.handle(Event::Response(throttled(503, &[b"2", b"500"]))),
        failure(Method::Get, HttpError::Status(503))
    );
}

#[test]
fn throttled_response_with_a_past_date_is_retried_at_once() {
    let exchange = client().remote_exists(url(), Method::Get);
    match exchange.handle(Event::Response(throttled(429, &[b"Wed, 21 Oct 2015 07:28:00 GMT"]))) {
        Action::Retry(wait, next) => {
            assert_eq!(wait, Duration::zero());
            assert_eq!(next.retries.count(), 1);
        }
        other => panic!("{:?}", other),
    }
}

#[test]
fn throttled_response_with_a_far_date_is_returned_at_once() {
    let exchange = client().remote_exists(url(), Method::Get);
    assert_eq!(
        exchange.handle(Event::Response(throttled(429, &[b"Fri, 31 Dec 9999 23:59:59 GMT"]))),
        Action::Return(Ok(Answer::Exists(false)))
    );
}

#[test]
fn long_wait_is_returned_at_once() {
    let exchange = client().remote_exists(url(), Method::Get);
    assert_eq!(
        exchange.handle(Event::Response(throttled(429, &[b"121"]))),
        Action::Return(Ok(Answer::Exists(false)))
    );
    let exchange = client().create_request(url());
    assert_eq!(
        exchange.handle(Event::Response(throttled(503, &[b"121"]))),
        failure(Method::Get, HttpError::Status(503))
    );
    let exchange = client().create_request(url());
    assert_eq!(
        exchange.on_response(throttled(503, &[]), Some(Duration::new(120, 1))),
        failure(Method::Get, HttpError::Status(503))
    );
}

#[test]
fn throttled_response_without_retry_after_is_returned_at_once() {
    let exchange = client().remote_exists(url(), Method::Get);
    assert_eq!(
        exchange.handle(Event::Response(throttled(503, &[]))),
        Action::Return(Ok(Answer::Exists(false)))
    );
    let exchange = client().create_request(url());
    assert_eq!(
        exchange.handle(Event::Response(throttled(429, &[b"later"]))),
        failure(Method::Get, HttpError::Status(429))
    );
}

#[test]
fn retry_after_on_other_statuses_is_ignored() {
    let exchange = client().remote_exists(url(), Method::Get);
    assert_eq!(
        exchange.handle(Event::Response(throttled(200, &[b"1"]))),
        Action::Return(Ok(Answer::Exists(true)))
    );
    let exchange = client().create_request(url());
    assert_eq!(
        exchange.handle(Event::Response(throttled(500, &[b"1"]))),
        failure(Method::Get, HttpError::Status(500))
    );
}

fn run_against_a_server_that_always_throttles(start: Exchange) -> (u32, Action) {
    let mut exchange = start;
    let mut retries = 0;
    loop {
        match exchange.handle(Event::Response(throttled(429, &[b"0"]))) {
            Action::Retry(wait, next) => {
                assert_eq!(wait, Duration::zero());
                retries += 1;
                assert!(retries <= 3);
                exchange = next;
            }
            done => return (retries, done),
        }
    }
}

#[test]
fn request_is_retried_three_times_then_returned() {
    let (retries, done) =
        run_against_a_server_that_always_throttles(client().remote_exists(url(), Method::Get));
    assert_eq!(retries, 3);
    assert_eq!(done, Action::Return(Ok(Answer::Exists(false))));

    let (retries, done) =
        run_against_a_server_that_always_throttles(client().create_request(url()));
    assert_eq!(retries, 3);
    assert_eq!(done, failure(Method::Get, HttpError::Status(429)));
}

#[test]
fn request_that_recovers_returns_the_good_response() {
    let exchange = client().get_redirected_final_url(url());
    let next = match exchange.handle(Event::Response(throttled(503, &[b"1"]))) {
        Action::Retry(_, next) => next,
        other => panic!("{:?}", other),
    };
    let next = match next.handle(Event::Response(throttled(429, &[b"1"]))) {
        Action::Retry(_, next) => next,
        other => panic!("{:?}", other),
    };
    assert_eq!(next.retries.count(), 2);
    assert_eq!(
        next.handle(Event::Response(response(200))),
        Action::Return(Ok(Answer::FinalUrl(url())))
    );
}

#[test]
fn transport_failure_after_a_retry_ends_the_request() {
    let exchange = client().create_request(url());
    let next = match exchange.handle(Event::Response(throttled(503, &[b"1"]))) {
        Action::Retry(_, next) => next,
        other => panic!("{:?}", other),
    };
    assert_eq!(next.handle(Event::Failure), failure(Method::Get, HttpError::Transport));
}
