//! The steps of a chain, one at a time.

use reqwest::header::{HeaderValue, AUTHORIZATION};
use reqwest::{Body, Method, Request, Response, Url};
use reqwest_chain::{
    Attempt, Attempting, Chain, ChainAction, ChainError, ChainMiddleware, Conclusion, Deciding,
    Received, DEFAULT_MAXIMUM_CHAIN_LENGTH,
};
use reqwest_middleware::Error;

fn get(url: &str) -> Request {
    Request::new(Method::GET, Url::parse(url).unwrap())
}

fn respond(status: u16) -> Response {
    Response::from(http::Response::builder().status(status).body("").unwrap())
}

fn sending<S>(attempt: Attempt<S>) -> (Attempting<S>, Request) {
    match attempt {
        Attempt::Send(attempting, duplicate) => (attempting, duplicate),
        Attempt::Terminated(error) => panic!("the chain ended: {:?}", error),
    }
}

fn consulting<S>(received: Received<S>) -> (Deciding<S>, Result<Response, Error>) {
    match received {
        Received::Consult(deciding, outcome) => (deciding, outcome),
        Received::Terminated(error) => panic!("the chain ended: {:?}", error),
    }
}

fn retrying<S>(conclusion: Conclusion<S>) -> Chain<S> {
    match conclusion {
        Conclusion::Retry(chain) => chain,
        Conclusion::Terminated(_) => panic!("the chain ended"),
    }
}

#[test]
fn default_ceiling_is_seven() {
    assert_eq!(DEFAULT_MAXIMUM_CHAIN_LENGTH, 7);
}

#[test]
fn middleware_wraps_the_policy() {
    let middleware = ChainMiddleware::new(41u8);
    assert_eq!(middleware.0, 41);
}

#[test]
fn new_chain_has_no_retry_behind_it() {
    let chain = Chain::<u32>::new(get("http://localhost/a"), 4);
    assert_eq!(chain.n_past_retries(), 0);
    assert_eq!(chain.max_chain_length(), 4);
}

#[test]
fn attempt_hands_out_a_copy_of_the_request() {
    let mut request = Request::new(Method::PUT, Url::parse("http://localhost/item?x=1").unwrap());
    request.headers_mut().insert(AUTHORIZATION, HeaderValue::from_static("token"));
    *request.body_mut() = Some(Body::from("payload"));
    *request.timeout_mut() = Some(std::time::Duration::from_millis(250));

    let chain = Chain::<()>::new(request, 1);
    let (_attempting, duplicate) = sending(chain.attempt());

    assert_eq!(duplicate.timeout(), Some(&std::time::Duration::from_millis(250)));

    assert_eq!(duplicate.method(), Method::PUT);
    assert_eq!(duplicate.url().as_str(), "http://localhost/item?x=1");
    assert_eq!(duplicate.headers().get(AUTHORIZATION).unwrap(), "token");
    assert_eq!(duplicate.body().unwrap().as_bytes(), Some("payload".as_bytes()));
}

#[test]
fn duplicate_is_independent_of_the_request() {
    let mut request = get("http://localhost/a");
    request.headers_mut().insert(AUTHORIZATION, HeaderValue::from_static("old"));

    let chain = Chain::<()>::new(request, 2);
    let (attempting, first) = sending(chain.attempt());
    let (mut deciding, _outcome) = consulting(attempting.receive(Ok(respond(401))));
    {
        let (_state, request) = deciding.policy_access();
        request.headers_mut().insert(AUTHORIZATION, HeaderValue::from_static("new"));
    }
    let chain = retrying(deciding.conclude(Ok(ChainAction::Retry)));
    let (_attempting, second) = sending(chain.attempt());

    assert_eq!(first.headers().get(AUTHORIZATION).unwrap(), "old");
    assert_eq!(second.headers().get(AUTHORIZATION).unwrap(), "new");
}

#[test]
fn attempt_on_a_streamed_body_ends_the_chain() {
    let mut request = Request::new(Method::POST, Url::parse("http://localhost/a").unwrap());
    let chunks: Vec<Result<&'static str, std::io::Error>> = vec![Ok("once")];
    *request.body_mut() = Some(Body::wrap_stream(futures_util::stream::iter(chunks)));

    let chain = Chain::<()>::new(request, 1);
    assert!(matches!(chain.attempt(), Attempt::Terminated(ChainError::DuplicationFailure)));
}

#[test]
fn attempt_with_sends_the_given_duplicate() {
    let chain = Chain::<()>::new(get("http://localhost/held"), 1);
    let (_attempting, duplicate) = sending(chain.attempt_with(Some(get("http://localhost/given"))));
    assert_eq!(duplicate.url().path(), "/given");
}

#[test]
fn attempt_without_a_duplicate_ends_the_chain() {
    let chain = Chain::<()>::new(get("http://localhost/a"), 1);
    assert!(matches!(chain.attempt_with(None), Attempt::Terminated(ChainError::DuplicationFailure)));
}

#[test]
fn receive_below_the_ceiling_hands_the_outcome_on() {
    let chain = Chain::<()>::new(get("http://localhost/a"), 1);
    let (attempting, _duplicate) = sending(chain.attempt());
    let (_deciding, outcome) = consulting(attempting.receive(Ok(respond(418))));
    assert_eq!(outcome.unwrap().status(), 418);
}

#[test]
fn receive_hands_a_transport_failure_on() {
    let chain = Chain::<()>::new(get("http://localhost/a"), 1);
    let (attempting, _duplicate) = sending(chain.attempt());
    let failure = Error::Middleware(anyhow::Error::msg("no route"));
    let (_deciding, outcome) = consulting(attempting.receive(Err(failure)));
    assert_eq!(outcome.unwrap_err().to_string(), "Middleware error: no route");
}

#[test]
fn receive_at_the_ceiling_ends_the_chain() {
    let chain = Chain::<()>::new(get("http://localhost/a"), 1);
    let (attempting, _duplicate) = sending(chain.attempt());
    let (deciding, _outcome) = consulting(attempting.receive(Ok(respond(500))));
    let chain = retrying(deciding.conclude(Ok(ChainAction::Retry)));
    assert_eq!(chain.n_past_retries(), 1);
    let (attempting, _duplicate) = sending(chain.attempt());
    assert!(matches!(
        attempting.receive(Ok(respond(200))),
        Received::Terminated(ChainError::CeilingExceeded { ceiling: 1 })
    ));
}

#[test]
fn retry_counts_and_keeps_what_the_policy_wrote() {
    let chain = Chain::<u32>::new(get("http://localhost/a"), 5);
    let (attempting, _duplicate) = sending(chain.attempt());
    let (mut deciding, _outcome) = consulting(attempting.receive(Ok(respond(500))));
    {
        let (state, _request) = deciding.policy_access();
        assert_eq!(*state, 0);
        *state = 17;
    }
    let chain = retrying(deciding.conclude(Ok(ChainAction::Retry)));
    assert_eq!(chain.n_past_retries(), 1);
    assert_eq!(chain.max_chain_length(), 5);

    let (attempting, _duplicate) = sending(chain.attempt());
    let (mut deciding, _outcome) = consulting(attempting.receive(Ok(respond(500))));
    let (state, _request) = deciding.policy_access();
    assert_eq!(*state, 17);
}

#[test]
fn completion_with_a_response_is_success() {
    let chain = Chain::<()>::new(get("http://localhost/a"), 1);
    let (attempting, _duplicate) = sending(chain.attempt());
    let (deciding, outcome) = consulting(attempting.receive(Ok(respond(500))));
    match deciding.conclude(Ok(ChainAction::Complete(outcome))) {
        Conclusion::Terminated(Ok(response)) => assert_eq!(response.status(), 500),
        _ => panic!("expected the response"),
    }
}

#[test]
fn completion_with_a_failure_is_a_transport_failure() {
    let chain = Chain::<()>::new(get("http://localhost/a"), 1);
    let (attempting, _duplicate) = sending(chain.attempt());
    let failure = Error::Middleware(anyhow::Error::msg("no route"));
    let (deciding, outcome) = consulting(attempting.receive(Err(failure)));
    match deciding.conclude(Ok(ChainAction::Complete(outcome))) {
        Conclusion::Terminated(Err(ChainError::TransportFailure(failure))) => {
            assert_eq!(failure.to_string(), "Middleware error: no route")
        }
        _ => panic!("expected the failure of the transport"),
    }
}

#[test]
fn failed_decision_is_a_policy_failure() {
    let chain = Chain::<()>::new(get("http://localhost/a"), 1);
    let (attempting, _duplicate) = sending(chain.attempt());
    let (deciding, _outcome) = consulting(attempting.receive(Ok(respond(401))));
    let failure = Error::Middleware(anyhow::Error::msg("refresh failed"));
    match deciding.conclude(Err(failure)) {
        Conclusion::Terminated(Err(ChainError::PolicyFailure(failure))) => {
            assert_eq!(failure.to_string(), "Middleware error: refresh failed")
        }
        _ => panic!("expected the failure of the policy"),
    }
}

#[test]
fn largest_ceiling_is_accepted() {
    let chain = Chain::<()>::new(get("http://localhost/a"), u32::MAX);
    let (attempting, _duplicate) = sending(chain.attempt());
    let (deciding, _outcome) = consulting(attempting.receive(Ok(respond(500))));
    let chain = retrying(deciding.conclude(Ok(ChainAction::Retry)));
    assert_eq!(chain.n_past_retries(), 1);
    assert_eq!(chain.max_chain_length(), u32::MAX);
}
