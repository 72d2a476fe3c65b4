use rest_dispatch::rest::{
    Error, HttpOutcome, Method, OK_STATUS, check_status, create_get_request, create_https_client,
    outcome_to_result,
};

#[test]
fn only_status_200_passes_the_check() {
    assert_eq!(check_status(200), Ok(()));
    assert_eq!(check_status(201), Err(Error::HttpError(201)));
    assert_eq!(check_status(301), Err(Error::HttpError(301)));
    assert_eq!(check_status(404), Err(Error::HttpError(404)));
    assert_eq!(check_status(500), Err(Error::HttpError(500)));
    assert_eq!(OK_STATUS, 200);
}

#[test]
fn success_outcome_keeps_the_whole_body() {
    let outcome = HttpOutcome::Response { status: 200, body: vec![0, 1, 2, 3] };
    assert_eq!(outcome_to_result(outcome), Ok(vec![0, 1, 2, 3]));
}

#[test]
fn empty_success_body_is_kept_empty() {
    let outcome = HttpOutcome::Response { status: 200, body: Vec::new() };
    assert_eq!(outcome_to_result(outcome), Ok(Vec::new()));
}

#[test]
fn failed_status_keeps_the_code_and_drops_the_body() {
    let outcome = HttpOutcome::Response { status: 503, body: vec![9, 9, 9] };
    assert_eq!(outcome_to_result(outcome), Err(Error::HttpError(503)));
}

#[test]
fn transport_failure_keeps_its_cause() {
    let outcome = HttpOutcome::TransportFailure { cause: String::from("broken pipe") };
    assert_eq!(
        outcome_to_result(outcome),
        Err(Error::TransportError(String::from("broken pipe")))
    );
}

#[test]
fn get_request_has_method_uri_and_nothing_else() {
    let req = create_get_request(String::from("https://api.example.net/v1/status"));
    assert_eq!(req.method, Method::Get);
    assert_eq!(req.uri, "https://api.example.net/v1/status");
    assert!(req.headers.is_empty());
    assert!(req.body.is_empty());
}

#[test]
fn client_starts_with_an_idle_dispatcher() {
    let d = create_https_client(Ok(())).unwrap();
    assert_eq!(d.queue_len(), 0);
    assert_eq!(d.channel_count(), 0);
}

#[test]
fn connector_failure_is_fatal_to_startup() {
    let r = create_https_client(Err(String::from("bad ca certificate")));
    match r {
        Err(Error::TlsConfigError(cause)) => assert_eq!(cause, "bad ca certificate"),
        _ => panic!("expected a TLS configuration error"),
    }
}

#[test]
fn a_started_client_accepts_submissions() {
    let mut d = create_https_client(Ok(())).unwrap();
    let t = d.submit(create_get_request(String::from("/first")));
    assert_eq!(t, 0);
    assert_eq!(d.queue_len(), 1);
}

#[test]
fn error_kinds_are_distinct() {
    assert_ne!(
        Error::HttpError(404),
        Error::HttpError(500)
    );
    assert_ne!(
        Error::TransportError(String::from("x")),
        Error::TlsConfigError(String::from("x"))
    );
    assert_ne!(
        Error::InvalidUri(String::from("::")),
        Error::TransportError(String::from("::"))
    );
}
