use rest_dispatch::dispatch::Dispatcher;
use rest_dispatch::rest::{Error, HttpOutcome, create_get_request};

fn get(uri: &str) -> rest_dispatch::rest::Request {
    create_get_request(String::from(uri))
}

fn ok_response(status: u16, body: &[u8]) -> HttpOutcome {
    HttpOutcome::Response { status, body: body.to_vec() }
}

#[test]
fn round_trip_delivers_exactly_one_result() {
    let mut d = Dispatcher::new();
    let t = d.submit(get("/status"));
    d.step(ok_response(200, b"hello"));
    let first = d.try_read(t);
    assert_eq!(first, Some(Ok(b"hello".to_vec())));
    // the channel is one-shot: the value cannot be read twice
    assert_eq!(d.try_read(t), None);
}

#[test]
fn status_200_delivers_full_body() {
    let mut d = Dispatcher::new();
    let t = d.submit(get("/status"));
    let delivered = d.step(ok_response(200, b"{\"ok\":true}"));
    assert!(delivered);
    assert_eq!(d.try_read(t), Some(Ok(b"{\"ok\":true}".to_vec())));
}

#[test]
fn status_404_delivers_http_error() {
    let mut d = Dispatcher::new();
    let t = d.submit(get("/missing"));
    let delivered = d.step(ok_response(404, b"irrelevant"));
    assert!(delivered);
    assert_eq!(d.try_read(t), Some(Err(Error::HttpError(404))));
}

#[test]
fn transport_failure_is_delivered_as_error() {
    let mut d = Dispatcher::new();
    let t = d.submit(get("/anywhere"));
    let delivered = d.step(HttpOutcome::TransportFailure {
        cause: String::from("connection refused"),
    });
    assert!(delivered);
    assert_eq!(
        d.try_read(t),
        Some(Err(Error::TransportError(String::from("connection refused"))))
    );
}

#[test]
fn cancelled_entry_delivers_nothing_and_loop_continues() {
    let mut d = Dispatcher::new();
    let t1 = d.submit(get("/abandoned"));
    let t2 = d.submit(get("/wanted"));
    // the first submitter stops caring before the server responds
    d.drop_receiver(t1);
    let delivered = d.step(ok_response(200, b"too late"));
    assert!(!delivered);
    assert_eq!(d.try_read(t1), None);
    // the loop is unaffected and processes the next entry
    let delivered2 = d.step(ok_response(200, b"fresh"));
    assert!(delivered2);
    assert_eq!(d.try_read(t2), Some(Ok(b"fresh".to_vec())));
}

#[test]
fn cancelled_channel_never_receives_later() {
    let mut d = Dispatcher::new();
    let t = d.submit(get("/abandoned"));
    d.drop_receiver(t);
    d.step(ok_response(200, b"a"));
    // further traffic on the dispatcher leaves the closed channel closed
    let t2 = d.submit(get("/other"));
    d.step(ok_response(500, b""));
    assert_eq!(d.try_read(t), None);
    assert_eq!(d.try_read(t2), Some(Err(Error::HttpError(500))));
    assert_eq!(d.try_read(t), None);
}

#[test]
fn entries_resolve_in_fifo_submission_order() {
    let mut d = Dispatcher::new();
    let t_slow = d.submit(get("/slow"));
    let t_fast = d.submit(get("/fast"));
    // one entry at a time: nothing of the second is resolved until the
    // first entry's outcome has been handled by a step of its own
    d.step(ok_response(200, b"slow-body"));
    assert_eq!(d.try_read(t_fast), None);
    d.step(ok_response(200, b"fast-body"));
    assert_eq!(d.try_read(t_slow), Some(Ok(b"slow-body".to_vec())));
    assert_eq!(d.try_read(t_fast), Some(Ok(b"fast-body".to_vec())));
}

#[test]
fn per_entry_failure_never_stops_the_loop() {
    let mut d = Dispatcher::new();
    let t1 = d.submit(get("/bad"));
    let t2 = d.submit(get("/good"));
    d.step(HttpOutcome::TransportFailure { cause: String::from("tls handshake") });
    d.step(ok_response(200, b"fine"));
    assert_eq!(
        d.try_read(t1),
        Some(Err(Error::TransportError(String::from("tls handshake"))))
    );
    assert_eq!(d.try_read(t2), Some(Ok(b"fine".to_vec())));
}

#[test]
fn submission_never_blocks_whatever_the_depth() {
    let mut d = Dispatcher::new();
    // the consumer never runs; producers still submit freely
    for i in 0..1000usize {
        let t = d.submit(get("/queued"));
        assert_eq!(t, i);
    }
    assert_eq!(d.queue_len(), 1000);
    assert_eq!(d.channel_count(), 1000);
}

#[test]
fn tickets_are_handed_out_in_order() {
    let mut d = Dispatcher::new();
    assert_eq!(d.channel_count(), 0);
    assert_eq!(d.submit(get("/a")), 0);
    assert_eq!(d.submit(get("/b")), 1);
    d.step(ok_response(200, b""));
    // a resolved entry frees no ticket: numbering keeps rising
    assert_eq!(d.submit(get("/c")), 2);
    assert_eq!(d.queue_len(), 2);
}

#[test]
fn closed_queue_drains_and_terminates() {
    let mut d = Dispatcher::new();
    assert!(!d.is_terminated());
    let t1 = d.submit(get("/a"));
    let t2 = d.submit(get("/b"));
    // the last producer handle goes away; pending entries still resolve
    d.close();
    assert!(!d.is_terminated());
    d.step(ok_response(200, b"a"));
    d.step(ok_response(200, b"b"));
    assert!(d.is_terminated());
    assert_eq!(d.try_read(t1), Some(Ok(b"a".to_vec())));
    assert_eq!(d.try_read(t2), Some(Ok(b"b".to_vec())));
}

#[test]
fn a_fresh_dispatcher_is_not_terminated() {
    let mut d = Dispatcher::new();
    assert!(!d.is_terminated());
    // an empty queue alone is not the exit: it must also be closed
    d.close();
    assert!(d.is_terminated());
}

#[test]
fn reading_a_waiting_channel_yields_nothing() {
    let mut d = Dispatcher::new();
    let t = d.submit(get("/pending"));
    assert_eq!(d.try_read(t), None);
    d.step(ok_response(200, b"now"));
    assert_eq!(d.try_read(t), Some(Ok(b"now".to_vec())));
}
