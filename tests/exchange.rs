use hclient::{
    build_empty_request, build_request, complete, decode_outcome, decode_response, named_outcome, prepare, Event,
    Exchange, HError, Json, Outcome, Payload, Step, TextPlain,
};

const TASK: &[u8] = br#"{"id":"task_123","sandbox":"/tmp/x"}"#;

fn task_value() -> serde_json::Value {
    serde_json::from_slice(TASK).unwrap()
}

/// Drives an exchange through a response head, the chunks and the end of the stream.
fn run(status: u16, chunks: &[&[u8]]) -> Step {
    let mut ex = Exchange::new();
    assert_eq!(ex.on_event(Event::Responded(status)), Step::Pending);
    for c in chunks {
        assert!(ex.admits(&Event::Chunk(c.to_vec())));
        assert_eq!(ex.on_event(Event::Chunk(c.to_vec())), Step::Pending);
    }
    let last = ex.on_event(Event::StreamEnded);
    assert!(ex.is_done());
    last
}

#[test]
fn exchange_delivers_whole_body_with_status() {
    let step = run(200, &[b"ab", b"", b"cde", b"f"]);
    assert_eq!(step, Step::Deliver(200, b"abcdef".to_vec()));
}

#[test]
fn exchange_delivers_empty_body() {
    assert_eq!(run(204, &[]), Step::Deliver(204, vec![]));
}

#[test]
fn exchange_transport_failure() {
    let mut ex = Exchange::new();
    assert!(!ex.admits(&Event::StreamEnded));
    let step = ex.on_event(Event::TransportFailed("connection refused".to_string()));
    assert_eq!(step, Step::Fail(HError::InvalidHttpResponse("connection refused".to_string())));
    assert!(ex.is_done());
    assert!(!ex.admits(&Event::Responded(200)));
}

#[test]
fn exchange_stream_failure_drops_buffer() {
    let mut ex = Exchange::new();
    ex.on_event(Event::Responded(200));
    ex.on_event(Event::Chunk(b"{\"id\":".to_vec()));
    assert!(!ex.admits(&Event::Responded(200)));
    let step = ex.on_event(Event::StreamFailed("reset".to_string()));
    assert_eq!(step, Step::Fail(HError::InvalidHttpResponse("reset".to_string())));
    assert!(ex.is_done());
    let r = complete::<TextPlain>(step);
    assert!(matches!(r, Some(Err(HError::InvalidHttpResponse(_)))));
}

#[test]
fn complete_pending_is_nothing() {
    assert!(complete::<()>(Step::Pending).is_none());
}

#[test]
fn pipeline_decodes_same_as_direct() {
    let step = run(200, &[&TASK[..10], &TASK[10..]]);
    let r = complete::<Json<serde_json::Value>>(step).unwrap().unwrap();
    assert_eq!(r.status(), 200);
    let direct: serde_json::Value = serde_json::from_slice(TASK).unwrap();
    assert_eq!(r.into_inner().into_inner(), direct);
}

#[test]
fn pipeline_truncated_json_is_invalid_data_format() {
    let step = run(200, &[&TASK[..TASK.len() - 3]]);
    let r = complete::<Json<serde_json::Value>>(step).unwrap();
    assert!(matches!(r, Err(HError::InvalidDataFormat(_))));
    let o = decode_outcome::<Json<serde_json::Value>>(200, TASK[..5].to_vec());
    assert!(matches!(o, Err(HError::InvalidDataFormat(_))));
}

#[test]
fn response_keeps_status_for_any_code() {
    let r = decode_response::<TextPlain>(404, b"missing".to_vec()).unwrap();
    assert_eq!(r.status(), 404);
    assert_eq!(r.inner(), &TextPlain::new("missing".to_string()));
    let bad = decode_response::<TextPlain>(500, vec![0xff]);
    assert!(matches!(bad, Err(HError::InvalidDataFormat(_))));
}

#[test]
fn named_outcomes_ignore_body() {
    let garbage = vec![0xff, 0x7b, 0x00];
    let cases: [(u16, Outcome<Json<serde_json::Value>>); 5] = [
        (201, Outcome::Created),
        (202, Outcome::Accepted),
        (404, Outcome::NotFound),
        (500, Outcome::InternalServerError),
        (501, Outcome::NotImplemented),
    ];
    for (status, expected) in cases {
        assert_eq!(decode_outcome::<Json<serde_json::Value>>(status, garbage.clone()), Ok(expected));
        assert_eq!(decode_outcome::<Json<serde_json::Value>>(status, TASK.to_vec()).unwrap(), named_outcome(status));
    }
}

#[test]
fn unlisted_status_is_unregistered() {
    assert_eq!(decode_outcome::<TextPlain>(418, b"teapot".to_vec()), Ok(Outcome::Unregistered(418)));
    assert_eq!(decode_outcome::<()>(204, vec![]), Ok(Outcome::Unregistered(204)));
    assert_eq!(named_outcome::<()>(302), Outcome::Unregistered(302));
}

#[test]
fn ok_status_decodes_body() {
    assert_eq!(
        decode_outcome::<TextPlain>(200, b"hi".to_vec()),
        Ok(Outcome::Decoded(TextPlain::new("hi".to_string())))
    );
}

#[test]
fn prepare_pairs_content_type_and_bytes() {
    assert_eq!(
        prepare(TextPlain::new("x".to_string())),
        Ok(Payload { content_type: "text/plain", body: b"x".to_vec() })
    );
    assert_eq!(prepare(()), Ok(Payload { content_type: "text/plain", body: vec![] }));
    assert_eq!(
        prepare(Json(task_value())),
        Ok(Payload { content_type: "application/json", body: TASK.to_vec() })
    );
}

#[test]
fn build_request_sets_method_target_header_and_body() {
    let uri: http::Uri = "http://localhost/tasks".parse().unwrap();
    let req = build_request(http::Method::POST, uri, Json(task_value())).unwrap();
    assert_eq!(req.method(), &http::Method::POST);
    assert_eq!(req.uri().path(), "/tasks");
    assert_eq!(req.headers().get(http::header::CONTENT_TYPE).unwrap(), "application/json");
    assert_eq!(req.body(), &TASK.to_vec());
}

#[test]
fn post_task_scenario() {
    let uri: http::Uri = "/tasks".parse().unwrap();
    let req = build_request(http::Method::POST, uri, Json(task_value())).unwrap();
    let sent = req.body().clone();
    let step = run(200, &[&sent]);
    let resp = complete::<Json<serde_json::Value>>(step).unwrap().unwrap();
    assert_eq!(resp.status(), 200);
    assert_eq!(resp.into_inner(), Json(task_value()));

    let step = run(404, &[]);
    match step {
        Step::Deliver(status, body) => {
            assert_eq!(
                decode_outcome::<Json<serde_json::Value>>(status, body),
                Ok(Outcome::NotFound)
            );
        }
        other => panic!("unexpected {:?}", other),
    }
    assert_eq!(decode_outcome::<Json<serde_json::Value>>(404, TASK.to_vec()), Ok(Outcome::NotFound));
}

#[test]
fn empty_request_has_text_type_and_no_body() {
    let uri: http::Uri = "http://localhost/status".parse().unwrap();
    let req = build_empty_request(http::Method::GET, uri);
    assert_eq!(req.method(), &http::Method::GET);
    assert_eq!(req.uri().path(), "/status");
    assert_eq!(req.headers().get(http::header::CONTENT_TYPE).unwrap(), "text/plain");
    assert!(req.body().is_empty());
}

#[test]
fn json_decoding_ignores_status() {
    let a = hclient::decode_response::<Json<serde_json::Value>>(200, TASK.to_vec()).unwrap();
    let b = hclient::decode_response::<Json<serde_json::Value>>(503, TASK.to_vec()).unwrap();
    assert_eq!(a.into_inner(), b.into_inner());
}
