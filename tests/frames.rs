use stratum_v1::error::Error;
use stratum_v1::frame::{parse_frame, Frame, Method, Request, RequestPayload, Response, ResponsePayload};
use stratum_v1::messages::Subscribe;
use stratum_v1::value::Value;

fn s(x: &str) -> Value {
    Value::Str(x.to_string())
}

fn object(members: Vec<(&str, Value)>) -> Value {
    Value::Object(members.into_iter().map(|(k, v)| (k.to_string(), v)).collect())
}

fn subscribe_document() -> Value {
    object(vec![
        ("id", Value::Int(1)),
        ("method", s("mining.subscribe")),
        ("params", Value::Array(vec![s("agent/1.0"), Value::Null, Value::Null, Value::Null])),
    ])
}

#[test]
fn subscribe_fixture_decodes_and_re_encodes() {
    let frame = parse_frame(subscribe_document()).unwrap();
    let request = match frame {
        Frame::Request(q) => q,
        other => panic!("not a request: {:?}", other),
    };
    assert_eq!(request.id, Some(1));
    assert_eq!(request.payload.method, Method::Subscribe);
    let msg = Subscribe::try_from_request_payload(request.payload).unwrap();
    assert_eq!(msg, Subscribe(Some("agent/1.0".to_string()), None, None, None));
    assert_eq!(msg.agent_signature(), Some(&"agent/1.0".to_string()));
    assert_eq!(msg.extra_nonce1(), None);
    assert_eq!(msg.url(), None);
    assert_eq!(msg.port(), None);

    let again = Frame::Request(Request { id: Some(1), payload: msg.into_request_payload() });
    match again.into_value() {
        Value::Object(members) => {
            assert_eq!(members.len(), 3);
            assert_eq!(members[0].0, "id");
            assert!(matches!(members[0].1, Value::Int(1)));
            assert_eq!(members[1].0, "method");
            assert!(matches!(&members[1].1, Value::Str(m) if m == "mining.subscribe"));
            assert_eq!(members[2].0, "params");
            match &members[2].1 {
                Value::Array(p) => {
                    assert_eq!(p.len(), 4);
                    assert!(matches!(&p[0], Value::Str(a) if a == "agent/1.0"));
                    assert!(matches!(p[1], Value::Null));
                    assert!(matches!(p[2], Value::Null));
                    assert!(matches!(p[3], Value::Null));
                }
                other => panic!("params: {:?}", other),
            }
        }
        other => panic!("not an object: {:?}", other),
    }
}

#[test]
fn notification_without_id_parses() {
    let doc = object(vec![
        ("method", s("mining.set_difficulty")),
        ("params", Value::Array(vec![Value::Int(512)])),
    ]);
    match parse_frame(doc).unwrap() {
        Frame::Request(q) => {
            assert_eq!(q.id, None);
            assert_eq!(q.payload.method, Method::SetDifficulty);
        }
        other => panic!("not a request: {:?}", other),
    }
}

#[test]
fn envelope_faults_are_refused() {
    assert!(matches!(parse_frame(Value::Array(vec![])), Err(Error::BadEnvelope)));
    let unknown = object(vec![
        ("id", Value::Int(2)),
        ("method", s("mining.nothing")),
        ("params", Value::Array(vec![])),
    ]);
    assert!(matches!(parse_frame(unknown), Err(Error::BadEnvelope)));
    let no_params = object(vec![("id", Value::Int(2)), ("method", s("mining.notify"))]);
    assert!(matches!(parse_frame(no_params), Err(Error::BadEnvelope)));
    let text_id = object(vec![
        ("id", s("2")),
        ("method", s("mining.notify")),
        ("params", Value::Array(vec![])),
    ]);
    assert!(matches!(parse_frame(text_id), Err(Error::BadEnvelope)));
    let response_without_id = object(vec![("result", Value::Bool(true)), ("error", Value::Null)]);
    assert!(matches!(parse_frame(response_without_id), Err(Error::BadEnvelope)));
}

#[test]
fn response_frames_parse() {
    let ok = object(vec![("id", Value::Int(4)), ("result", Value::Bool(true)), ("error", Value::Null)]);
    match parse_frame(ok).unwrap() {
        Frame::Response(r) => {
            assert_eq!(r.id, 4);
            assert!(matches!(r.payload.result(), Some(Value::Bool(true))));
            assert!(r.payload.error().is_none());
        }
        other => panic!("not a response: {:?}", other),
    }
    let failed = object(vec![
        ("id", Value::Int(5)),
        ("result", Value::Null),
        ("error", Value::Array(vec![Value::Int(21), s("Job not found"), Value::Null])),
    ]);
    match parse_frame(failed).unwrap() {
        Frame::Response(r) => {
            assert_eq!(r.id, 5);
            assert!(r.payload.result().is_none());
            assert!(matches!(r.payload.error(), Some(Value::Array(_))));
        }
        other => panic!("not a response: {:?}", other),
    }
}

#[test]
fn response_needs_result_or_error_but_not_both() {
    let both = Response::new(1, Some(Value::Bool(true)), Some(s("bad")));
    assert!(matches!(both, Err(Error::ResultXorError)));
    let neither = Response::new(1, None, None);
    assert!(matches!(neither, Err(Error::ResultXorError)));
    let nulls = Response::new(1, Some(Value::Null), Some(Value::Null));
    assert!(matches!(nulls, Err(Error::ResultXorError)));
    let one = Response::new(1, Some(Value::Bool(false)), None).unwrap();
    assert!(matches!(one.payload, ResponsePayload::Success(Value::Bool(false))));
    let other = Response::new(1, None, Some(s("bad"))).unwrap();
    assert!(matches!(other.payload, ResponsePayload::Failure(_)));

    let doc = object(vec![("id", Value::Int(1)), ("result", Value::Int(1)), ("error", s("x"))]);
    assert!(matches!(parse_frame(doc), Err(Error::ResultXorError)));
    let doc = object(vec![("id", Value::Int(1)), ("result", Value::Null), ("error", Value::Null)]);
    assert!(matches!(parse_frame(doc), Err(Error::ResultXorError)));
}

#[test]
fn response_frame_round_trips() {
    let frame = Frame::Response(Response::new(9, None, Some(s("stale"))).unwrap());
    match parse_frame(frame.into_value()).unwrap() {
        Frame::Response(r) => {
            assert_eq!(r.id, 9);
            assert!(matches!(r.payload, ResponsePayload::Failure(Value::Str(ref e)) if e == "stale"));
        }
        other => panic!("not a response: {:?}", other),
    }
}

#[test]
fn later_member_wins() {
    let doc = object(vec![
        ("id", Value::Int(1)),
        ("id", Value::Int(2)),
        ("method", s("mining.authorize")),
        ("params", Value::Array(vec![s("u"), s("p")])),
    ]);
    match parse_frame(doc).unwrap() {
        Frame::Request(q) => assert_eq!(q.id, Some(2)),
        other => panic!("not a request: {:?}", other),
    }
}

#[test]
fn method_names() {
    for m in [Method::Subscribe, Method::Authorize, Method::SetDifficulty, Method::Notify, Method::Submit] {
        assert_eq!(Method::from_name(&m.name()), Some(m));
    }
    assert_eq!(Method::Notify.name(), "mining.notify");
    assert_eq!(Method::from_name(&"mining.Notify".to_string()), None);
    let _ = RequestPayload { method: Method::Submit, params: Value::Array(vec![]) };
}
