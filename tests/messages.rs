use stratum_v1::dispatch::{Message, VisitLog};
use stratum_v1::error::Error;
use stratum_v1::frame::{parse_frame, Frame, Method, Request, RequestPayload, Response, ResponsePayload};
use stratum_v1::messages::{
    Authorize, Bits, BooleanResult, CoinBase1, CoinBase2, Difficulty, ExtraNonce2, JobId,
    MerkleBranch, Nonce, Notify, PrevHash, SetDifficulty, Submit, SubscribeResult, Subscribe,
    Subscription, Time, UserName, Version,
};
use stratum_v1::primitives::{ExtraNonce1, HexBytes, HexU32Le};
use stratum_v1::value::Value;

fn sample_submit() -> Submit {
    Submit(
        UserName("alice.worker1".to_string()),
        JobId(HexBytes(vec![0xAB, 0xCD])),
        ExtraNonce2(HexBytes(vec![0x01, 0x02])),
        Time(HexU32Le(0x5F000000)),
        Nonce(HexU32Le(0x00000042)),
        Version(HexU32Le(0x20000000)),
    )
}

fn sample_notify() -> Notify {
    Notify(
        JobId::from_slice(&[0x12, 0x34]),
        PrevHash(HexBytes(vec![0x55; 32])),
        CoinBase1(HexBytes(vec![0x01, 0x00, 0x00, 0x00])),
        CoinBase2(HexBytes(vec![0xff, 0xff, 0xff, 0xff])),
        MerkleBranch(vec![HexBytes(vec![0xaa; 32]), HexBytes(vec![0xbb; 32])]),
        Version(HexU32Le(0x20000000)),
        Bits(HexU32Le(0x1703a30c)),
        Time(HexU32Le(0x5d3c1b2a)),
        true,
    )
}

fn sample_subscribe_result() -> SubscribeResult {
    SubscribeResult(
        vec![
            Subscription("mining.set_difficulty".to_string(), "1".to_string()),
            Subscription("mining.notify".to_string(), "2".to_string()),
        ],
        ExtraNonce1(HexBytes(vec![0x08, 0x00, 0x00, 0x2f])),
        4,
    )
}

#[test]
fn submit_through_frame_end_to_end() {
    let sent = sample_submit();
    let payload = sent.clone().into_request_payload();
    assert_eq!(payload.method, Method::Submit);
    let doc = Frame::Request(Request { id: Some(7), payload }).into_value();
    let request = match parse_frame(doc).unwrap() {
        Frame::Request(q) => q,
        other => panic!("not a request: {:?}", other),
    };
    assert_eq!(request.id, Some(7));
    let back = Submit::try_from_request_payload(request.payload).unwrap();
    assert_eq!(back, sent);
    assert_eq!(back.user_name(), "alice.worker1");
    assert_eq!(back.job_id(), &[0xAB, 0xCD]);
    assert_eq!(back.extra_nonce_2(), &[0x01, 0x02]);
    assert_eq!(back.time(), 0x5F000000);
    assert_eq!(back.nonce(), 0x42);
    assert_eq!(back.version(), 0x20000000);
}

#[test]
fn submit_wire_form() {
    match sample_submit().into_value() {
        Value::Array(a) => {
            assert_eq!(a.len(), 6);
            let texts: Vec<String> = a
                .into_iter()
                .map(|v| match v {
                    Value::Str(s) => s,
                    other => panic!("not a string: {:?}", other),
                })
                .collect();
            assert_eq!(texts, vec!["alice.worker1", "abcd", "0102", "0000005f", "42000000", "00000020"]);
        }
        other => panic!("not an array: {:?}", other),
    }
}

#[test]
fn notify_round_trips() {
    let sent = sample_notify();
    let back = Notify::try_from_request_payload(sent.clone().into_request_payload()).unwrap();
    assert_eq!(back, sent);
    assert_eq!(back.job_id(), &[0x12, 0x34]);
    assert_eq!(back.prev_hash(), &[0x55; 32][..]);
    assert_eq!(back.coin_base_1(), &[1, 0, 0, 0]);
    assert_eq!(back.coin_base_2(), &[0xff; 4]);
    assert_eq!(back.merkle_branch().len(), 2);
    assert_eq!(back.version(), 0x20000000);
    assert_eq!(back.bits(), 0x1703a30c);
    assert_eq!(back.time(), 0x5d3c1b2a);
    assert!(back.clean_jobs());
}

#[test]
fn notify_with_eight_params_is_refused() {
    let mut params = match sample_notify().into_value() {
        Value::Array(a) => a,
        other => panic!("not an array: {:?}", other),
    };
    params.pop();
    assert_eq!(params.len(), 8);
    let payload = RequestPayload { method: Method::Notify, params: Value::Array(params) };
    assert_eq!(Notify::try_from_request_payload(payload), Err(Error::ParamShape));
}

#[test]
fn notify_with_wrong_element_type_is_refused() {
    let mut params = match sample_notify().into_value() {
        Value::Array(a) => a,
        other => panic!("not an array: {:?}", other),
    };
    params[5] = Value::Int(0x20000000);
    let payload = RequestPayload { method: Method::Notify, params: Value::Array(params) };
    assert_eq!(Notify::try_from_request_payload(payload), Err(Error::ParamShape));
}

#[test]
fn notify_payload_is_not_a_submit() {
    let payload = sample_notify().into_request_payload();
    assert_eq!(payload.method, Method::Notify);
    assert_eq!(Submit::try_from_request_payload(payload), Err(Error::MethodMismatch));
    let payload = sample_submit().into_request_payload();
    assert_eq!(Notify::try_from_request_payload(payload), Err(Error::MethodMismatch));
}

#[test]
fn subscribe_round_trips() {
    let sent = Subscribe(
        Some("bosminer/1.0".to_string()),
        Some(ExtraNonce1(HexBytes(vec![0xde, 0xad]))),
        Some("pool.example".to_string()),
        Some("3333".to_string()),
    );
    let back = Subscribe::try_from_request_payload(sent.clone().into_request_payload()).unwrap();
    assert_eq!(back, sent);
    assert_eq!(back.extra_nonce1(), Some(&ExtraNonce1(HexBytes(vec![0xde, 0xad]))));
    assert_eq!(back.url().map(|s| s.as_str()), Some("pool.example"));
    assert_eq!(back.port().map(|s| s.as_str()), Some("3333"));
}

#[test]
fn subscribe_needs_four_params() {
    let payload = RequestPayload {
        method: Method::Subscribe,
        params: Value::Array(vec![Value::Str("agent".to_string())]),
    };
    assert_eq!(Subscribe::try_from_request_payload(payload), Err(Error::ParamShape));
}

#[test]
fn authorize_round_trips() {
    let sent = Authorize("alice.worker1".to_string(), "x".to_string());
    let back = Authorize::try_from_request_payload(sent.clone().into_request_payload()).unwrap();
    assert_eq!(back, sent);
    assert_eq!(back.name(), "alice.worker1");
    assert_eq!(back.password(), "x");
    let bad = RequestPayload {
        method: Method::Authorize,
        params: Value::Array(vec![Value::Str("a".to_string()), Value::Int(1)]),
    };
    assert_eq!(Authorize::try_from_request_payload(bad), Err(Error::ParamShape));
}

#[test]
fn set_difficulty_keeps_its_array() {
    let sent = SetDifficulty(Difficulty::Real("0.5".to_string()));
    let payload = sent.clone().into_request_payload();
    match &payload.params {
        Value::Array(a) => {
            assert_eq!(a.len(), 1);
            assert!(matches!(&a[0], Value::Real(t) if t == "0.5"));
        }
        other => panic!("not an array: {:?}", other),
    }
    assert_eq!(SetDifficulty::try_from_request_payload(payload).unwrap(), sent);
    let whole = SetDifficulty(Difficulty::Int(1024));
    assert_eq!(SetDifficulty::try_from_request_payload(whole.clone().into_request_payload()).unwrap(), whole);
    let text = RequestPayload {
        method: Method::SetDifficulty,
        params: Value::Array(vec![Value::Real("abc".to_string())]),
    };
    assert_eq!(SetDifficulty::try_from_request_payload(text), Err(Error::ParamShape));
    let bare = RequestPayload { method: Method::SetDifficulty, params: Value::Int(2) };
    assert_eq!(SetDifficulty::try_from_request_payload(bare), Err(Error::ParamShape));
}

#[test]
fn subscribe_result_round_trips() {
    let sent = sample_subscribe_result();
    let payload = sent.clone().into_response_payload();
    assert!(payload.error().is_none());
    let back = SubscribeResult::try_from_response_payload(payload).unwrap();
    assert_eq!(back, sent);
    assert_eq!(back.subscriptions().len(), 2);
    assert_eq!(back.extra_nonce_1(), &ExtraNonce1(HexBytes(vec![0x08, 0x00, 0x00, 0x2f])));
    assert_eq!(back.extra_nonce_2_size(), 4);
}

#[test]
fn subscribe_result_wire_form() {
    match sample_subscribe_result().into_value() {
        Value::Array(a) => {
            assert_eq!(a.len(), 3);
            assert!(matches!(&a[0], Value::Array(s) if s.len() == 2));
            assert!(matches!(&a[1], Value::Str(t) if t == "0800002f"));
            assert!(matches!(a[2], Value::Int(4)));
        }
        other => panic!("not an array: {:?}", other),
    }
}

#[test]
fn error_response_has_no_result() {
    let failed = ResponsePayload::Failure(Value::Str("unauthorized".to_string()));
    assert_eq!(SubscribeResult::try_from_response_payload(failed), Err(Error::NoResult));
    let failed = ResponsePayload::Failure(Value::Null);
    assert_eq!(BooleanResult::try_from_response_payload(failed), Err(Error::NoResult));
}

#[test]
fn boolean_result_round_trips() {
    for b in [true, false] {
        let payload = BooleanResult(b).into_response_payload();
        assert!(matches!(payload.result(), Some(Value::Bool(x)) if *x == b));
        assert_eq!(BooleanResult::try_from_response_payload(payload), Ok(BooleanResult(b)));
    }
    let wrong = ResponsePayload::Success(Value::Int(1));
    assert_eq!(BooleanResult::try_from_response_payload(wrong), Err(Error::ParamShape));
}

fn deliver(msg: &Message, id: u64, log: &mut VisitLog) {
    let ctx = Frame::Request(Request { id: Some(id), payload: msg.clone().into_request_payload() });
    msg.accept(&ctx, log);
}

#[test]
fn each_variant_reaches_its_own_handler_once() {
    let cases: Vec<(Message, Method)> = vec![
        (Message::Subscribe(Subscribe(None, None, None, None)), Method::Subscribe),
        (Message::Authorize(Authorize("a".to_string(), "b".to_string())), Method::Authorize),
        (Message::SetDifficulty(SetDifficulty(Difficulty::Int(8))), Method::SetDifficulty),
        (Message::Notify(sample_notify()), Method::Notify),
        (Message::Submit(sample_submit()), Method::Submit),
    ];
    for (i, (msg, method)) in cases.into_iter().enumerate() {
        let before = msg.clone();
        let mut log = VisitLog::new();
        deliver(&msg, i as u64, &mut log);
        assert_eq!(log.log, vec![(method, Some(i as u64))]);
        assert_eq!(msg, before);
    }
}

#[test]
fn visits_keep_their_order() {
    let mut log = VisitLog::new();
    deliver(&Message::Submit(sample_submit()), 1, &mut log);
    deliver(&Message::Notify(sample_notify()), 2, &mut log);
    let answer = Frame::Response(Response::new(3, Some(Value::Bool(true)), None).unwrap());
    Message::Authorize(Authorize("a".to_string(), "b".to_string())).accept(&answer, &mut log);
    assert_eq!(
        log.log,
        vec![(Method::Submit, Some(1)), (Method::Notify, Some(2)), (Method::Authorize, Some(3))]
    );
}

#[test]
fn routing_picks_the_type_by_method() {
    let msg = Message::from_request_payload(sample_submit().into_request_payload()).unwrap();
    assert_eq!(msg, Message::Submit(sample_submit()));
    let msg = Message::from_request_payload(sample_notify().into_request_payload()).unwrap();
    assert_eq!(msg, Message::Notify(sample_notify()));
    let wrong = RequestPayload { method: Method::Submit, params: sample_notify().into_value() };
    assert_eq!(Message::from_request_payload(wrong), Err(Error::ParamShape));
}
