use mpvipc::correlator::ReplyQueue;
use mpvipc::{classify, route, Data, ErrorCode, Event, Json, MpvMessage, Property, Response, Routed};

fn s(t: &str) -> String {
    t.to_string()
}

fn obj(entries: Vec<(&str, Json)>) -> Json {
    Json::Object(entries.into_iter().map(|(k, v)| (s(k), v)).collect())
}

fn reply(n: &str) -> Data {
    Data { data: Json::String(s(n)), request_id: Some(0), error: s("success") }
}

fn payload(d: &Data) -> String {
    match &d.data {
        Json::String(t) => t.clone(),
        other => panic!("unexpected payload {:?}", other),
    }
}

#[test]
fn messages_are_classified_by_shape() {
    let ev = obj(vec![("event", Json::String(s("idle"))), ("error", Json::String(s("success")))]);
    assert!(matches!(classify(ev), MpvMessage::Event(_)));
    let data = obj(vec![
        ("data", Json::Bool(true)),
        ("request_id", Json::Number(s("7"))),
        ("error", Json::String(s("success"))),
    ]);
    match classify(data) {
        MpvMessage::Data(d) => {
            assert!(matches!(d.data, Json::Bool(true)));
            assert_eq!(d.request_id, Some(7));
            assert_eq!(d.error, "success");
        }
        other => panic!("unexpected {:?}", other),
    }
    let generic = obj(vec![("request_id", Json::Number(s("0"))), ("error", Json::String(s("success")))]);
    assert!(matches!(classify(generic), MpvMessage::GenericResponse(Response { request_id: Some(0), .. })));
    let bare = obj(vec![("error", Json::String(s("success")))]);
    assert!(matches!(classify(bare), MpvMessage::Other(_)));
    let data_no_id = obj(vec![("data", Json::Null), ("error", Json::String(s("error")))]);
    assert!(matches!(classify(data_no_id), MpvMessage::Data(Data { request_id: None, .. })));
    assert!(matches!(classify(Json::Null), MpvMessage::Other(_)));
    let odd_error = obj(vec![("data", Json::Null), ("error", Json::Bool(false))]);
    assert!(matches!(classify(odd_error), MpvMessage::Other(_)));
}

#[test]
fn routes_replies_and_events() {
    let generic = obj(vec![("request_id", Json::Number(s("3"))), ("error", Json::String(s("invalid parameter")))]);
    match route(generic) {
        Routed::Reply(d) => {
            assert!(matches!(d.data, Json::Null));
            assert_eq!(d.error, "invalid parameter");
            assert_eq!(d.request_id, Some(3));
        }
        other => panic!("unexpected {:?}", other),
    }
    let notice = obj(vec![
        ("event", Json::String(s("property-change"))),
        ("name", Json::String(s("pause"))),
        ("id", Json::Number(s("2"))),
        ("data", Json::Bool(true)),
    ]);
    assert!(matches!(
        route(notice),
        Routed::Event(Ok(Event::PropertyChange { id: 2, property: Property::Pause(true) }))
    ));
    assert!(matches!(route(obj(vec![("hello", Json::Null)])), Routed::Dropped(_)));
}

#[test]
fn generic_response_becomes_null_data() {
    let d = Data::from(Response { request_id: Some(1), error: s("success") });
    assert!(matches!(d.data, Json::Null));
    assert_eq!(d.request_id, Some(1));
    assert_eq!(d.error, "success");
}

#[test]
fn replies_come_out_in_arrival_order() {
    let mut q = ReplyQueue::new(8);
    for n in ["first", "second", "third"] {
        assert!(q.offer(reply(n)).is_ok());
    }
    for n in ["first", "second", "third"] {
        let d = q.poll().unwrap().unwrap();
        assert_eq!(payload(&d), n);
    }
    assert!(q.poll().is_none());
}

#[test]
fn closed_queue_drains_then_reports_closed() {
    let mut q = ReplyQueue::new(4);
    assert!(q.offer(reply("late")).is_ok());
    q.close();
    assert!(q.is_closed());
    assert_eq!(payload(&q.poll().unwrap().unwrap()), "late");
    for _ in 0..3 {
        let e = q.poll().unwrap().unwrap_err();
        assert!(matches!(e.0, ErrorCode::ConnectionClosed));
    }
    let back = q.offer(reply("after")).unwrap_err();
    assert_eq!(payload(&back), "after");
}

#[test]
fn full_queue_hands_the_reply_back() {
    let mut q = ReplyQueue::new(1);
    assert!(q.offer(reply("one")).is_ok());
    let back = q.offer(reply("two")).unwrap_err();
    assert_eq!(payload(&back), "two");
    assert_eq!(payload(&q.poll().unwrap().unwrap()), "one");
    assert!(q.offer(reply("two")).is_ok());
}
