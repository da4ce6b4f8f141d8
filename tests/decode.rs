use mpvipc::data::encode_primitive;
use mpvipc::json::{parse_isize, parse_u64, parse_usize};
use mpvipc::{
    get_value_as_string, json_to_data, Data, Error, ErrorCode, Float, Json, MpvDataType,
    PlaylistEntry, TypeHandler,
};

fn s(t: &str) -> String {
    t.to_string()
}

fn num(t: &str) -> Json {
    Json::Number(s(t))
}

fn obj(entries: Vec<(&str, Json)>) -> Json {
    Json::Object(entries.into_iter().map(|(k, v)| (s(k), v)).collect())
}

fn ok_reply(data: Json) -> Data {
    Data { data, request_id: Some(0), error: s("success") }
}

fn failed_reply(data: Json, error: &str) -> Data {
    Data { data, request_id: Some(0), error: s(error) }
}

fn player_error(r: Error) -> String {
    match r.0 {
        ErrorCode::MpvError(m) => m,
        other => panic!("not a player error: {:?}", other),
    }
}

#[test]
fn float_payload_decodes_exactly() {
    let v = <Float as TypeHandler>::get_value(&ok_reply(num("12.5"))).unwrap();
    assert_eq!(v.0, "12.5");
    assert_eq!(v.0.parse::<f64>().unwrap(), 12.5);
}

#[test]
fn typed_payloads_decode() {
    assert!(<bool as TypeHandler>::get_value(&ok_reply(Json::Bool(true))).unwrap());
    assert!(!<bool as TypeHandler>::get_value(&ok_reply(Json::Bool(false))).unwrap());
    assert_eq!(
        <String as TypeHandler>::get_value(&ok_reply(Json::String(s("movie.mkv")))).unwrap(),
        "movie.mkv"
    );
    assert_eq!(<usize as TypeHandler>::get_value(&ok_reply(num("42"))).unwrap(), 42);
    assert_eq!(<usize as TypeHandler>::get_value(&ok_reply(num("0"))).unwrap(), 0);
}

#[test]
fn map_payload_keeps_every_entry() {
    let data = obj(vec![("artist", Json::String(s("A"))), ("track", num("3"))]);
    let m = <Vec<(String, MpvDataType)> as TypeHandler>::get_value(&ok_reply(data)).unwrap();
    assert_eq!(m.len(), 2);
    assert_eq!(m[0].0, "artist");
    assert!(matches!(&m[0].1, MpvDataType::String(v) if v == "A"));
    assert_eq!(m[1].0, "track");
    assert!(matches!(m[1].1, MpvDataType::Usize(3)));
}

#[test]
fn player_error_wins_over_any_payload() {
    let msg = "property unavailable";
    let e = <bool as TypeHandler>::get_value(&failed_reply(Json::Bool(true), msg)).unwrap_err();
    assert_eq!(player_error(e), msg);
    let e = <String as TypeHandler>::get_value(&failed_reply(Json::String(s("x")), msg)).unwrap_err();
    assert_eq!(player_error(e), msg);
    let e = <usize as TypeHandler>::get_value(&failed_reply(num("1"), msg)).unwrap_err();
    assert_eq!(player_error(e), msg);
    let e = <Float as TypeHandler>::get_value(&failed_reply(num("1.5"), msg)).unwrap_err();
    assert_eq!(player_error(e), msg);
    let e = <Vec<(String, MpvDataType)> as TypeHandler>::get_value(&failed_reply(obj(vec![]), msg))
        .unwrap_err();
    assert_eq!(player_error(e), msg);
    let e = <Vec<PlaylistEntry> as TypeHandler>::get_value(&failed_reply(Json::Array(vec![]), msg))
        .unwrap_err();
    assert_eq!(player_error(e), msg);
    let e = get_value_as_string(&failed_reply(Json::Null, msg)).unwrap_err();
    assert_eq!(player_error(e), msg);
}

#[test]
fn mismatched_payloads_name_the_expected_type() {
    let e = <bool as TypeHandler>::get_value(&ok_reply(num("1"))).unwrap_err();
    assert!(matches!(e.0, ErrorCode::ValueDoesNotContainBool));
    let e = <String as TypeHandler>::get_value(&ok_reply(Json::Null)).unwrap_err();
    assert!(matches!(e.0, ErrorCode::ValueDoesNotContainString));
    let e = <usize as TypeHandler>::get_value(&ok_reply(num("12.5"))).unwrap_err();
    assert!(matches!(e.0, ErrorCode::ValueDoesNotContainUsize));
    let e = <usize as TypeHandler>::get_value(&ok_reply(num("-1"))).unwrap_err();
    assert!(matches!(e.0, ErrorCode::ValueDoesNotContainUsize));
    let e = <Float as TypeHandler>::get_value(&ok_reply(num("3"))).unwrap_err();
    assert!(matches!(e.0, ErrorCode::ValueDoesNotContainF64));
    let e = <Float as TypeHandler>::get_value(&ok_reply(Json::String(s("3.5")))).unwrap_err();
    assert!(matches!(e.0, ErrorCode::ValueDoesNotContainF64));
    let e = <Vec<(String, MpvDataType)> as TypeHandler>::get_value(&ok_reply(Json::Array(vec![])))
        .unwrap_err();
    assert!(matches!(e.0, ErrorCode::ValueDoesNotContainHashMap));
    let e = <Vec<PlaylistEntry> as TypeHandler>::get_value(&ok_reply(obj(vec![]))).unwrap_err();
    assert!(matches!(e.0, ErrorCode::ValueDoesNotContainPlaylist));
}

#[test]
fn playlist_entries_take_defaults() {
    let data = Json::Array(vec![
        obj(vec![("filename", Json::String(s("a.mp4"))), ("current", Json::Bool(true))]),
        obj(vec![("filename", Json::String(s("b.mp4"))), ("title", Json::String(s("B")))]),
    ]);
    let p = <Vec<PlaylistEntry> as TypeHandler>::get_value(&ok_reply(data)).unwrap();
    assert_eq!(p.len(), 2);
    assert_eq!(p[0].id, 0);
    assert_eq!(p[0].filename, "a.mp4");
    assert_eq!(p[0].title, "");
    assert!(p[0].current);
    assert_eq!(p[1].id, 1);
    assert_eq!(p[1].filename, "b.mp4");
    assert_eq!(p[1].title, "B");
    assert!(!p[1].current);
}

#[test]
fn playlist_entry_of_other_shape_is_all_defaults() {
    let data = Json::Array(vec![
        num("7"),
        obj(vec![("filename", num("1")), ("title", Json::Null), ("current", Json::String(s("yes")))]),
    ]);
    let p = <Vec<PlaylistEntry> as TypeHandler>::get_value(&ok_reply(data)).unwrap();
    assert_eq!(p.len(), 2);
    for (i, e) in p.iter().enumerate() {
        assert_eq!(e.id, i);
        assert_eq!(e.filename, "");
        assert_eq!(e.title, "");
        assert!(!e.current);
    }
}

#[test]
fn numbers_split_into_integers_and_floats() {
    assert!(matches!(json_to_data(&num("42")), MpvDataType::Usize(42)));
    assert!(matches!(json_to_data(&num("-3")), MpvDataType::Double(f) if f.0 == "-3"));
    assert!(matches!(json_to_data(&num("1e3")), MpvDataType::Double(f) if f.0 == "1e3"));
    assert!(matches!(json_to_data(&num("0.5")), MpvDataType::Double(f) if f.0 == "0.5"));
    let huge = "18446744073709551616";
    assert!(matches!(json_to_data(&num(huge)), MpvDataType::Double(f) if f.0 == huge));
}

#[test]
fn every_json_value_decodes() {
    let j = Json::Array(vec![
        Json::Null,
        Json::Bool(false),
        num("1"),
        Json::String(s("x")),
        Json::Array(vec![Json::Array(vec![])]),
        obj(vec![("k", Json::Null)]),
    ]);
    match json_to_data(&j) {
        MpvDataType::Array(items) => {
            assert_eq!(items.len(), 6);
            assert!(matches!(items[0], MpvDataType::Null));
            assert!(matches!(items[1], MpvDataType::Bool(false)));
            assert!(matches!(items[2], MpvDataType::Usize(1)));
            assert!(matches!(&items[3], MpvDataType::String(v) if v == "x"));
            assert!(matches!(&items[4], MpvDataType::Array(inner) if inner.len() == 1));
            assert!(matches!(&items[5], MpvDataType::HashMap(m) if m.len() == 1 && m[0].0 == "k"));
        }
        other => panic!("not an array: {:?}", other),
    }
}

#[test]
fn primitives_survive_reencoding() {
    let values = vec![
        Json::Null,
        Json::Bool(true),
        num("1234567"),
        num("2.25"),
        Json::String(s("tea")),
    ];
    for j in values {
        let d = json_to_data(&j);
        let again = json_to_data(&encode_primitive(&d).unwrap());
        assert_eq!(format!("{:?}", d), format!("{:?}", again));
    }
    assert!(matches!(
        encode_primitive(&MpvDataType::Usize(90)),
        Some(Json::Number(t)) if t == "90"
    ));
    assert!(encode_primitive(&MpvDataType::Array(vec![])).is_none());
}

#[test]
fn payloads_render_as_text() {
    let text = |data: Json| get_value_as_string(&ok_reply(data)).unwrap();
    assert_eq!(text(Json::String(s("plain"))), "plain");
    assert_eq!(text(Json::Bool(false)), "false");
    assert_eq!(text(num("0.500000")), "0.500000");
    assert_eq!(text(Json::Null), "null");
    let arr = Json::Array(vec![num("1"), Json::String(s("a\"b")), Json::Bool(true), Json::Null]);
    assert_eq!(text(arr), "[1,\"a\\\"b\",true,null]");
    let o = obj(vec![("x", Json::Array(vec![])), ("y", obj(vec![]))]);
    assert_eq!(text(o), "{\"x\":[],\"y\":{}}");
}

#[test]
fn integer_texts_parse_within_bounds() {
    assert_eq!(parse_usize("0"), Some(0));
    assert_eq!(parse_usize(""), None);
    assert_eq!(parse_usize("12a"), None);
    assert_eq!(parse_usize("+1"), None);
    assert_eq!(parse_u64("18446744073709551615"), Some(u64::MAX));
    assert_eq!(parse_u64("18446744073709551616"), None);
    assert_eq!(parse_isize("-4"), Some(-4));
    assert_eq!(parse_isize("-"), None);
    assert_eq!(parse_isize("-9223372036854775808"), Some(isize::MIN));
    assert_eq!(parse_isize("9223372036854775807"), Some(isize::MAX));
    assert_eq!(parse_isize("9223372036854775808"), None);
    assert_eq!(parse_isize("-9223372036854775809"), None);
}

#[test]
fn error_messages() {
    assert_eq!(ErrorCode::MpvError(s("no such property")).message(), "MpvError: no such property");
    assert_eq!(Error(ErrorCode::ConnectionClosed).message(), "The connection to mpv is closed");
    assert_eq!(
        ErrorCode::UnrecognizedEventPayload(s("pause")).message(),
        "Unexpected payload for property pause"
    );
    assert_eq!(
        ErrorCode::ValueDoesNotContainBool.message(),
        "The received value is not of type 'std::bool'"
    );
    assert_eq!(
        ErrorCode::ValueDoesNotContainF64.message(),
        "The received value is not of type 'std::f64'"
    );
    assert_eq!(
        ErrorCode::ValueDoesNotContainHashMap.message(),
        "The received value is not of type 'std::collections::HashMap'"
    );
    assert_eq!(
        ErrorCode::ValueDoesNotContainPlaylist.message(),
        "The received value is not of type 'mpvipc::Playlist'"
    );
    assert_eq!(
        ErrorCode::ValueDoesNotContainString.message(),
        "The received value is not of type 'std::string::String'"
    );
    assert_eq!(
        ErrorCode::ValueDoesNotContainUsize.message(),
        "The received value is not of type 'std::usize'"
    );
    assert_eq!(ErrorCode::UnexpectedValue.message(), "Unexpected value received");
    assert_eq!(ErrorCode::JsonParseError(s("eof")).message(), "JsonParseError: eof");
    assert_eq!(ErrorCode::ConnectError(s("refused")).message(), "ConnectError: refused");
}
