use resp_envelope::{
    envelope_body, envelope_response, error, error_respond_to, interceptor, success, success_respond_to, throw,
    throw_tips, unauthorized, Auth, ContentKind, Error, ErrorCode, Response, STATUS_BAD_REQUEST,
    STATUS_OK,
};

#[test]
fn success_envelope_fields() {
    let r = success(Some(String::from("Hey test!")));
    assert_eq!(r.code, 200);
    assert_eq!(r.data, Some(String::from("Hey test!")));
    assert_eq!(r.msg, "成功");
}

#[test]
fn success_serializes_payload() {
    let payload = String::from("Hey test!");
    let json = serde_json::to_string(&payload).unwrap();
    let w = success_respond_to(Some(payload), &json);
    assert_eq!(w.status, 200);
    assert!(matches!(w.content, ContentKind::Json));
    assert_eq!(w.body, "{\"code\":200,\"data\":\"Hey test!\",\"msg\":\"成功\"}");
}

#[test]
fn success_without_payload_is_null() {
    let w = success_respond_to::<i32>(None, "17");
    assert_eq!(w.body, "{\"code\":200,\"data\":null,\"msg\":\"成功\"}");
}

#[test]
fn error_serializes_payload() {
    let payload = vec![1, 2, 3];
    let json = serde_json::to_string(&payload).unwrap();
    let w = error_respond_to(Some(payload), &json);
    assert_eq!(w.status, STATUS_OK);
    assert!(matches!(w.content, ContentKind::Json));
    assert_eq!(w.body, "{\"code\":0,\"data\":[1,2,3],\"msg\":\"失败\"}");
}

#[test]
fn error_envelope_fields() {
    let r = error(Some(5u8));
    assert_eq!(r.code, 0);
    assert_eq!(r.data, Some(5u8));
    assert_eq!(r.msg, "失败");
}

#[test]
fn unauthorized_body() {
    let w = unauthorized();
    assert_eq!(w.status, 200);
    assert!(matches!(w.content, ContentKind::Json));
    assert_eq!(w.body, "{\"code\":0,\"data\":null,\"msg\":\"无权限访问\"}");
}

#[test]
fn tips_substitutes_placeholder() {
    let ec = ErrorCode::new(1001, "missing %s");
    assert_eq!(ec.tips("user"), "missing user");
    assert_eq!(ec.message(), "missing %s");
    assert_eq!(ec.code(), 1001);
}

#[test]
fn tips_replaces_every_placeholder() {
    let ec = ErrorCode::new(7, "%s and %s%s");
    assert_eq!(ec.tips("x"), "x and xx");
    let ec = ErrorCode::new(7, "%%ss");
    assert_eq!(ec.tips("ab"), "%abs");
}

#[test]
fn tips_without_placeholder_is_unchanged() {
    let ec = ErrorCode::new(1002, "not found");
    assert_eq!(ec.tips("anything"), "not found");
    assert_eq!(ec.tips(""), "not found");
    let ec = ErrorCode::new(1003, "");
    assert_eq!(ec.tips("x"), "");
}

#[test]
fn throw_keeps_raw_template() {
    let ec = ErrorCode::new(1001, "missing %s");
    let w = throw(ErrorCode::new(1001, "missing %s"));
    assert_eq!(w.status, 200);
    assert!(matches!(w.content, ContentKind::Json));
    assert_eq!(w.body, "{\"code\":1001,\"data\":null,\"msg\":\"missing %s\"}");
    assert_eq!(ec.throw().body, w.body);
}

#[test]
fn throw_tips_substitutes() {
    let ec = ErrorCode::new(1001, "missing %s");
    let w = throw_tips(ErrorCode::new(1001, "missing %s"), "user");
    assert_eq!(w.status, 200);
    assert_eq!(w.body, "{\"code\":1001,\"data\":null,\"msg\":\"missing user\"}");
    assert_eq!(ec.throw_tips("user").body, w.body);
}

#[test]
fn throw_keeps_full_64_bit_code() {
    let ec = ErrorCode::new((1i64 << 32) + 7, "big");
    assert_eq!(ec.throw().body, "{\"code\":4294967303,\"data\":null,\"msg\":\"big\"}");
    let ec = ErrorCode::new(-3, "neg");
    assert_eq!(ec.throw().body, "{\"code\":-3,\"data\":null,\"msg\":\"neg\"}");
    let w = throw_tips(ErrorCode::new(i64::MIN, "%s"), "m");
    assert_eq!(w.body, "{\"code\":-9223372036854775808,\"data\":null,\"msg\":\"m\"}");
}

#[test]
fn describe_error_code() {
    assert_eq!(ErrorCode::new(1001, "missing %s").describe(), "(1001, missing %s)");
    assert_eq!(ErrorCode::default().describe(), "(0, )");
}

#[test]
fn envelope_response_parts() {
    let w = envelope_response(5_000_000_000, "[true]", "ok");
    assert_eq!(w.status, 200);
    assert!(matches!(w.content, ContentKind::Json));
    assert_eq!(w.body, "{\"code\":5000000000,\"data\":[true],\"msg\":\"ok\"}");
}

#[test]
fn message_control_characters_are_escaped() {
    let body = envelope_body(0, "null", "a\u{1}b\\c\u{8}\u{c}\r\u{1f}é");
    assert_eq!(body, "{\"code\":0,\"data\":null,\"msg\":\"a\\u0001b\\\\c\\b\\f\\r\\u001fé\"}");
}

#[test]
fn code_string_is_decimal() {
    assert_eq!(ErrorCode::new(1001, "m").code_string(), Some(String::from("1001")));
    assert_eq!(ErrorCode::new(0, "m").code_string(), Some(String::from("0")));
    assert_eq!(ErrorCode::new(-42, "m").code_string(), Some(String::from("-42")));
    assert_eq!(
        ErrorCode::new(i64::MIN, "m").code_string(),
        Some(String::from("-9223372036854775808"))
    );
    assert_eq!(
        ErrorCode::new(i64::MAX, "m").code_string(),
        Some(String::from("9223372036854775807"))
    );
}

#[test]
fn message_is_escaped_as_json() {
    let body = envelope_body(1, "null", "say \"hi\"\n");
    assert_eq!(body, "{\"code\":1,\"data\":null,\"msg\":\"say \\\"hi\\\"\\n\"}");
}

#[test]
fn body_json_ignores_payload_text_when_absent() {
    let r: Response<u32> = Response { code: 3, data: None, msg: String::from("m") };
    assert_eq!(r.body_json("99"), "{\"code\":3,\"data\":null,\"msg\":\"m\"}");
    let r: Response<u32> = Response { code: 3, data: Some(99), msg: String::from("m") };
    assert_eq!(r.body_json("99"), "{\"code\":3,\"data\":99,\"msg\":\"m\"}");
}

#[test]
fn envelope_round_trips_through_json() {
    let payload = vec![String::from("a\"b"), String::from("中文")];
    let json = serde_json::to_string(&payload).unwrap();
    let r = Response { code: -17, data: Some(payload.clone()), msg: String::from("tab\there") };
    let body = r.body_json(&json);
    let v: serde_json::Value = serde_json::from_str(&body).unwrap();
    assert_eq!(v["code"].as_i64(), Some(-17));
    let back: Vec<String> = serde_json::from_value(v["data"].clone()).unwrap();
    assert_eq!(back, payload);
    assert_eq!(v["msg"].as_str(), Some("tab\there"));
}

#[test]
fn round_trip_without_payload() {
    let w = unauthorized();
    let v: serde_json::Value = serde_json::from_str(&w.body).unwrap();
    assert_eq!(v["code"].as_i64(), Some(0));
    assert!(v["data"].is_null());
    assert_eq!(v["msg"].as_str(), Some("无权限访问"));
}

#[test]
fn failure_renders_location() {
    let e = Error::new("x.src", 42, String::from("boom"));
    assert_eq!(e.render(), "x.src:42 boom");
    let w = e.respond_to();
    assert_eq!(w.status, 400);
    assert_eq!(w.status, STATUS_BAD_REQUEST);
    assert!(matches!(w.content, ContentKind::Html));
    assert_eq!(w.body, "x.src:42 boom");
}

#[test]
fn failure_with_empty_message() {
    let e = Error::new("", 0, String::new());
    assert_eq!(e.render(), ":0 ");
    assert_eq!(e.file, "");
    assert_eq!(e.line, 0);
}

struct Gate {
    open: bool,
}

impl Auth for Gate {
    fn granted(&self) -> bool {
        self.open
    }

    fn refusal(&self) -> Response<Vec<i32>> {
        Response { code: 401, data: Some(vec![1]), msg: String::from("denied") }
    }

    fn response(&self) -> Response<Vec<i32>> {
        Response { code: 401, data: Some(vec![1]), msg: String::from("denied") }
    }

    fn ok(&self) -> bool {
        self.open
    }
}

#[test]
#[allow(deprecated)]
fn interceptor_refuses_closed_gate() {
    let r = interceptor(Gate { open: false }).unwrap();
    assert_eq!(r.code, 401);
    assert_eq!(r.data, Some(vec![1]));
    assert!(interceptor(Gate { open: true }).is_none());
}
