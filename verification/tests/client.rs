use dld::common::client::{
    check_login, classify_response, decode_gbk_to_json, preview_around, repair_dirty_json, ClientError,
    ClientStatus, LoginError, ResponseVerdict,
};

#[test]
fn test_strip_trailing_comma_in_object() {
    assert_eq!(repair_dirty_json(r#"{"a":1,}"#), r#"{"a":1}"#);
}

#[test]
fn test_strip_trailing_comma_in_array() {
    assert_eq!(repair_dirty_json("[1,2,]"), "[1,2]");
}

#[test]
fn test_strip_trailing_comma_with_whitespace() {
    assert_eq!(repair_dirty_json("{\"a\":1 , \n}"), "{\"a\":1  \n}");
}

#[test]
fn test_keep_comma_inside_string() {
    assert_eq!(repair_dirty_json(r#"{"msg":"a,}b"}"#), r#"{"msg":"a,}b"}"#);
}

#[test]
fn test_keep_comma_after_escaped_quote() {
    let text = r#"{"msg":"a\",}x"}"#;
    assert_eq!(repair_dirty_json(text), text);
}

#[test]
fn test_strip_comma_after_double_backslash() {
    assert_eq!(repair_dirty_json(r#"{"msg":"a\\",}"#), r#"{"msg":"a\\"}"#);
}

#[test]
fn test_keep_valid_json_unchanged() {
    let text = r#"{"a":1, "b":[1,2], "c":"x,y"}"#;
    assert_eq!(repair_dirty_json(text), text);
}

#[test]
fn test_keep_consecutive_commas_unchanged() {
    let text = r#"{"a":1,, "b":2}"#;
    assert_eq!(repair_dirty_json(text), text);
}

#[test]
fn test_strip_trailing_comma_in_empty_container() {
    assert_eq!(repair_dirty_json("{,}"), "{}");
    assert_eq!(repair_dirty_json("[,]"), "[]");
}

#[test]
fn test_fix_invalid_escape_inside_string() {
    assert_eq!(repair_dirty_json(r#"{"msg":"a\qb"}"#), r#"{"msg":"a\\qb"}"#);
}

#[test]
fn test_keep_valid_escapes_unchanged() {
    let text = r#"{"msg":"a\nb\tc\"d\\e\u4e2df"}"#;
    assert_eq!(repair_dirty_json(text), text);
}

#[test]
fn test_keep_backslash_outside_string_unchanged() {
    let text = r#"{k\q: 1}"#;
    assert_eq!(repair_dirty_json(text), text);
}

#[test]
fn test_decode_gbk_to_json_recovers_trailing_comma() {
    let value = decode_gbk_to_json(b"{\"a\":1,}").unwrap();
    assert_eq!(value["a"], 1);
}

#[test]
fn test_decode_gbk_to_json_takes_first_object_with_dirty_data() {
    let value = decode_gbk_to_json(b"{\"a\":1,}{\"b\":2}").unwrap();
    let expected: serde_json::Value = serde_json::from_str("{\"a\": 1}").unwrap();
    assert_eq!(value, expected);
}

#[test]
fn test_decode_gbk_to_json_gbk_chinese_with_trailing_comma() {
    // the GBK encoding of {"msg":"大",}
    let bytes: &[u8] = b"{\"msg\":\"\xb4\xf3\",}";
    let value = decode_gbk_to_json(bytes).unwrap();
    assert_eq!(value["msg"], "大");
}

#[test]
fn test_decode_gbk_to_json_error_includes_preview() {
    let err = decode_gbk_to_json(b"{\"a\":").unwrap_err();
    let msg = err.to_string();
    // the error is at the end, so the piece is the whole response, without ellipsis
    assert!(msg.contains("原始响应片段：{\"a\":"), "the message carries the piece: {msg}");
}

#[test]
fn test_decode_gbk_to_json_fixes_invalid_escape() {
    let value = decode_gbk_to_json(b"{\"msg\":\"line1\\line2\"}").unwrap();
    assert_eq!(value["msg"], "line1\\line2");
}

#[test]
fn test_decode_gbk_to_json_gbk_chinese_with_invalid_escape() {
    // the GBK encoding of {"msg":"第一行\第二行"}
    let bytes: &[u8] = b"{\"msg\":\"\xb5\xda\xd2\xbb\xd0\xd0\\\xb5\xda\xb6\xfe\xd0\xd0\"}";
    let value = decode_gbk_to_json(bytes).unwrap();
    assert_eq!(value["msg"], "第一行\\第二行");
}

#[test]
fn test_preview_around_middle() {
    let text = "0123456789012345678901234567890123456789012345678901234567890123456789012345678901234567890123456789";
    assert_eq!(preview_around(text, 1, 45), "…4567890123456789012345678901234567890123…");
}

#[test]
fn test_preview_around_start() {
    assert_eq!(preview_around("abc", 1, 2), "abc");
}

#[test]
fn test_preview_around_end() {
    assert_eq!(preview_around("abc", 1, 3), "abc");
}

#[test]
fn test_preview_around_count_chars_not_bytes() {
    let text = "中文字符测试中文字符测试中文字符测试";
    assert_eq!(preview_around(text, 1, 5), text);
}

#[test]
fn test_preview_around_multi_line() {
    assert_eq!(preview_around("ab\ncd", 2, 2), "cd");
}

#[test]
fn clean_json_is_left_alone() {
    let text = "{\"a\":[1,{\"b\":\"c\\\\d\"}]}";
    assert_eq!(repair_dirty_json(text), text);
    assert_eq!(repair_dirty_json(&repair_dirty_json("[1,]")), "[1]");
}

#[test]
fn decode_gbk_plain_object() {
    let value = decode_gbk_to_json(b"{\"result\":\"0\",\"msg\":\"ok\"}").unwrap();
    assert_eq!(value["result"], "0");
    assert_eq!(value["msg"], "ok");
}

#[test]
fn decode_gbk_reports_error_for_garbage() {
    let err = decode_gbk_to_json(b"not json").unwrap_err();
    assert!(err.contains("原始响应片段："));
}

#[test]
fn classify_busy_retries_then_accepts() {
    assert_eq!(classify_response(Some("-2"), Some("系统繁忙，请稍后"), 1), ResponseVerdict::Retry);
    assert_eq!(classify_response(Some("-2"), Some("系统繁忙，请稍后"), 3), ResponseVerdict::Accept);
    assert_eq!(classify_response(Some("-2"), Some("别的"), 1), ResponseVerdict::Accept);
    assert_eq!(classify_response(Some("-2"), None, 1), ResponseVerdict::Accept);
}

#[test]
fn classify_cookie_and_maintenance() {
    assert_eq!(
        classify_response(Some("-5"), Some("登录失效"), 1),
        ResponseVerdict::CookieInvalid("登录失效".to_string())
    );
    assert_eq!(
        classify_response(Some("-5"), None, 1),
        ResponseVerdict::CookieInvalid("Cookie 无效！".to_string())
    );
    assert_eq!(classify_response(Some("-5"), Some("你已经领取过本届斗币福利！"), 1), ResponseVerdict::Accept);
    assert_eq!(
        classify_response(Some("-10086"), None, 1),
        ResponseVerdict::Maintenance("大乐斗维护中！".to_string())
    );
    assert_eq!(classify_response(Some("0"), Some("ok"), 1), ResponseVerdict::Accept);
    assert_eq!(classify_response(None, Some("ok"), 1), ResponseVerdict::Accept);
}

#[test]
fn status_remembers_refusals() {
    let mut s = ClientStatus::new();
    assert_eq!(s.check_ready(), Ok(()));
    s.record(&ResponseVerdict::Maintenance("m".to_string()));
    assert_eq!(s.check_ready(), Err(ClientError::UnderMaintenance));
    s.record(&ResponseVerdict::Accept);
    assert_eq!(s.check_ready(), Err(ClientError::UnderMaintenance));
    s.record(&ResponseVerdict::CookieInvalid("c".to_string()));
    assert_eq!(s.check_ready(), Err(ClientError::CookieExpired));
}

#[test]
fn login_check_outcomes() {
    assert_eq!(check_login(0, "ok", 0), Ok(()));
    assert_eq!(check_login(-1, "bad", 0), Err(LoginError::Unexpected(-1, "bad".to_string())));
    assert_eq!(check_login(0, "ok", 30), Err(LoginError::AntiAddiction(30)));
}

#[test]
fn decode_returns_the_first_value_of_the_text() {
    let value = decode_gbk_to_json(b"{\"result\":\"0\",\"msg\":\"ok\"} trailing").unwrap();
    assert_eq!(value["result"], "0");
    assert_eq!(value["msg"], "ok");
    let repaired = decode_gbk_to_json(b"[1,2,]").unwrap();
    let items = repaired.as_array().unwrap();
    assert_eq!(items.len(), 2);
    assert_eq!(items[0], 1);
    assert_eq!(items[1], 2);
}
