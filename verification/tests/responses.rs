use waku::error::WakuError;
use waku::response::{
    decode_bool_reply, decode_payload_reply, decode_response, decode_string_reply,
    decode_unit_reply, decode_usize_reply,
};

#[test]
fn decode_success_tag() {
    let reply = decode_response("{\"result\":42}").unwrap();
    assert_eq!(reply.into_result(), Ok(String::from("42")));
}

#[test]
fn decode_error_tag() {
    let reply = decode_response("{\"error\":\"boom\"}").unwrap();
    assert_eq!(reply.into_result(), Err(String::from("boom")));
}

#[test]
fn decode_error_tag_empty_message() {
    let reply = decode_response("{\"error\":\"\"}").unwrap();
    assert_eq!(reply.into_result(), Err(String::from("")));
}

#[test]
fn unknown_shape_is_decode_failed() {
    assert_eq!(decode_response("").unwrap_err(), WakuError::DecodeFailed);
    assert_eq!(decode_response("{\"ok\":1}").unwrap_err(), WakuError::DecodeFailed);
    assert_eq!(decode_response("{\"result\":}").unwrap_err(), WakuError::DecodeFailed);
    assert_eq!(decode_response("{\"result\":1").unwrap_err(), WakuError::DecodeFailed);
    assert_eq!(decode_response("{\"error\":\"a\"b\"}").unwrap_err(), WakuError::DecodeFailed);
    assert_eq!(decode_response("[\"result\",1]").unwrap_err(), WakuError::DecodeFailed);
}

#[test]
fn unit_reply_accepts_any_payload() {
    assert!(decode_unit_reply("{\"result\":null}").is_ok());
    assert!(decode_unit_reply("{\"result\":true}").is_ok());
    assert_eq!(
        decode_unit_reply("{\"error\":\"down\"}").unwrap_err(),
        WakuError::NativeCallFailed(String::from("down"))
    );
    assert_eq!(decode_unit_reply("nonsense").unwrap_err(), WakuError::DecodeFailed);
}

#[test]
fn string_reply_strips_quotes() {
    assert_eq!(
        decode_string_reply("{\"result\":\"abc\"}").unwrap(),
        String::from("abc")
    );
    assert_eq!(
        decode_string_reply("{\"result\":abc}").unwrap_err(),
        WakuError::DecodeFailed
    );
    assert_eq!(
        decode_string_reply("{\"result\":\"a\"b\"}").unwrap_err(),
        WakuError::DecodeFailed
    );
    assert_eq!(
        decode_string_reply("{\"error\":\"oops\"}").unwrap_err(),
        WakuError::NativeCallFailed(String::from("oops"))
    );
}

#[test]
fn usize_reply_parses_decimal() {
    assert_eq!(decode_usize_reply("{\"result\":0}").unwrap(), 0);
    assert_eq!(decode_usize_reply("{\"result\":1307}").unwrap(), 1307);
    assert_eq!(decode_usize_reply("{\"result\":12a}").unwrap_err(), WakuError::DecodeFailed);
    assert_eq!(
        decode_usize_reply("{\"result\":99999999999999999999999999}").unwrap_err(),
        WakuError::DecodeFailed
    );
    assert_eq!(
        decode_usize_reply("{\"error\":\"no store\"}").unwrap_err(),
        WakuError::NativeCallFailed(String::from("no store"))
    );
}

#[test]
fn bool_reply_parses_literals() {
    assert_eq!(decode_bool_reply("{\"result\":true}").unwrap(), true);
    assert_eq!(decode_bool_reply("{\"result\":false}").unwrap(), false);
    assert_eq!(decode_bool_reply("{\"result\":1}").unwrap_err(), WakuError::DecodeFailed);
}

#[test]
fn payload_reply_hands_text_through() {
    assert_eq!(
        decode_payload_reply("{\"result\":[1,2,3]}").unwrap(),
        String::from("[1,2,3]")
    );
    assert_eq!(
        decode_payload_reply("{\"error\":\"nope\"}").unwrap_err(),
        WakuError::NativeCallFailed(String::from("nope"))
    );
}
