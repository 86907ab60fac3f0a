use cc_utils::errors::CliError;
use cc_utils::requests::{
    accepts, after_decode, after_read, intake, is_msgpack_subtype, msgpack_body, resolve_max_size,
    Intake, Outbound, BAD_CONTENT_TYPE, FALLBACK_MAX_SIZE, MSGPACK_MEDIA_TYPE, MSGPACK_SUBTYPE, NIL,
    NIL_PAYLOAD,
};
use cc_utils::responses::{MsgPack, Reply};
use cc_utils::status::StatusCode;
use serde_json::Value;

fn composite() -> Value {
    let mut nested = serde_json::Map::new();
    nested.insert("name".to_string(), Value::from("inner"));
    nested.insert(
        "tags".to_string(),
        Value::Array(vec![Value::from("p"), Value::from("q")]),
    );
    let mut value = serde_json::Map::new();
    value.insert("a".to_string(), Value::from(1));
    value.insert("nested".to_string(), Value::Object(nested));
    value.insert(
        "list".to_string(),
        Value::Array(vec![Value::from(1), Value::from(2), Value::from(3)]),
    );
    value.insert("optional".to_string(), Value::Null);
    Value::Object(value)
}

#[test]
fn constants_of_the_boundary() {
    assert_eq!(FALLBACK_MAX_SIZE, 64 * 1024);
    assert_eq!(MSGPACK_SUBTYPE, "msgpack");
    assert_eq!(MSGPACK_MEDIA_TYPE, "application/msgpack");
    assert_eq!(BAD_CONTENT_TYPE, "Bad content type, must be `application/msgpack`.");
    assert_eq!(NIL, 0xc0);
    assert_eq!(NIL_PAYLOAD, [0xc0]);
    assert_eq!(rmp_serde::to_vec(&()).unwrap(), vec![NIL]);
    assert_eq!(rmp_serde::to_vec(&None::<u8>).unwrap(), vec![NIL]);
}

#[test]
fn subtype_of_msgpack_is_recognised() {
    assert!(is_msgpack_subtype(Some("msgpack".to_string())));
    assert!(!is_msgpack_subtype(Some("plain".to_string())));
    assert!(!is_msgpack_subtype(Some("MSGPACK".to_string())));
    assert!(!is_msgpack_subtype(Some("".to_string())));
    assert!(!is_msgpack_subtype(Some("application/msgpack".to_string())));
    assert!(!is_msgpack_subtype(None));
}

#[test]
fn msgpack_content_types_are_accepted() {
    assert!(accepts(Some("application/msgpack")));
    assert!(accepts(Some("application/msgpack; charset=utf-8")));
    assert!(accepts(Some("APPLICATION/MsgPack")));
    assert!(accepts(Some("x-custom/msgpack")));
}

#[test]
fn other_content_types_are_not_accepted() {
    assert!(!accepts(None));
    assert!(!accepts(Some("text/plain")));
    assert!(!accepts(Some("application/json")));
    assert!(!accepts(Some("application/x-msgpack")));
    assert!(!accepts(Some("msgpack")));
    assert!(!accepts(Some("")));
    assert!(!accepts(Some("application/")));
    assert!(!accepts(Some("not a media type")));
}

#[test]
fn max_size_is_the_requested_then_the_configured_then_the_fallback() {
    assert_eq!(resolve_max_size(Some(10), Some(20)), 10);
    assert_eq!(resolve_max_size(Some(0), None), 0);
    assert_eq!(resolve_max_size(None, Some(20)), 20);
    assert_eq!(resolve_max_size(None, None), 65536);
    assert_eq!(resolve_max_size(Some(usize::MAX), Some(1)), usize::MAX);
}

#[test]
fn request_of_another_content_type_is_rejected_unread() {
    for declared in [Some("text/plain"), Some("application/json"), Some("nonsense"), None] {
        match intake(declared, 1024) {
            Intake::Reject(error) => {
                assert_eq!(error.status_code, Some(StatusCode::bad_request()));
                assert_eq!(error.error_text, "Bad content type, must be `application/msgpack`.");
                assert_eq!(error.original_text, None);
                assert!(error.public_error);
                let mut reply = Reply::new();
                error.write(&mut reply);
                assert_eq!(reply.status_code, Some(StatusCode::bad_request()));
                assert_eq!(reply.body, b"Bad content type, must be `application/msgpack`.");
            }
            Intake::Read { .. } => panic!("the body must not be read"),
        }
    }
}

#[test]
fn msgpack_request_is_read_up_to_the_limit() {
    match intake(Some("application/msgpack"), 1024) {
        Intake::Read { max_size } => assert_eq!(max_size, 1024),
        Intake::Reject(_) => panic!("the request must be read"),
    }
    match intake(Some("application/msgpack; charset=utf-8"), 0) {
        Intake::Read { max_size } => assert_eq!(max_size, 0),
        Intake::Reject(_) => panic!("the request must be read"),
    }
    match intake(Some("application/msgpack"), resolve_max_size(None, None)) {
        Intake::Read { max_size } => assert_eq!(max_size, 65536),
        Intake::Reject(_) => panic!("the request must be read"),
    }
}

#[test]
fn empty_body_is_decoded_as_nil() {
    let empty: Vec<u8> = Vec::new();
    let bytes = after_read(Ok(&empty)).unwrap();
    assert_eq!(bytes, [0xc0]);
    let absent = after_decode(rmp_serde::from_slice::<Option<String>>(bytes)).unwrap();
    assert_eq!(absent, None);
    let absent = after_decode(rmp_serde::from_slice::<Option<(u8, Vec<u8>)>>(bytes)).unwrap();
    assert_eq!(absent, None);
    after_decode(rmp_serde::from_slice::<()>(bytes)).unwrap();
    let null = after_decode(rmp_serde::from_slice::<Value>(bytes)).unwrap();
    assert_eq!(null, Value::Null);
}

#[test]
fn body_that_is_not_empty_is_decoded_as_it_is() {
    assert_eq!(after_read(Ok(&[0x01])).unwrap(), [0x01]);
    assert_eq!(after_read(Ok(&[0xc0])).unwrap(), [0xc0]);
    assert_eq!(after_read(Ok(&[0x00])).unwrap(), [0x00]);
    assert_eq!(after_read(Ok(&[0x92, 0x01, 0x02])).unwrap(), [0x92, 0x01, 0x02]);
    let pair = after_decode(rmp_serde::from_slice::<(u8, u8)>(&[0x92, 0x01, 0x02])).unwrap();
    assert_eq!(pair, (1, 2));
}

#[test]
fn failed_reading_is_handed_on_as_it_is() {
    let error = after_read(Err(salvo::http::ParseError::PayloadTooLarge)).unwrap_err();
    assert_eq!(error.status_code, None);
    assert_eq!(error.error_text, "payload too large");
    assert_eq!(error.original_text, None);
    assert!(!error.public_error);
    let mut reply = Reply::new();
    error.write(&mut reply);
    assert_eq!(reply.status_code, Some(StatusCode::internal_server_error()));
    assert_eq!(reply.body, b"Internal server error. Contact the administrator.");
}

#[test]
fn failed_decoding_is_a_public_400() {
    let failure = rmp_serde::from_slice::<String>(&[0x01]).unwrap_err().to_string();
    let error = after_decode(rmp_serde::from_slice::<String>(&[0x01])).unwrap_err();
    assert_eq!(error.status_code, Some(StatusCode::bad_request()));
    assert_eq!(error.error_text, failure);
    assert_eq!(error.original_text, None);
    assert!(error.public_error);
    let mut reply = Reply::new();
    error.write(&mut reply);
    assert_eq!(reply.status_code, Some(StatusCode::bad_request()));
    assert_eq!(reply.body, failure.as_bytes());
}

#[test]
fn truncated_body_fails_to_decode() {
    let error = after_decode(rmp_serde::from_slice::<(u8, u8)>(&[0x92, 0x01])).unwrap_err();
    assert_eq!(error.status_code, Some(StatusCode::bad_request()));
    assert!(error.public_error);
    assert!(!error.error_text.is_empty());
}

#[test]
fn composite_value_survives_encoding_and_decoding() {
    let value = composite();
    let mut reply = Reply::new();
    MsgPack(value.clone(), "handler").write(rmp_serde::to_vec(&value), &mut reply);
    assert_eq!(reply.status_code, Some(StatusCode::ok()));
    assert_eq!(reply.content_type.as_deref(), Some("application/msgpack; charset=utf-8"));

    let declared = reply.content_type.as_deref();
    let limit = match intake(declared, reply.body.len()) {
        Intake::Read { max_size } => max_size,
        Intake::Reject(_) => panic!("the request must be read"),
    };
    assert_eq!(limit, reply.body.len());
    let bytes = after_read(Ok(&reply.body)).unwrap();
    let decoded = after_decode(rmp_serde::from_slice::<Value>(bytes)).unwrap();
    assert_eq!(decoded, value);
    assert_eq!(decoded["a"], Value::from(1));
    assert_eq!(decoded["optional"], Value::Null);
}

#[test]
fn composite_tuple_survives_encoding_and_decoding() {
    type Shape = (String, (u32, Vec<String>), Vec<(u8, bool)>, Option<String>, Option<u64>);
    let value: Shape = (
        "outer".to_string(),
        (1, vec!["p".to_string(), "q".to_string()]),
        vec![(1, true), (2, false)],
        None,
        Some(u64::MAX),
    );
    let request = Outbound { content_type: None, body: Vec::new() };
    let sent = msgpack_body(request, rmp_serde::to_vec(&value)).unwrap();
    assert!(accepts(sent.content_type.as_deref()));
    let bytes = after_read(Ok(&sent.body)).unwrap();
    let decoded = after_decode(rmp_serde::from_slice::<Shape>(bytes)).unwrap();
    assert_eq!(decoded, value);
}

#[test]
fn outbound_request_declares_msgpack_if_nothing_else() {
    let request = Outbound { content_type: None, body: vec![9, 9] };
    let sent = msgpack_body(request, rmp_serde::to_vec(&(1u8, 2u8))).unwrap();
    assert_eq!(sent.content_type.as_deref(), Some("application/msgpack"));
    assert_eq!(sent.body, vec![0x92, 0x01, 0x02]);
}

#[test]
fn outbound_request_keeps_its_content_type() {
    let request = Outbound { content_type: Some("application/x-custom".to_string()), body: Vec::new() };
    let sent = msgpack_body(request, rmp_serde::to_vec(&(1u8, 2u8))).unwrap();
    assert_eq!(sent.content_type.as_deref(), Some("application/x-custom"));
    assert_eq!(sent.body, vec![0x92, 0x01, 0x02]);
}

#[test]
fn outbound_request_is_given_up_when_encoding_fails() {
    let request = Outbound { content_type: Some("application/x-custom".to_string()), body: vec![1] };
    let failure = rmp_serde::encode::Error::Syntax("cannot be written".to_string());
    let error: CliError = msgpack_body(request, Err(failure)).unwrap_err();
    assert_eq!(error.message, "cannot be written");
    assert_eq!(error.to_text(), "cannot be written");
}
