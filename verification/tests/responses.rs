use cc_utils::responses::{
    File, Html, Json, MsgPack, Plain, Reply, APPLICATION_JSON, APPLICATION_MSGPACK, OK, TEXT_HTML,
    TEXT_PLAIN,
};
use cc_utils::status::StatusCode;
use std::collections::HashMap;

fn declared(content_type: &str, body: &[u8]) -> Reply {
    let mut reply = Reply::new();
    reply.declare(content_type);
    reply.write_body(body);
    reply
}

fn json_failure() -> serde_json::Error {
    let mut keyed_by_pairs: HashMap<(u8, u8), u8> = HashMap::new();
    keyed_by_pairs.insert((1, 2), 3);
    serde_json::to_string(&keyed_by_pairs).unwrap_err()
}

fn assert_serialization_failure(reply: &Reply, content_type: &str, before: &[u8]) {
    assert_eq!(reply.status_code, Some(StatusCode::internal_server_error()));
    assert_eq!(reply.content_type.as_deref(), Some(content_type));
    let mut body = before.to_vec();
    body.extend_from_slice(b"Failed to serialize data.");
    assert_eq!(reply.body, body);
    assert!(reply.attachment.is_none());
}

#[test]
fn content_types_are_the_documented_ones() {
    assert_eq!(TEXT_PLAIN, "text/plain; charset=utf-8");
    assert_eq!(TEXT_HTML, "text/html; charset=utf-8");
    assert_eq!(APPLICATION_JSON, "application/json; charset=utf-8");
    assert_eq!(APPLICATION_MSGPACK, "application/msgpack; charset=utf-8");
}

#[test]
fn new_reply_is_blank() {
    let reply = Reply::new();
    assert_eq!(reply.status_code, None);
    assert_eq!(reply.content_type, None);
    assert!(reply.body.is_empty());
    assert!(reply.attachment.is_none());
}

#[test]
fn reply_suggest_keeps_a_declared_content_type() {
    let mut reply = Reply::new();
    reply.suggest("a/b");
    assert_eq!(reply.content_type.as_deref(), Some("a/b"));
    reply.suggest("c/d");
    assert_eq!(reply.content_type.as_deref(), Some("a/b"));
    reply.declare("e/f");
    assert_eq!(reply.content_type.as_deref(), Some("e/f"));
}

#[test]
fn reply_body_grows_at_the_end() {
    let mut reply = Reply::new();
    reply.write_body(b"ab");
    reply.write_body(b"");
    reply.write_body(b"c");
    assert_eq!(reply.body, b"abc");
    reply.render("d\u{e9}");
    assert_eq!(reply.body, "abcd\u{e9}".as_bytes());
    assert_eq!(reply.content_type.as_deref(), Some(TEXT_PLAIN));
    reply.set_status(StatusCode::locked());
    assert_eq!(reply.status_code, Some(StatusCode::locked()));
    reply.set_status(StatusCode::ok());
    assert_eq!(reply.status_code, Some(StatusCode::ok()));
}

#[test]
fn ok_writes_200_and_no_body() {
    let mut reply = Reply::new();
    OK("handler").write(&mut reply);
    assert_eq!(reply.status_code, Some(StatusCode::ok()));
    assert_eq!(reply.content_type.as_deref(), Some("text/plain; charset=utf-8"));
    assert!(reply.body.is_empty());
    assert!(reply.attachment.is_none());

    let mut reply = declared("text/css", b"x");
    OK("handler").write(&mut reply);
    assert_eq!(reply.status_code, Some(StatusCode::ok()));
    assert_eq!(reply.content_type.as_deref(), Some("text/css"));
    assert_eq!(reply.body, b"x");
}

#[test]
fn plain_writes_200_and_text() {
    let mut reply = Reply::new();
    Plain("hello".to_string(), "handler").write(&mut reply);
    assert_eq!(reply.status_code, Some(StatusCode::ok()));
    assert_eq!(reply.content_type.as_deref(), Some("text/plain; charset=utf-8"));
    assert_eq!(reply.body, b"hello");

    let mut reply = declared("text/css", b"x");
    Plain("hello".to_string(), "handler").write(&mut reply);
    assert_eq!(reply.content_type.as_deref(), Some("text/css"));
    assert_eq!(reply.body, b"xhello");
}

#[test]
fn html_writes_200_and_page() {
    let mut reply = Reply::new();
    Html("<p>\u{e9}</p>".to_string(), "handler").write(&mut reply);
    assert_eq!(reply.status_code, Some(StatusCode::ok()));
    assert_eq!(reply.content_type.as_deref(), Some("text/html; charset=utf-8"));
    assert_eq!(reply.body, "<p>\u{e9}</p>".as_bytes());

    let mut reply = declared("text/css", b"x");
    Html("<p>".to_string(), "handler").write(&mut reply);
    assert_eq!(reply.content_type.as_deref(), Some("text/css"));
    assert_eq!(reply.body, b"x<p>");
}

#[test]
fn file_writes_200_and_leaves_the_file_to_send() {
    let mut reply = declared("text/css", b"x");
    File("/srv/data/report.pdf".to_string(), "Report.pdf".to_string(), "handler").write(&mut reply);
    assert_eq!(reply.status_code, Some(StatusCode::ok()));
    assert_eq!(reply.content_type.as_deref(), Some("text/css"));
    assert_eq!(reply.body, b"x");
    let attachment = reply.attachment.unwrap();
    assert_eq!(attachment.path, "/srv/data/report.pdf");
    assert_eq!(attachment.name, "Report.pdf");
    assert!(attachment.use_last_modified);
}

#[test]
fn json_writes_200_and_overrides_the_content_type() {
    let value = vec![1u8, 2, 3];
    let mut reply = Reply::new();
    Json(value.clone(), "handler").write(serde_json::to_string(&value), &mut reply);
    assert_eq!(reply.status_code, Some(StatusCode::ok()));
    assert_eq!(reply.content_type.as_deref(), Some("application/json; charset=utf-8"));
    assert_eq!(reply.body, b"[1,2,3]");

    let mut reply = declared("text/css", b"x");
    Json(value.clone(), "handler").write(serde_json::to_string(&value), &mut reply);
    assert_eq!(reply.content_type.as_deref(), Some("application/json; charset=utf-8"));
    assert_eq!(reply.body, b"x[1,2,3]");
}

#[test]
fn json_failure_is_written_as_a_public_500() {
    let mut reply = Reply::new();
    Json((), "handler").write(Err(json_failure()), &mut reply);
    assert_serialization_failure(&reply, "text/plain; charset=utf-8", b"");

    let mut reply = declared("text/css", b"x");
    Json((), "handler").write(Err(json_failure()), &mut reply);
    assert_serialization_failure(&reply, "text/css", b"x");
}

#[test]
fn msgpack_writes_200_and_overrides_the_content_type() {
    let value = (1u8, "two".to_string());
    let mut reply = Reply::new();
    MsgPack(value.clone(), "handler").write(rmp_serde::to_vec(&value), &mut reply);
    assert_eq!(reply.status_code, Some(StatusCode::ok()));
    assert_eq!(reply.content_type.as_deref(), Some("application/msgpack; charset=utf-8"));
    assert_eq!(reply.body, vec![0x92, 0x01, 0xa3, b't', b'w', b'o']);

    let mut reply = declared("text/css", b"x");
    MsgPack(value.clone(), "handler").write(rmp_serde::to_vec(&value), &mut reply);
    assert_eq!(reply.content_type.as_deref(), Some("application/msgpack; charset=utf-8"));
    assert_eq!(reply.body, vec![b'x', 0x92, 0x01, 0xa3, b't', b'w', b'o']);
}

#[test]
fn msgpack_failure_is_written_as_a_public_500() {
    let failure = || rmp_serde::encode::Error::Syntax("secret cause".to_string());
    let mut reply = Reply::new();
    MsgPack((), "handler").write(Err(failure()), &mut reply);
    assert_serialization_failure(&reply, "text/plain; charset=utf-8", b"");

    let mut reply = declared("text/css", b"x");
    MsgPack((), "handler").write(Err(failure()), &mut reply);
    assert_serialization_failure(&reply, "text/css", b"x");
}
