//! The reply of a handler, and the values that a handler answers with.

use crate::errors::{answer_status, classified, disclosed_text, raw_record, ErrorRecord, ErrorResponse};
use crate::status::{status_number, StatusCode};
use vstd::prelude::*;
use vstd::utf8::encode_utf8;

verus! {

/// Content type of plain text.
pub const TEXT_PLAIN: &'static str = "text/plain; charset=utf-8";

/// Content type of HTML.
pub const TEXT_HTML: &'static str = "text/html; charset=utf-8";

/// Content type of JSON.
pub const APPLICATION_JSON: &'static str = "application/json; charset=utf-8";

/// Content type of MessagePack.
pub const APPLICATION_MSGPACK: &'static str = "application/msgpack; charset=utf-8";

/// A file that is to be sent as the body of a reply.
#[derive(Debug)]
pub struct Attachment {
    /// Where the file is.
    pub path: String,
    /// The name under which the remote side is offered the file.
    pub name: String,
    /// Whether the reply tells when the file was last modified.
    pub use_last_modified: bool,
}

/// What an `Attachment` holds.
pub struct AttachmentView {
    pub path: Seq<char>,
    pub name: Seq<char>,
    pub use_last_modified: bool,
}

impl View for Attachment {
    type V = AttachmentView;

    open spec fn view(&self) -> AttachmentView {
        AttachmentView { path: self.path@, name: self.name@, use_last_modified: self.use_last_modified }
    }
}

/// The reply to one request, as far as handlers decide on it: the status, the
/// declared content type, the bytes of the body, and a file to send after
/// them.
#[derive(Debug)]
pub struct Reply {
    pub status_code: Option<StatusCode>,
    pub content_type: Option<String>,
    pub body: Vec<u8>,
    pub attachment: Option<Attachment>,
}

/// What a `Reply` holds.
pub struct ReplyView {
    pub status: Option<u16>,
    pub content_type: Option<Seq<char>>,
    pub body: Seq<u8>,
    pub attachment: Option<AttachmentView>,
}

/// The reply on which nothing is decided yet.
pub open spec fn blank_reply() -> ReplyView {
    ReplyView { status: None, content_type: None, body: Seq::<u8>::empty(), attachment: None }
}

/// `reply` with the status `status`.
pub open spec fn with_status(reply: ReplyView, status: u16) -> ReplyView {
    ReplyView { status: Some(status), ..reply }
}

/// `reply` with the content type `content_type`, whatever it declared before.
pub open spec fn declaring(reply: ReplyView, content_type: Seq<char>) -> ReplyView {
    ReplyView { content_type: Some(content_type), ..reply }
}

/// `reply` with the content type `content_type`, unless it declares one
/// already.
pub open spec fn suggesting(reply: ReplyView, content_type: Seq<char>) -> ReplyView {
    if reply.content_type is Some {
        reply
    } else {
        declaring(reply, content_type)
    }
}

/// `reply` with `bytes` at the end of its body.
pub open spec fn appending(reply: ReplyView, bytes: Seq<u8>) -> ReplyView {
    ReplyView { body: reply.body + bytes, ..reply }
}

/// `reply` with the file `attachment` to send.
pub open spec fn attaching(reply: ReplyView, attachment: AttachmentView) -> ReplyView {
    ReplyView { attachment: Some(attachment), ..reply }
}

/// `reply` with `text` at the end of its body, as plain text or as whatever
/// the reply declares already.
pub open spec fn rendering_text(reply: ReplyView, text: Seq<char>) -> ReplyView {
    appending(suggesting(reply, TEXT_PLAIN@), encode_utf8(text))
}

impl View for Reply {
    type V = ReplyView;

    open spec fn view(&self) -> ReplyView {
        ReplyView {
            status: status_number(self.status_code),
            content_type: match self.content_type {
                Some(declared) => Some(declared@),
                None => None,
            },
            body: self.body@,
            attachment: match self.attachment {
                Some(file) => Some(file@),
                None => None,
            },
        }
    }
}

impl Reply {
    /// The reply on which nothing is decided yet.
    pub fn new() -> (reply: Reply)
        ensures
            reply@ == blank_reply(),
    {
        Reply { status_code: None, content_type: None, body: Vec::new(), attachment: None }
    }

    /// Sets the status.
    pub fn set_status(&mut self, status: StatusCode)
        ensures
            final(self)@ == with_status(old(self)@, status@),
    {
        self.status_code = Some(status);
    }

    /// Declares the content type, whatever was declared before.
    pub fn declare(&mut self, content_type: &str)
        ensures
            final(self)@ == declaring(old(self)@, content_type@),
    {
        self.content_type = Some(content_type.to_owned());
    }

    /// Declares the content type unless one is declared already.
    pub fn suggest(&mut self, content_type: &str)
        ensures
            final(self)@ == suggesting(old(self)@, content_type@),
    {
        if self.content_type.is_none() {
            self.content_type = Some(content_type.to_owned());
        }
    }

    /// Puts `bytes` at the end of the body.
    pub fn write_body(&mut self, bytes: &[u8])
        ensures
            final(self)@ == appending(old(self)@, bytes@),
    {
        self.body.extend_from_slice(bytes);
        assert(self.body@ =~= old(self).body@ + bytes@);
    }

    /// Puts `text` at the end of the body, as plain text unless a content type
    /// is declared already.
    pub fn render(&mut self, text: &str)
        ensures
            final(self)@ == rendering_text(old(self)@, text@),
    {
        self.suggest(TEXT_PLAIN);
        self.write_body(text.as_bytes());
    }
}

/// The error that is written in place of a value that could not be
/// serialized: a public 500.
pub open spec fn serialization_failure() -> ErrorRecord {
    classified(raw_record("Failed to serialize data."@), Some(500u16), true)
}

/// `reply` after an error that holds `record` is written to it.
pub open spec fn failing(reply: ReplyView, record: ErrorRecord) -> ReplyView {
    rendering_text(with_status(reply, answer_status(record.status_class)), disclosed_text(record))
}

/// Sends 200 without data.
pub struct OK(pub &'static str);

impl OK {
    /// Writes the acknowledgement to the reply: a 200, and nothing more in the
    /// body.
    pub fn write(self, res: &mut Reply)
        ensures
            final(res)@ == suggesting(with_status(old(res)@, 200), TEXT_PLAIN@),
    {
        res.set_status(StatusCode::ok());
        res.suggest(TEXT_PLAIN);
    }
}

/// Sends 200 and plain text.
#[derive(Debug)]
pub struct Plain(pub String, pub &'static str);

impl Plain {
    /// Writes the text to the reply, with a 200.
    pub fn write(self, res: &mut Reply)
        ensures
            final(res)@ == rendering_text(with_status(old(res)@, 200), self.0@),
    {
        res.set_status(StatusCode::ok());
        res.render(self.0.as_str());
    }
}

/// Sends 200 and HTML.
#[derive(Debug)]
pub struct Html(pub String, pub &'static str);

impl Html {
    /// Writes the page to the reply, with a 200, as HTML unless the reply
    /// declares a content type already.
    pub fn write(self, res: &mut Reply)
        ensures
            final(res)@ == appending(
                suggesting(with_status(old(res)@, 200), TEXT_HTML@),
                encode_utf8(self.0@),
            ),
    {
        res.set_status(StatusCode::ok());
        res.suggest(TEXT_HTML);
        res.write_body(self.0.as_str().as_bytes());
    }
}

/// Sends 200 and file.
#[derive(Debug)]
pub struct File(pub String, pub String, pub &'static str);

impl File {
    /// Writes a 200 to the reply and leaves the file at the path `self.0` to
    /// be sent under the name `self.1`, with the time of its last change.
    pub fn write(self, res: &mut Reply)
        ensures
            final(res)@ == attaching(
                with_status(old(res)@, 200),
                AttachmentView { path: self.0@, name: self.1@, use_last_modified: true },
            ),
    {
        res.set_status(StatusCode::ok());
        res.attachment = Some(Attachment { path: self.0, name: self.1, use_last_modified: true });
    }
}

/// Writes the error that stands in for a value that could not be serialized.
fn write_serialization_failure(res: &mut Reply)
    ensures
        final(res)@ == failing(old(res)@, serialization_failure()),
{
    let failure = ErrorResponse::from("Failed to serialize data.").with_500_pub().build();
    failure.write(res);
}

/// Sends 200 and JSON.
#[derive(Debug)]
pub struct Json<T>(pub T, pub &'static str);

impl<T> Json<T> {
    /// Writes the value to the reply, where `serialized` is what came of
    /// serializing it: with a 200 as JSON, whatever content type the reply
    /// declared before, or as the error of a failed serialization.
    pub fn write(self, serialized: Result<String, serde_json::Error>, res: &mut Reply)
        ensures
            serialized matches Ok(text) ==> final(res)@ == appending(
                declaring(with_status(old(res)@, 200), APPLICATION_JSON@),
                encode_utf8(text@),
            ),
            serialized is Err ==> final(res)@ == failing(old(res)@, serialization_failure()),
    {
        res.set_status(StatusCode::ok());
        match serialized {
            Ok(text) => {
                res.declare(APPLICATION_JSON);
                res.write_body(text.as_str().as_bytes());
            },
            Err(_) => {
                write_serialization_failure(res);
            },
        }
    }
}

/// Sends 200 and MsgPack.
#[derive(Debug)]
pub struct MsgPack<T>(pub T, pub &'static str);

impl<T> MsgPack<T> {
    /// Writes the value to the reply, where `encoded` is what came of
    /// encoding it: with a 200 as MessagePack, whatever content type the reply
    /// declared before, or as the error of a failed serialization.
    pub fn write(self, encoded: Result<Vec<u8>, rmp_serde::encode::Error>, res: &mut Reply)
        ensures
            encoded matches Ok(bytes) ==> final(res)@ == appending(
                declaring(with_status(old(res)@, 200), APPLICATION_MSGPACK@),
                bytes@,
            ),
            encoded is Err ==> final(res)@ == failing(old(res)@, serialization_failure()),
            encoded is Ok ==> final(res)@.content_type == Some(APPLICATION_MSGPACK@),
    {
        res.set_status(StatusCode::ok());
        match encoded {
            Ok(bytes) => {
                res.declare(APPLICATION_MSGPACK);
                res.write_body(bytes.as_slice());
            },
            Err(_) => {
                write_serialization_failure(res);
            },
        }
    }
}

} // verus!
