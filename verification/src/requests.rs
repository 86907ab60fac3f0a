//! The MessagePack boundary of requests: which inbound requests are read, how
//! much of them, what is decoded, and what an outbound request is given to
//! carry.

use crate::errors::{
    classified, considered_displayed, displayed, displayed_cli, raw_of_displayed, raw_record,
    shows, text_view, CliError, Consider, ErrorRecord, ErrorResponse,
};
use crate::status::StatusCode;
use vstd::prelude::*;

verus! {

/// The size limit of a request's body where none is configured: 64 KiB.
pub const FALLBACK_MAX_SIZE: usize = 65536;

/// The subtype that a request's content type has to name.
pub const MSGPACK_SUBTYPE: &'static str = "msgpack";

/// The media type that an outbound request declares.
pub const MSGPACK_MEDIA_TYPE: &'static str = "application/msgpack";

/// The message of the error for a request of another content type.
pub const BAD_CONTENT_TYPE: &'static str = "Bad content type, must be `application/msgpack`.";

/// The MessagePack encoding of nil.
pub const NIL: u8 = 0xc0;

/// The body that holds nothing but the encoding of nil.
pub const NIL_PAYLOAD: [u8; 1] = [NIL];

/// The subtype of the media type that `declared` is, lower-cased, without the
/// suffix that follows a `+` and without parameters; `None` where `declared`
/// is no media type.
pub uninterp spec fn media_subtype(declared: Seq<char>) -> Option<Seq<char>>;

/// Whether `subtype` is the subtype of MessagePack.
pub open spec fn names_msgpack(subtype: Option<Seq<char>>) -> bool {
    subtype == Some(MSGPACK_SUBTYPE@)
}

/// Whether a request that declares `content_type` is read.
pub open spec fn accepted(content_type: Option<Seq<char>>) -> bool {
    content_type matches Some(declared) && names_msgpack(media_subtype(declared))
}

/// The error for a request of another content type: a public 400.
pub open spec fn bad_content_type() -> ErrorRecord {
    classified(raw_record(BAD_CONTENT_TYPE@), Some(400u16), true)
}

/// The limit that holds for a request: the one asked for; without one, the
/// one configured for the process; without that, the fallback.
pub open spec fn resolved_max_size(requested: Option<usize>, configured: Option<usize>) -> usize {
    match requested {
        Some(limit) => limit,
        None => match configured {
            Some(limit) => limit,
            None => FALLBACK_MAX_SIZE,
        },
    }
}

/// The bytes that are decoded for a body that holds `payload`: the encoding
/// of nil for an empty body, else the body.
pub open spec fn payload_or_nil(payload: Seq<u8>) -> Seq<u8> {
    if payload.len() == 0 {
        seq![NIL]
    } else {
        payload
    }
}

/// What is done with an inbound request.
#[derive(Debug)]
pub enum Intake {
    /// The request is answered with this error; its body is not read.
    Reject(ErrorResponse),
    /// The body is read, and the reading gives up beyond `max_size` bytes.
    Read { max_size: usize },
}

/// An outbound request, as far as the encoder decides on it.
#[derive(Debug)]
pub struct Outbound {
    /// The content type that the request declares.
    pub content_type: Option<String>,
    /// The body.
    pub body: Vec<u8>,
}

/// `Mime::from_str` and `Mime::subtype` of the crate mime, which salvo hands
/// on: parses `declared` as a media type and gives its subtype as a text.
#[verifier::external_body]
fn parse_subtype(declared: &str) -> (subtype: Option<String>)
    ensures
        text_view(subtype) == media_subtype(declared@),
{
    declared.parse::<salvo::http::Mime>().ok().map(|mime| mime.subtype().as_str().to_owned())
}

/// Whether `subtype`, the subtype of a request's content type, is that of
/// MessagePack.
pub fn is_msgpack_subtype(subtype: Option<String>) -> (r: bool)
    ensures
        r == names_msgpack(text_view(subtype)),
{
    match subtype {
        Some(name) => name == MSGPACK_SUBTYPE.to_owned(),
        None => false,
    }
}

/// Whether a request that declares `content_type` is read: whether it is a
/// media type with the subtype of MessagePack.
pub fn accepts(content_type: Option<&str>) -> (r: bool)
    ensures
        r == accepted(
            match content_type {
                Some(declared) => Some(declared@),
                None => None,
            },
        ),
{
    match content_type {
        Some(declared) => is_msgpack_subtype(parse_subtype(declared)),
        None => false,
    }
}

/// The limit that holds for a request: `requested`; without it, `configured`,
/// the limit of the process; without that, `FALLBACK_MAX_SIZE`.
pub fn resolve_max_size(requested: Option<usize>, configured: Option<usize>) -> (limit: usize)
    ensures
        limit == resolved_max_size(requested, configured),
{
    match requested {
        Some(limit) => limit,
        None => match configured {
            Some(limit) => limit,
            None => FALLBACK_MAX_SIZE,
        },
    }
}

/// Decides on an inbound request by the content type that it declares: it is
/// read up to `max_size` bytes if that is MessagePack, and rejected unread with
/// a public 400 if not.
pub fn intake(content_type: Option<&str>, max_size: usize) -> (step: Intake)
    ensures
        match step {
            Intake::Read { max_size: limit } => limit == max_size && accepted(
                match content_type {
                    Some(declared) => Some(declared@),
                    None => None,
                },
            ),
            Intake::Reject(error) => error@ == bad_content_type() && !accepted(
                match content_type {
                    Some(declared) => Some(declared@),
                    None => None,
                },
            ),
        },
{
    if accepts(content_type) {
        Intake::Read { max_size }
    } else {
        Intake::Reject(
            ErrorResponse {
                status_code: Some(StatusCode::bad_request()),
                error_text: BAD_CONTENT_TYPE.to_owned(),
                original_text: None,
                public_error: true,
            },
        )
    }
}

/// The bytes to decode once the body is read: for a body that was read, the
/// body, or the encoding of nil if it is empty; for a reading that failed, the
/// error that it shows itself as, without a status and not public.
pub fn after_read<'a>(read: Result<&'a [u8], salvo::http::ParseError>) -> (r: Result<
    &'a [u8],
    ErrorResponse,
>)
    ensures
        read matches Ok(payload) ==> r matches Ok(bytes) && bytes@ == payload_or_nil(payload@),
        read matches Err(failure) ==> r matches Err(error) && raw_of_displayed(failure, error@),
{
    match read {
        Ok(payload) => {
            if payload.len() == 0 {
                let nil: &'static [u8; 1] = &NIL_PAYLOAD;
                let bytes: &[u8] = nil.as_slice();
                assert(bytes@ =~= seq![NIL]);
                Ok(bytes)
            } else {
                Ok(payload)
            }
        },
        Err(failure) => Err(displayed(&failure)),
    }
}

/// What a handler gets of a decoded body: the value, or the failure to decode
/// as a public 400 with the failure's text.
pub fn after_decode<T>(decoded: Result<T, rmp_serde::decode::Error>) -> (r: Result<T, ErrorResponse>)
    ensures
        considered_displayed(decoded, Some(400u16), None, true, r),
{
    decoded.consider(Some(StatusCode::bad_request()), None, true)
}

/// Gives an outbound request its body, where `encoded` is what came of
/// encoding the value to send. The request declares MessagePack unless it
/// declares a content type already. If the value could not be encoded there
/// is no request, but the error that the failure shows itself as.
pub fn msgpack_body(request: Outbound, encoded: Result<Vec<u8>, rmp_serde::encode::Error>) -> (r:
    Result<Outbound, CliError>)
    ensures
        encoded matches Ok(bytes) ==> r matches Ok(sent) && sent.body@ == bytes@ && text_view(
            sent.content_type,
        ) == match text_view(request.content_type) {
            Some(declared) => Some(declared),
            None => Some(MSGPACK_MEDIA_TYPE@),
        },
        encoded matches Err(failure) ==> r matches Err(error) && shows(failure, error@),
{
    match encoded {
        Ok(bytes) => {
            let content_type = match request.content_type {
                Some(declared) => Some(declared),
                None => Some(MSGPACK_MEDIA_TYPE.to_owned()),
            };
            Ok(Outbound { content_type, body: bytes })
        },
        Err(failure) => Err(displayed_cli(&failure)),
    }
}

} // verus!
