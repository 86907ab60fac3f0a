//! The failures of other crates and of the standard library that are handed
//! upward as errors. Nothing is known of what a value of these types holds:
//! it is carried through, and shown as a text.

use vstd::prelude::*;

verus! {

/// `anyhow::Error`, the error that `anyhow::Result` carries.
#[verifier::external_type_specification]
#[verifier::external_body]
pub struct AnyhowError(anyhow::Error);

/// `rmp_serde::encode::Error`, the failure to write a value as MessagePack.
#[verifier::external_type_specification]
#[verifier::external_body]
pub struct MsgPackEncodeError(rmp_serde::encode::Error);

/// `rmp_serde::decode::Error`, the failure to read a value from MessagePack.
#[verifier::external_type_specification]
#[verifier::external_body]
pub struct MsgPackDecodeError(rmp_serde::decode::Error);

/// `serde_json::Error`, the failure to write or read a value as JSON.
#[verifier::external_type_specification]
#[verifier::external_body]
pub struct JsonError(serde_json::Error);

/// `reqwest::Error`, the failure of an outbound request.
#[verifier::external_type_specification]
#[verifier::external_body]
pub struct ReqwestError(reqwest::Error);

/// `tracing::subscriber::SetGlobalDefaultError`, the failure to install the log's subscriber.
#[verifier::external_type_specification]
#[verifier::external_body]
pub struct SubscriberError(tracing::subscriber::SetGlobalDefaultError);

/// `salvo::Error`, the error of the serving toolkit.
#[verifier::external_type_specification]
#[verifier::external_body]
pub struct SalvoError(salvo::Error);

/// `salvo::http::ParseError`, the failure to read or parse a request.
#[verifier::external_type_specification]
#[verifier::external_body]
pub struct SalvoParseError(salvo::http::ParseError);

/// `salvo::http::errors::StatusError`, an error that stands for a status.
#[verifier::external_type_specification]
#[verifier::external_body]
pub struct SalvoStatusError(salvo::http::errors::StatusError);

/// `http::header::ToStrError`, which salvo hands on: a header value that is no visible ASCII.
#[verifier::external_type_specification]
#[verifier::external_body]
pub struct HeaderToStrError(salvo::http::header::ToStrError);

/// `http::status::InvalidStatusCode`, which salvo hands on: a number that is no status code.
#[verifier::external_type_specification]
#[verifier::external_body]
pub struct InvalidStatusCodeError(salvo::hyper::http::status::InvalidStatusCode);

/// `std::io::Error`.
#[verifier::external_type_specification]
#[verifier::external_body]
pub struct IoError(std::io::Error);

/// `std::string::FromUtf8Error`.
#[verifier::external_type_specification]
#[verifier::external_body]
pub struct Utf8Error(std::string::FromUtf8Error);

/// `std::sync::mpsc::RecvError`.
#[verifier::external_type_specification]
#[verifier::external_body]
pub struct ChannelRecvError(std::sync::mpsc::RecvError);

/// `std::sync::mpsc::SendError`.
#[verifier::external_type_specification]
#[verifier::external_body]
#[verifier::reject_recursive_types(U)]
pub struct ChannelSendError<U>(std::sync::mpsc::SendError<U>);

/// `std::num::ParseIntError`.
#[verifier::external_type_specification]
#[verifier::external_body]
pub struct IntError(std::num::ParseIntError);

/// `std::num::ParseFloatError`.
#[verifier::external_type_specification]
#[verifier::external_body]
pub struct FloatError(std::num::ParseFloatError);

} // verus!
