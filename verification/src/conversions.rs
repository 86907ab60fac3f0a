//! How the failures of other crates and of the standard library become an
//! `ErrorResponse` or a `CliError`: each shows itself as a text, and that text
//! is the message.

use crate::errors::{
    consider_cli_displayed, consider_displayed, considered_cli_displayed, considered_displayed,
    displayed, displayed_cli, raw_of_displayed, shows, CliError, Consider, ConsiderCli,
    ErrorResponse,
};
use crate::status::StatusCode;
use vstd::prelude::*;
use vstd::std_specs::convert::FromSpecImpl;

verus! {

impl<T> Consider<T> for Result<T, anyhow::Error> {
    open spec fn considered(
        self,
        status: Option<u16>,
        replacement: Option<Seq<char>>,
        public: bool,
        r: Result<T, ErrorResponse>,
    ) -> bool {
        considered_displayed(self, status, replacement, public, r)
    }

    fn consider(
        self,
        status_code: Option<StatusCode>,
        error_text_replacement: Option<String>,
        public: bool,
    ) -> (r: Result<T, ErrorResponse>) {
        consider_displayed(self, status_code, error_text_replacement, public)
    }
}

impl<T> Consider<T> for Result<T, rmp_serde::encode::Error> {
    open spec fn considered(
        self,
        status: Option<u16>,
        replacement: Option<Seq<char>>,
        public: bool,
        r: Result<T, ErrorResponse>,
    ) -> bool {
        considered_displayed(self, status, replacement, public, r)
    }

    fn consider(
        self,
        status_code: Option<StatusCode>,
        error_text_replacement: Option<String>,
        public: bool,
    ) -> (r: Result<T, ErrorResponse>) {
        consider_displayed(self, status_code, error_text_replacement, public)
    }
}

impl From<rmp_serde::encode::Error> for ErrorResponse {
    /// Creates an `ErrorResponse` from this failure.
    fn from(value: rmp_serde::encode::Error) -> (record: Self)
        ensures
            raw_of_displayed(value, record@),
    {
        displayed(&value)
    }
}

impl FromSpecImpl<rmp_serde::encode::Error> for ErrorResponse {
    open spec fn obeys_from_spec() -> bool {
        false
    }

    open spec fn from_spec(value: rmp_serde::encode::Error) -> Self {
        arbitrary()
    }
}

impl<T> Consider<T> for Result<T, rmp_serde::decode::Error> {
    open spec fn considered(
        self,
        status: Option<u16>,
        replacement: Option<Seq<char>>,
        public: bool,
        r: Result<T, ErrorResponse>,
    ) -> bool {
        considered_displayed(self, status, replacement, public, r)
    }

    fn consider(
        self,
        status_code: Option<StatusCode>,
        error_text_replacement: Option<String>,
        public: bool,
    ) -> (r: Result<T, ErrorResponse>) {
        consider_displayed(self, status_code, error_text_replacement, public)
    }
}

impl From<rmp_serde::decode::Error> for ErrorResponse {
    /// Creates an `ErrorResponse` from this failure.
    fn from(value: rmp_serde::decode::Error) -> (record: Self)
        ensures
            raw_of_displayed(value, record@),
    {
        displayed(&value)
    }
}

impl FromSpecImpl<rmp_serde::decode::Error> for ErrorResponse {
    open spec fn obeys_from_spec() -> bool {
        false
    }

    open spec fn from_spec(value: rmp_serde::decode::Error) -> Self {
        arbitrary()
    }
}

impl<T> Consider<T> for Result<T, std::io::Error> {
    open spec fn considered(
        self,
        status: Option<u16>,
        replacement: Option<Seq<char>>,
        public: bool,
        r: Result<T, ErrorResponse>,
    ) -> bool {
        considered_displayed(self, status, replacement, public, r)
    }

    fn consider(
        self,
        status_code: Option<StatusCode>,
        error_text_replacement: Option<String>,
        public: bool,
    ) -> (r: Result<T, ErrorResponse>) {
        consider_displayed(self, status_code, error_text_replacement, public)
    }
}

impl From<std::io::Error> for ErrorResponse {
    /// Creates an `ErrorResponse` from this failure.
    fn from(value: std::io::Error) -> (record: Self)
        ensures
            raw_of_displayed(value, record@),
    {
        displayed(&value)
    }
}

impl FromSpecImpl<std::io::Error> for ErrorResponse {
    open spec fn obeys_from_spec() -> bool {
        false
    }

    open spec fn from_spec(value: std::io::Error) -> Self {
        arbitrary()
    }
}

impl<T> Consider<T> for Result<T, std::string::FromUtf8Error> {
    open spec fn considered(
        self,
        status: Option<u16>,
        replacement: Option<Seq<char>>,
        public: bool,
        r: Result<T, ErrorResponse>,
    ) -> bool {
        considered_displayed(self, status, replacement, public, r)
    }

    fn consider(
        self,
        status_code: Option<StatusCode>,
        error_text_replacement: Option<String>,
        public: bool,
    ) -> (r: Result<T, ErrorResponse>) {
        consider_displayed(self, status_code, error_text_replacement, public)
    }
}

impl From<std::string::FromUtf8Error> for ErrorResponse {
    /// Creates an `ErrorResponse` from this failure.
    fn from(value: std::string::FromUtf8Error) -> (record: Self)
        ensures
            raw_of_displayed(value, record@),
    {
        displayed(&value)
    }
}

impl FromSpecImpl<std::string::FromUtf8Error> for ErrorResponse {
    open spec fn obeys_from_spec() -> bool {
        false
    }

    open spec fn from_spec(value: std::string::FromUtf8Error) -> Self {
        arbitrary()
    }
}

impl<T> Consider<T> for Result<T, std::sync::mpsc::RecvError> {
    open spec fn considered(
        self,
        status: Option<u16>,
        replacement: Option<Seq<char>>,
        public: bool,
        r: Result<T, ErrorResponse>,
    ) -> bool {
        considered_displayed(self, status, replacement, public, r)
    }

    fn consider(
        self,
        status_code: Option<StatusCode>,
        error_text_replacement: Option<String>,
        public: bool,
    ) -> (r: Result<T, ErrorResponse>) {
        consider_displayed(self, status_code, error_text_replacement, public)
    }
}

impl From<std::sync::mpsc::RecvError> for ErrorResponse {
    /// Creates an `ErrorResponse` from this failure.
    fn from(value: std::sync::mpsc::RecvError) -> (record: Self)
        ensures
            raw_of_displayed(value, record@),
    {
        displayed(&value)
    }
}

impl FromSpecImpl<std::sync::mpsc::RecvError> for ErrorResponse {
    open spec fn obeys_from_spec() -> bool {
        false
    }

    open spec fn from_spec(value: std::sync::mpsc::RecvError) -> Self {
        arbitrary()
    }
}

impl<T> Consider<T> for Result<T, serde_json::Error> {
    open spec fn considered(
        self,
        status: Option<u16>,
        replacement: Option<Seq<char>>,
        public: bool,
        r: Result<T, ErrorResponse>,
    ) -> bool {
        considered_displayed(self, status, replacement, public, r)
    }

    fn consider(
        self,
        status_code: Option<StatusCode>,
        error_text_replacement: Option<String>,
        public: bool,
    ) -> (r: Result<T, ErrorResponse>) {
        consider_displayed(self, status_code, error_text_replacement, public)
    }
}

impl From<serde_json::Error> for ErrorResponse {
    /// Creates an `ErrorResponse` from this failure.
    fn from(value: serde_json::Error) -> (record: Self)
        ensures
            raw_of_displayed(value, record@),
    {
        displayed(&value)
    }
}

impl FromSpecImpl<serde_json::Error> for ErrorResponse {
    open spec fn obeys_from_spec() -> bool {
        false
    }

    open spec fn from_spec(value: serde_json::Error) -> Self {
        arbitrary()
    }
}

impl<T> Consider<T> for Result<T, std::num::ParseIntError> {
    open spec fn considered(
        self,
        status: Option<u16>,
        replacement: Option<Seq<char>>,
        public: bool,
        r: Result<T, ErrorResponse>,
    ) -> bool {
        considered_displayed(self, status, replacement, public, r)
    }

    fn consider(
        self,
        status_code: Option<StatusCode>,
        error_text_replacement: Option<String>,
        public: bool,
    ) -> (r: Result<T, ErrorResponse>) {
        consider_displayed(self, status_code, error_text_replacement, public)
    }
}

impl From<std::num::ParseIntError> for ErrorResponse {
    /// Creates an `ErrorResponse` from this failure.
    fn from(value: std::num::ParseIntError) -> (record: Self)
        ensures
            raw_of_displayed(value, record@),
    {
        displayed(&value)
    }
}

impl FromSpecImpl<std::num::ParseIntError> for ErrorResponse {
    open spec fn obeys_from_spec() -> bool {
        false
    }

    open spec fn from_spec(value: std::num::ParseIntError) -> Self {
        arbitrary()
    }
}

impl<T> Consider<T> for Result<T, std::num::ParseFloatError> {
    open spec fn considered(
        self,
        status: Option<u16>,
        replacement: Option<Seq<char>>,
        public: bool,
        r: Result<T, ErrorResponse>,
    ) -> bool {
        considered_displayed(self, status, replacement, public, r)
    }

    fn consider(
        self,
        status_code: Option<StatusCode>,
        error_text_replacement: Option<String>,
        public: bool,
    ) -> (r: Result<T, ErrorResponse>) {
        consider_displayed(self, status_code, error_text_replacement, public)
    }
}

impl From<std::num::ParseFloatError> for ErrorResponse {
    /// Creates an `ErrorResponse` from this failure.
    fn from(value: std::num::ParseFloatError) -> (record: Self)
        ensures
            raw_of_displayed(value, record@),
    {
        displayed(&value)
    }
}

impl FromSpecImpl<std::num::ParseFloatError> for ErrorResponse {
    open spec fn obeys_from_spec() -> bool {
        false
    }

    open spec fn from_spec(value: std::num::ParseFloatError) -> Self {
        arbitrary()
    }
}

impl<T> Consider<T> for Result<T, tracing::subscriber::SetGlobalDefaultError> {
    open spec fn considered(
        self,
        status: Option<u16>,
        replacement: Option<Seq<char>>,
        public: bool,
        r: Result<T, ErrorResponse>,
    ) -> bool {
        considered_displayed(self, status, replacement, public, r)
    }

    fn consider(
        self,
        status_code: Option<StatusCode>,
        error_text_replacement: Option<String>,
        public: bool,
    ) -> (r: Result<T, ErrorResponse>) {
        consider_displayed(self, status_code, error_text_replacement, public)
    }
}

impl From<tracing::subscriber::SetGlobalDefaultError> for ErrorResponse {
    /// Creates an `ErrorResponse` from this failure.
    fn from(value: tracing::subscriber::SetGlobalDefaultError) -> (record: Self)
        ensures
            raw_of_displayed(value, record@),
    {
        displayed(&value)
    }
}

impl FromSpecImpl<tracing::subscriber::SetGlobalDefaultError> for ErrorResponse {
    open spec fn obeys_from_spec() -> bool {
        false
    }

    open spec fn from_spec(value: tracing::subscriber::SetGlobalDefaultError) -> Self {
        arbitrary()
    }
}

impl<T> Consider<T> for Result<T, salvo::Error> {
    open spec fn considered(
        self,
        status: Option<u16>,
        replacement: Option<Seq<char>>,
        public: bool,
        r: Result<T, ErrorResponse>,
    ) -> bool {
        considered_displayed(self, status, replacement, public, r)
    }

    fn consider(
        self,
        status_code: Option<StatusCode>,
        error_text_replacement: Option<String>,
        public: bool,
    ) -> (r: Result<T, ErrorResponse>) {
        consider_displayed(self, status_code, error_text_replacement, public)
    }
}

impl From<salvo::Error> for ErrorResponse {
    /// Creates an `ErrorResponse` from this failure.
    fn from(value: salvo::Error) -> (record: Self)
        ensures
            raw_of_displayed(value, record@),
    {
        displayed(&value)
    }
}

impl FromSpecImpl<salvo::Error> for ErrorResponse {
    open spec fn obeys_from_spec() -> bool {
        false
    }

    open spec fn from_spec(value: salvo::Error) -> Self {
        arbitrary()
    }
}

impl<T> Consider<T> for Result<T, salvo::hyper::http::status::InvalidStatusCode> {
    open spec fn considered(
        self,
        status: Option<u16>,
        replacement: Option<Seq<char>>,
        public: bool,
        r: Result<T, ErrorResponse>,
    ) -> bool {
        considered_displayed(self, status, replacement, public, r)
    }

    fn consider(
        self,
        status_code: Option<StatusCode>,
        error_text_replacement: Option<String>,
        public: bool,
    ) -> (r: Result<T, ErrorResponse>) {
        consider_displayed(self, status_code, error_text_replacement, public)
    }
}

impl From<salvo::hyper::http::status::InvalidStatusCode> for ErrorResponse {
    /// Creates an `ErrorResponse` from this failure.
    fn from(value: salvo::hyper::http::status::InvalidStatusCode) -> (record: Self)
        ensures
            raw_of_displayed(value, record@),
    {
        displayed(&value)
    }
}

impl FromSpecImpl<salvo::hyper::http::status::InvalidStatusCode> for ErrorResponse {
    open spec fn obeys_from_spec() -> bool {
        false
    }

    open spec fn from_spec(value: salvo::hyper::http::status::InvalidStatusCode) -> Self {
        arbitrary()
    }
}

impl<T> Consider<T> for Result<T, salvo::http::ParseError> {
    open spec fn considered(
        self,
        status: Option<u16>,
        replacement: Option<Seq<char>>,
        public: bool,
        r: Result<T, ErrorResponse>,
    ) -> bool {
        considered_displayed(self, status, replacement, public, r)
    }

    fn consider(
        self,
        status_code: Option<StatusCode>,
        error_text_replacement: Option<String>,
        public: bool,
    ) -> (r: Result<T, ErrorResponse>) {
        consider_displayed(self, status_code, error_text_replacement, public)
    }
}

impl From<salvo::http::ParseError> for ErrorResponse {
    /// Creates an `ErrorResponse` from this failure.
    fn from(value: salvo::http::ParseError) -> (record: Self)
        ensures
            raw_of_displayed(value, record@),
    {
        displayed(&value)
    }
}

impl FromSpecImpl<salvo::http::ParseError> for ErrorResponse {
    open spec fn obeys_from_spec() -> bool {
        false
    }

    open spec fn from_spec(value: salvo::http::ParseError) -> Self {
        arbitrary()
    }
}

impl<T, U> Consider<T> for Result<T, std::sync::mpsc::SendError<U>> {
    open spec fn considered(
        self,
        status: Option<u16>,
        replacement: Option<Seq<char>>,
        public: bool,
        r: Result<T, ErrorResponse>,
    ) -> bool {
        considered_displayed(self, status, replacement, public, r)
    }

    fn consider(
        self,
        status_code: Option<StatusCode>,
        error_text_replacement: Option<String>,
        public: bool,
    ) -> (r: Result<T, ErrorResponse>) {
        consider_displayed(self, status_code, error_text_replacement, public)
    }
}

impl<U> From<std::sync::mpsc::SendError<U>> for ErrorResponse {
    /// Creates an `ErrorResponse` from this failure.
    fn from(value: std::sync::mpsc::SendError<U>) -> (record: Self)
        ensures
            raw_of_displayed(value, record@),
    {
        displayed(&value)
    }
}

impl<U> FromSpecImpl<std::sync::mpsc::SendError<U>> for ErrorResponse {
    open spec fn obeys_from_spec() -> bool {
        false
    }

    open spec fn from_spec(value: std::sync::mpsc::SendError<U>) -> Self {
        arbitrary()
    }
}

impl<T> Consider<T> for Result<T, salvo::http::header::ToStrError> {
    open spec fn considered(
        self,
        status: Option<u16>,
        replacement: Option<Seq<char>>,
        public: bool,
        r: Result<T, ErrorResponse>,
    ) -> bool {
        considered_displayed(self, status, replacement, public, r)
    }

    fn consider(
        self,
        status_code: Option<StatusCode>,
        error_text_replacement: Option<String>,
        public: bool,
    ) -> (r: Result<T, ErrorResponse>) {
        consider_displayed(self, status_code, error_text_replacement, public)
    }
}

impl From<salvo::http::header::ToStrError> for ErrorResponse {
    /// Creates an `ErrorResponse` from this failure.
    fn from(value: salvo::http::header::ToStrError) -> (record: Self)
        ensures
            raw_of_displayed(value, record@),
    {
        displayed(&value)
    }
}

impl FromSpecImpl<salvo::http::header::ToStrError> for ErrorResponse {
    open spec fn obeys_from_spec() -> bool {
        false
    }

    open spec fn from_spec(value: salvo::http::header::ToStrError) -> Self {
        arbitrary()
    }
}

impl<T> Consider<T> for Result<T, reqwest::Error> {
    open spec fn considered(
        self,
        status: Option<u16>,
        replacement: Option<Seq<char>>,
        public: bool,
        r: Result<T, ErrorResponse>,
    ) -> bool {
        considered_displayed(self, status, replacement, public, r)
    }

    fn consider(
        self,
        status_code: Option<StatusCode>,
        error_text_replacement: Option<String>,
        public: bool,
    ) -> (r: Result<T, ErrorResponse>) {
        consider_displayed(self, status_code, error_text_replacement, public)
    }
}

impl From<reqwest::Error> for ErrorResponse {
    /// Creates an `ErrorResponse` from this failure.
    fn from(value: reqwest::Error) -> (record: Self)
        ensures
            raw_of_displayed(value, record@),
    {
        displayed(&value)
    }
}

impl FromSpecImpl<reqwest::Error> for ErrorResponse {
    open spec fn obeys_from_spec() -> bool {
        false
    }

    open spec fn from_spec(value: reqwest::Error) -> Self {
        arbitrary()
    }
}

impl<T> Consider<T> for Result<T, salvo::http::errors::StatusError> {
    open spec fn considered(
        self,
        status: Option<u16>,
        replacement: Option<Seq<char>>,
        public: bool,
        r: Result<T, ErrorResponse>,
    ) -> bool {
        considered_displayed(self, status, replacement, public, r)
    }

    fn consider(
        self,
        status_code: Option<StatusCode>,
        error_text_replacement: Option<String>,
        public: bool,
    ) -> (r: Result<T, ErrorResponse>) {
        consider_displayed(self, status_code, error_text_replacement, public)
    }
}

impl From<salvo::http::errors::StatusError> for ErrorResponse {
    /// Creates an `ErrorResponse` from this failure.
    fn from(value: salvo::http::errors::StatusError) -> (record: Self)
        ensures
            raw_of_displayed(value, record@),
    {
        displayed(&value)
    }
}

impl FromSpecImpl<salvo::http::errors::StatusError> for ErrorResponse {
    open spec fn obeys_from_spec() -> bool {
        false
    }

    open spec fn from_spec(value: salvo::http::errors::StatusError) -> Self {
        arbitrary()
    }
}

impl<T> ConsiderCli<T> for Result<T, rmp_serde::encode::Error> {
    open spec fn considered_cli(self, replacement: Option<Seq<char>>, r: Result<T, CliError>) -> bool {
        considered_cli_displayed(self, replacement, r)
    }

    fn consider_cli(self, error_text_replacement: Option<String>) -> (r: Result<T, CliError>) {
        consider_cli_displayed(self, error_text_replacement)
    }
}

impl From<rmp_serde::encode::Error> for CliError {
    /// Creates a `CliError` from this failure.
    fn from(value: rmp_serde::encode::Error) -> (error: Self)
        ensures
            shows(value, error@),
    {
        displayed_cli(&value)
    }
}

impl FromSpecImpl<rmp_serde::encode::Error> for CliError {
    open spec fn obeys_from_spec() -> bool {
        false
    }

    open spec fn from_spec(value: rmp_serde::encode::Error) -> Self {
        arbitrary()
    }
}

impl<T> ConsiderCli<T> for Result<T, rmp_serde::decode::Error> {
    open spec fn considered_cli(self, replacement: Option<Seq<char>>, r: Result<T, CliError>) -> bool {
        considered_cli_displayed(self, replacement, r)
    }

    fn consider_cli(self, error_text_replacement: Option<String>) -> (r: Result<T, CliError>) {
        consider_cli_displayed(self, error_text_replacement)
    }
}

impl From<rmp_serde::decode::Error> for CliError {
    /// Creates a `CliError` from this failure.
    fn from(value: rmp_serde::decode::Error) -> (error: Self)
        ensures
            shows(value, error@),
    {
        displayed_cli(&value)
    }
}

impl FromSpecImpl<rmp_serde::decode::Error> for CliError {
    open spec fn obeys_from_spec() -> bool {
        false
    }

    open spec fn from_spec(value: rmp_serde::decode::Error) -> Self {
        arbitrary()
    }
}

impl<T> ConsiderCli<T> for Result<T, std::io::Error> {
    open spec fn considered_cli(self, replacement: Option<Seq<char>>, r: Result<T, CliError>) -> bool {
        considered_cli_displayed(self, replacement, r)
    }

    fn consider_cli(self, error_text_replacement: Option<String>) -> (r: Result<T, CliError>) {
        consider_cli_displayed(self, error_text_replacement)
    }
}

impl From<std::io::Error> for CliError {
    /// Creates a `CliError` from this failure.
    fn from(value: std::io::Error) -> (error: Self)
        ensures
            shows(value, error@),
    {
        displayed_cli(&value)
    }
}

impl FromSpecImpl<std::io::Error> for CliError {
    open spec fn obeys_from_spec() -> bool {
        false
    }

    open spec fn from_spec(value: std::io::Error) -> Self {
        arbitrary()
    }
}

impl<T> ConsiderCli<T> for Result<T, std::string::FromUtf8Error> {
    open spec fn considered_cli(self, replacement: Option<Seq<char>>, r: Result<T, CliError>) -> bool {
        considered_cli_displayed(self, replacement, r)
    }

    fn consider_cli(self, error_text_replacement: Option<String>) -> (r: Result<T, CliError>) {
        consider_cli_displayed(self, error_text_replacement)
    }
}

impl From<std::string::FromUtf8Error> for CliError {
    /// Creates a `CliError` from this failure.
    fn from(value: std::string::FromUtf8Error) -> (error: Self)
        ensures
            shows(value, error@),
    {
        displayed_cli(&value)
    }
}

impl FromSpecImpl<std::string::FromUtf8Error> for CliError {
    open spec fn obeys_from_spec() -> bool {
        false
    }

    open spec fn from_spec(value: std::string::FromUtf8Error) -> Self {
        arbitrary()
    }
}

impl<T> ConsiderCli<T> for Result<T, serde_json::Error> {
    open spec fn considered_cli(self, replacement: Option<Seq<char>>, r: Result<T, CliError>) -> bool {
        considered_cli_displayed(self, replacement, r)
    }

    fn consider_cli(self, error_text_replacement: Option<String>) -> (r: Result<T, CliError>) {
        consider_cli_displayed(self, error_text_replacement)
    }
}

impl From<serde_json::Error> for CliError {
    /// Creates a `CliError` from this failure.
    fn from(value: serde_json::Error) -> (error: Self)
        ensures
            shows(value, error@),
    {
        displayed_cli(&value)
    }
}

impl FromSpecImpl<serde_json::Error> for CliError {
    open spec fn obeys_from_spec() -> bool {
        false
    }

    open spec fn from_spec(value: serde_json::Error) -> Self {
        arbitrary()
    }
}

impl<T> ConsiderCli<T> for Result<T, reqwest::Error> {
    open spec fn considered_cli(self, replacement: Option<Seq<char>>, r: Result<T, CliError>) -> bool {
        considered_cli_displayed(self, replacement, r)
    }

    fn consider_cli(self, error_text_replacement: Option<String>) -> (r: Result<T, CliError>) {
        consider_cli_displayed(self, error_text_replacement)
    }
}

impl From<reqwest::Error> for CliError {
    /// Creates a `CliError` from this failure.
    fn from(value: reqwest::Error) -> (error: Self)
        ensures
            shows(value, error@),
    {
        displayed_cli(&value)
    }
}

impl FromSpecImpl<reqwest::Error> for CliError {
    open spec fn obeys_from_spec() -> bool {
        false
    }

    open spec fn from_spec(value: reqwest::Error) -> Self {
        arbitrary()
    }
}

} // verus!
