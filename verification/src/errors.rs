//! The error of a handler, `ErrorResponse`, and the error of an outbound
//! caller, `CliError`.

use crate::responses::{failing, Reply};
use crate::status::{decimal_digits, status_number, StatusCode};
use core::fmt::Display;
use vstd::prelude::*;
use vstd::string::{to_string_from_display_ensures, StringExecFns};
use vstd::utf8::encode_utf8;

verus! {

/// The message of the error for a value that the depot does not hold.
pub const DEPOT_OBTAIN_FAILED: &'static str = "Depot obtain failed!";

/// The error of a handler: what went wrong, what the remote side is told
/// about it, and with which status.
#[derive(Debug)]
pub struct ErrorResponse {
    /// The status to answer with; without one the answer is a 500.
    pub status_code: Option<StatusCode>,
    /// The message as it stands now.
    pub error_text: String,
    /// The message as it stood before it was first replaced.
    pub original_text: Option<String>,
    /// Whether the remote side gets to read `error_text`.
    pub public_error: bool,
}

/// What an `ErrorResponse` holds.
pub struct ErrorRecord {
    pub status_class: Option<u16>,
    pub diagnostic_message: Seq<char>,
    pub original_message: Option<Seq<char>>,
    pub publicly_visible: bool,
}

/// The characters of a text that may be absent.
pub open spec fn text_view(text: Option<String>) -> Option<Seq<char>> {
    match text {
        Some(t) => Some(t@),
        None => None,
    }
}

/// The record of a failure of which nothing but its text is known.
pub open spec fn raw_record(text: Seq<char>) -> ErrorRecord {
    ErrorRecord {
        status_class: None,
        diagnostic_message: text,
        original_message: None,
        publicly_visible: false,
    }
}

/// `record` with another message. The message that is replaced first is kept
/// as the original one; later replacements leave that one alone.
pub open spec fn retexted(record: ErrorRecord, text: Seq<char>) -> ErrorRecord {
    ErrorRecord {
        status_class: record.status_class,
        diagnostic_message: text,
        original_message: match record.original_message {
            Some(original) => Some(original),
            None => Some(record.diagnostic_message),
        },
        publicly_visible: record.publicly_visible,
    }
}

/// `record` with another status and visibility.
pub open spec fn classified(record: ErrorRecord, status: Option<u16>, public: bool) -> ErrorRecord {
    ErrorRecord {
        status_class: status,
        diagnostic_message: record.diagnostic_message,
        original_message: record.original_message,
        publicly_visible: public,
    }
}

/// `record` as it is handed upward: with the status and visibility that the
/// caller decided on and, where the caller gave one, with the caller's message
/// in place of its own.
pub open spec fn reclassified(
    record: ErrorRecord,
    status: Option<u16>,
    replacement: Option<Seq<char>>,
    public: bool,
) -> ErrorRecord {
    match replacement {
        Some(text) => retexted(classified(record, status, public), text),
        None => classified(record, status, public),
    }
}

/// The phrase that stands in for the message of an error that is not public.
pub open spec fn public_phrase(status: Option<u16>) -> Seq<char> {
    if status == Some(400u16) {
        "Bad request."@
    } else if status == Some(401u16) {
        "Unauthorized request."@
    } else if status == Some(403u16) {
        "Access denied."@
    } else if status == Some(404u16) {
        "Page or method not found."@
    } else if status == Some(405u16) {
        "Method not allowed."@
    } else if status == Some(423u16) {
        "Your actions is locked."@
    } else if status == Some(500u16) {
        "Internal server error. Contact the administrator."@
    } else {
        "Specific error. Check with the administrator for details."@
    }
}

/// The status that an error with the status `status` is answered with.
pub open spec fn answer_status(status: Option<u16>) -> u16 {
    match status {
        Some(code) => code,
        None => 500,
    }
}

/// The text that the remote side gets to read of `record`: its message if
/// it is public, else the phrase of the status that it is answered with. A
/// record without a status is answered as an internal server error.
pub open spec fn disclosed_text(record: ErrorRecord) -> Seq<char> {
    if record.publicly_visible {
        record.diagnostic_message
    } else {
        public_phrase(Some(answer_status(record.status_class)))
    }
}

/// The line under which `record` is put in the log.
pub open spec fn described(record: ErrorRecord) -> Seq<char> {
    "Error found! Status code to return - "@ + decimal_digits(answer_status(record.status_class))
        + ", original error text - \""@ + match record.original_message {
        Some(original) => original,
        None => Seq::<char>::empty(),
    } + "\", public error text - \""@ + record.diagnostic_message + "\""@
}

/// The statuses that the errors of handlers are documented with, each with its
/// description.
pub open spec fn documented_statuses() -> Seq<(u16, Seq<char>)> {
    seq![
        (400u16, "Bad request"@),
        (401u16, "Unauthorized"@),
        (403u16, "Forbidden"@),
        (404u16, "Not found"@),
        (405u16, "Method not allowed"@),
        (423u16, "Locked"@),
        (500u16, "Internal server error"@),
    ]
}

/// Whether `text` is a text that `failure` may show itself as.
pub open spec fn shows<E: Display>(failure: E, text: Seq<char>) -> bool {
    exists|shown: String| #[trigger] to_string_from_display_ensures::<E>(&failure, shown) && shown@ == text
}

/// Whether `record` is the record of `failure`, of which nothing but the text
/// that it shows itself as is known.
pub open spec fn raw_of_displayed<E: Display>(failure: E, record: ErrorRecord) -> bool {
    exists|text: Seq<char>| #[trigger] shows(failure, text) && record == raw_record(text)
}

/// Whether `r` is what becomes of `outcome` when its failure, a value that
/// shows itself as a text, is handed upward as an error with that text for its
/// message, reclassified as `reclassified` says.
pub open spec fn considered_displayed<T, E: Display>(
    outcome: Result<T, E>,
    status: Option<u16>,
    replacement: Option<Seq<char>>,
    public: bool,
    r: Result<T, ErrorResponse>,
) -> bool {
    match outcome {
        Ok(value) => r == Ok::<T, ErrorResponse>(value),
        Err(failure) => r matches Err(record) && exists|text: Seq<char>| #[trigger]
            shows(failure, text) && record@ == reclassified(raw_record(text), status, replacement, public),
    }
}

/// The message of a `CliError` with the message `message` after it is handed
/// upward with `replacement`.
pub open spec fn remessaged(message: Seq<char>, replacement: Option<Seq<char>>) -> Seq<char> {
    match replacement {
        Some(text) => text,
        None => message,
    }
}

/// Whether `r` is what becomes of `outcome` when its failure, a value that
/// shows itself as a text, is handed upward as a `CliError`.
pub open spec fn considered_cli_displayed<T, E: Display>(
    outcome: Result<T, E>,
    replacement: Option<Seq<char>>,
    r: Result<T, CliError>,
) -> bool {
    match outcome {
        Ok(value) => r == Ok::<T, CliError>(value),
        Err(failure) => r matches Err(error) && exists|text: Seq<char>| #[trigger]
            shows(failure, text) && error@ == remessaged(text, replacement),
    }
}

/// The text of a failure is the message of its record and of its `CliError`,
/// which is what either is shown as, and survives a reclassification that
/// replaces nothing. The line in the log holds it unchanged.
pub proof fn lemma_raw_text_is_kept(
    text: Seq<char>,
    status: Option<u16>,
    public: bool,
)
    ensures
        raw_record(text).diagnostic_message == text,
        reclassified(raw_record(text), status, None, public).diagnostic_message == text,
        remessaged(text, None) == text,
        described(raw_record(text))
            == "Error found! Status code to return - 500, original error text - \"\", public error text - \""@
            + text + "\""@,
{
    reveal_strlit("Error found! Status code to return - ");
    reveal_strlit(", original error text - \"");
    reveal_strlit("\", public error text - \"");
    reveal_strlit("Error found! Status code to return - 500, original error text - \"\", public error text - \"");
    let head = "Error found! Status code to return - "@ + decimal_digits(500) + ", original error text - \""@
        + Seq::<char>::empty() + "\", public error text - \""@;
    assert(head
        =~= "Error found! Status code to return - 500, original error text - \"\", public error text - \""@);
}

/// A record without a status that is not public is answered as an internal
/// server error: with the status 500 and with the phrase of that status.
pub proof fn lemma_absent_status_is_internal_error(record: ErrorRecord)
    requires
        record.status_class is None,
        !record.publicly_visible,
    ensures
        answer_status(record.status_class) == 500,
        disclosed_text(record) == "Internal server error. Contact the administrator."@,
        disclosed_text(record) == disclosed_text(classified(record, Some(500u16), false)),
{
}

/// The message that the first replacement put aside stays the original
/// message when the message is replaced a second time.
pub proof fn lemma_original_message_is_kept(
    record: ErrorRecord,
    first_status: Option<u16>,
    first_text: Seq<char>,
    first_public: bool,
    second_status: Option<u16>,
    second_text: Seq<char>,
    second_public: bool,
)
    ensures
        ({
            let once = reclassified(record, first_status, Some(first_text), first_public);
            let twice = reclassified(once, second_status, Some(second_text), second_public);
            &&& once.original_message is Some
            &&& record.original_message is None ==> once.original_message == Some(
                record.diagnostic_message,
            )
            &&& record.original_message is Some ==> once.original_message == record.original_message
            &&& twice.original_message == once.original_message
            &&& twice.diagnostic_message == second_text
            &&& retexted(retexted(record, first_text), second_text).original_message == retexted(
                record,
                first_text,
            ).original_message
        }),
{
}

impl View for ErrorResponse {
    type V = ErrorRecord;

    open spec fn view(&self) -> ErrorRecord {
        ErrorRecord {
            status_class: status_number(self.status_code),
            diagnostic_message: self.error_text@,
            original_message: text_view(self.original_text),
            publicly_visible: self.public_error,
        }
    }
}

impl ErrorResponse {
    /// Private error BAD REQUEST (400).
    pub fn with_400(&mut self) -> (r: &mut Self)
        ensures
            (*r)@ == classified(old(self)@, Some(400u16), false),
            *final(self) == *final(r),
    {
        self.status_code = Some(StatusCode::bad_request());
        self.public_error = false;
        self
    }

    /// Public error BAD REQUEST (400).
    pub fn with_400_pub(&mut self) -> (r: &mut Self)
        ensures
            (*r)@ == classified(old(self)@, Some(400u16), true),
            *final(self) == *final(r),
    {
        self.status_code = Some(StatusCode::bad_request());
        self.public_error = true;
        self
    }

    /// Private error UNAUTHORIZED (401).
    pub fn with_401(&mut self) -> (r: &mut Self)
        ensures
            (*r)@ == classified(old(self)@, Some(401u16), false),
            *final(self) == *final(r),
    {
        self.status_code = Some(StatusCode::unauthorized());
        self.public_error = false;
        self
    }

    /// Public error UNAUTHORIZED (401).
    pub fn with_401_pub(&mut self) -> (r: &mut Self)
        ensures
            (*r)@ == classified(old(self)@, Some(401u16), true),
            *final(self) == *final(r),
    {
        self.status_code = Some(StatusCode::unauthorized());
        self.public_error = true;
        self
    }

    /// Private error FORBIDDEN (403).
    pub fn with_403(&mut self) -> (r: &mut Self)
        ensures
            (*r)@ == classified(old(self)@, Some(403u16), false),
            *final(self) == *final(r),
    {
        self.status_code = Some(StatusCode::forbidden());
        self.public_error = false;
        self
    }

    /// Public error FORBIDDEN (403).
    pub fn with_403_pub(&mut self) -> (r: &mut Self)
        ensures
            (*r)@ == classified(old(self)@, Some(403u16), true),
            *final(self) == *final(r),
    {
        self.status_code = Some(StatusCode::forbidden());
        self.public_error = true;
        self
    }

    /// Private error NOT FOUND (404).
    pub fn with_404(&mut self) -> (r: &mut Self)
        ensures
            (*r)@ == classified(old(self)@, Some(404u16), false),
            *final(self) == *final(r),
    {
        self.status_code = Some(StatusCode::not_found());
        self.public_error = false;
        self
    }

    /// Public error NOT FOUND (404).
    pub fn with_404_pub(&mut self) -> (r: &mut Self)
        ensures
            (*r)@ == classified(old(self)@, Some(404u16), true),
            *final(self) == *final(r),
    {
        self.status_code = Some(StatusCode::not_found());
        self.public_error = true;
        self
    }

    /// Private error METHOD NOT ALLOWED (405).
    pub fn with_405(&mut self) -> (r: &mut Self)
        ensures
            (*r)@ == classified(old(self)@, Some(405u16), false),
            *final(self) == *final(r),
    {
        self.status_code = Some(StatusCode::method_not_allowed());
        self.public_error = false;
        self
    }

    /// Public error METHOD NOT ALLOWED (405).
    pub fn with_405_pub(&mut self) -> (r: &mut Self)
        ensures
            (*r)@ == classified(old(self)@, Some(405u16), true),
            *final(self) == *final(r),
    {
        self.status_code = Some(StatusCode::method_not_allowed());
        self.public_error = true;
        self
    }

    /// Private error LOCKED (423).
    pub fn with_423(&mut self) -> (r: &mut Self)
        ensures
            (*r)@ == classified(old(self)@, Some(423u16), false),
            *final(self) == *final(r),
    {
        self.status_code = Some(StatusCode::locked());
        self.public_error = false;
        self
    }

    /// Public error LOCKED (423).
    pub fn with_423_pub(&mut self) -> (r: &mut Self)
        ensures
            (*r)@ == classified(old(self)@, Some(423u16), true),
            *final(self) == *final(r),
    {
        self.status_code = Some(StatusCode::locked());
        self.public_error = true;
        self
    }

    /// Private error INTERNAL SERVER ERROR (500).
    pub fn with_500(&mut self) -> (r: &mut Self)
        ensures
            (*r)@ == classified(old(self)@, Some(500u16), false),
            *final(self) == *final(r),
    {
        self.status_code = Some(StatusCode::internal_server_error());
        self.public_error = false;
        self
    }

    /// Public error INTERNAL SERVER ERROR (500).
    pub fn with_500_pub(&mut self) -> (r: &mut Self)
        ensures
            (*r)@ == classified(old(self)@, Some(500u16), true),
            *final(self) == *final(r),
    {
        self.status_code = Some(StatusCode::internal_server_error());
        self.public_error = true;
        self
    }

    /// Changes error message text.
    pub fn with_text(&mut self, text: String) -> (r: &mut Self)
        ensures
            (*r)@ == retexted(old(self)@, text@),
            *final(self) == *final(r),
    {
        if self.original_text.is_none() {
            self.original_text = Some(self.error_text.clone());
        }
        self.error_text = text;
        self
    }

    /// Builds the response.
    pub fn build(&mut self) -> (r: Self)
        ensures
            r@ == old(self)@,
            *final(self) == *old(self),
    {
        ErrorResponse {
            status_code: self.status_code,
            error_text: self.error_text.clone(),
            original_text: self.original_text.clone(),
            public_error: self.public_error,
        }
    }
    /// The error of which nothing but its text is known: without a status,
    /// and not public.
    pub fn raw(text: String) -> (record: Self)
        ensures
            record@ == raw_record(text@),
    {
        ErrorResponse { status_code: None, error_text: text, original_text: None, public_error: false }
    }

    /// This error as it is handed upward: with the status and visibility
    /// given and, where `error_text_replacement` holds a text, with that text
    /// as its message. The message that was replaced first stays the original
    /// one.
    pub fn reclassify(
        self,
        status_code: Option<StatusCode>,
        error_text_replacement: Option<String>,
        public: bool,
    ) -> (record: Self)
        ensures
            record@ == reclassified(
                self@,
                status_number(status_code),
                text_view(error_text_replacement),
                public,
            ),
    {
        let mut record = ErrorResponse {
            status_code,
            error_text: self.error_text,
            original_text: self.original_text,
            public_error: public,
        };
        match error_text_replacement {
            Some(text) => {
                record.with_text(text);
            },
            None => {},
        }
        record
    }

    /// The status that this error is answered with.
    pub fn status(&self) -> (status: StatusCode)
        ensures
            status@ == answer_status(self@.status_class),
    {
        match self.status_code {
            Some(code) => code,
            None => StatusCode::internal_server_error(),
        }
    }

    /// The phrase that the remote side reads in place of the message of an
    /// error with the status `status_code` that is not public.
    pub fn public_phrase(status_code: Option<StatusCode>) -> (phrase: &'static str)
        ensures
            phrase@ == public_phrase(status_number(status_code)),
    {
        match status_code {
            Some(code) => {
                let number = code.as_u16();
                if number == 400 {
                    "Bad request."
                } else if number == 401 {
                    "Unauthorized request."
                } else if number == 403 {
                    "Access denied."
                } else if number == 404 {
                    "Page or method not found."
                } else if number == 405 {
                    "Method not allowed."
                } else if number == 423 {
                    "Your actions is locked."
                } else if number == 500 {
                    "Internal server error. Contact the administrator."
                } else {
                    "Specific error. Check with the administrator for details."
                }
            },
            None => "Specific error. Check with the administrator for details.",
        }
    }

    /// The text that the remote side gets to read of this error: its message
    /// if the error is public, else the phrase of the status that it is
    /// answered with.
    pub fn disclosed(&self) -> (text: String)
        ensures
            text@ == disclosed_text(self@),
    {
        if self.public_error {
            self.error_text.clone()
        } else {
            Self::public_phrase(Some(self.status())).to_owned()
        }
    }

    /// What the log is told when this error is written to a reply: the
    /// message, then the original message if there is one.
    pub fn diagnostics(&self) -> (lines: Vec<String>)
        ensures
            lines@.len() == if self@.original_message is Some { 2nat } else { 1nat },
            lines@[0]@ == self@.diagnostic_message,
            self@.original_message matches Some(original) ==> lines@[1]@ == original,
    {
        let mut lines: Vec<String> = Vec::new();
        lines.push(self.error_text.clone());
        match &self.original_text {
            Some(original) => {
                lines.push(original.clone());
            },
            None => {},
        }
        lines
    }

    /// The statuses that the errors of handlers are documented with, each
    /// with its description, in rising order.
    pub fn documented() -> (table: Vec<(StatusCode, &'static str)>)
        ensures
            table@.len() == documented_statuses().len(),
            forall|i: int|
                0 <= i < table@.len() ==> (#[trigger] table@[i]).0@ == documented_statuses()[i].0
                    && table@[i].1@ == documented_statuses()[i].1,
    {
        let mut table: Vec<(StatusCode, &'static str)> = Vec::new();
        table.push((StatusCode::bad_request(), "Bad request"));
        table.push((StatusCode::unauthorized(), "Unauthorized"));
        table.push((StatusCode::forbidden(), "Forbidden"));
        table.push((StatusCode::not_found(), "Not found"));
        table.push((StatusCode::method_not_allowed(), "Method not allowed"));
        table.push((StatusCode::locked(), "Locked"));
        table.push((StatusCode::internal_server_error(), "Internal server error"));
        table
    }

    /// This error shown as a text: its message.
    pub fn to_text(&self) -> (text: String)
        ensures
            text@ == self@.diagnostic_message,
    {
        self.error_text.clone()
    }

    /// The line under which this error is put in the log: the status that it
    /// is answered with, its original message and its message.
    pub fn description(&self) -> (text: String)
        ensures
            text@ == described(self@),
    {
        let mut text = "Error found! Status code to return - ".to_owned();
        let digits = self.status().as_text();
        text.append(digits.as_str());
        text.append(", original error text - \"");
        match &self.original_text {
            Some(original) => {
                text.append(original.as_str());
            },
            None => {},
        }
        text.append("\", public error text - \"");
        text.append(self.error_text.as_str());
        text.append("\"");
        assert(text@ =~= described(self@));
        text
    }

    /// Writes this error to the reply: its status, or 500 where it has none,
    /// and the text that the remote side may read.
    pub fn write(self, res: &mut Reply)
        ensures
            final(res)@ == failing(old(res)@, self@),
            final(res)@.status == Some(answer_status(self@.status_class)),
            self@.publicly_visible ==> final(res)@.body == old(res)@.body + encode_utf8(
                self@.diagnostic_message,
            ),
            !self@.publicly_visible ==> final(res)@.body == old(res)@.body + encode_utf8(
                public_phrase(Some(answer_status(self@.status_class))),
            ),
    {
        res.set_status(self.status());
        let text = self.disclosed();
        res.render(text.as_str());
    }
}

impl From<String> for ErrorResponse {
    /// Creates a new error from a string.
    fn from(value: String) -> (record: Self)
        ensures
            record@ == raw_record(value@),
    {
        ErrorResponse { status_code: None, error_text: value, original_text: None, public_error: false }
    }
}

impl vstd::std_specs::convert::FromSpecImpl<String> for ErrorResponse {
    open spec fn obeys_from_spec() -> bool {
        true
    }

    open spec fn from_spec(value: String) -> Self {
        ErrorResponse { status_code: None, error_text: value, original_text: None, public_error: false }
    }
}

impl<'a> From<&'a str> for ErrorResponse {
    /// Creates a new error from a string.
    fn from(value: &'a str) -> (record: Self)
        ensures
            record@ == raw_record(value@),
    {
        ErrorResponse::raw(value.to_owned())
    }
}

impl<'a> vstd::std_specs::convert::FromSpecImpl<&'a str> for ErrorResponse {
    open spec fn obeys_from_spec() -> bool {
        false
    }

    open spec fn from_spec(value: &'a str) -> Self {
        arbitrary()
    }
}

/// The error of an outbound caller: a message.
#[derive(Debug, Clone)]
pub struct CliError {
    pub message: String,
}

impl View for CliError {
    type V = Seq<char>;

    open spec fn view(&self) -> Seq<char> {
        self.message@
    }
}

impl CliError {
    /// The error with the message `text`.
    pub fn raw(text: String) -> (error: Self)
        ensures
            error@ == text@,
    {
        CliError { message: text }
    }

    /// This error as it is handed upward: with the text of
    /// `error_text_replacement` as its message, where there is one.
    pub fn reclassify(self, error_text_replacement: Option<String>) -> (error: Self)
        ensures
            error@ == remessaged(self@, text_view(error_text_replacement)),
    {
        match error_text_replacement {
            Some(text) => CliError { message: text },
            None => self,
        }
    }

    /// The message of this error.
    pub fn to_text(&self) -> (text: String)
        ensures
            text@ == self@,
    {
        self.message.clone()
    }
}

impl From<String> for CliError {
    /// Creates a new error from a string.
    fn from(value: String) -> (error: Self)
        ensures
            error@ == value@,
    {
        CliError { message: value }
    }
}

impl vstd::std_specs::convert::FromSpecImpl<String> for CliError {
    open spec fn obeys_from_spec() -> bool {
        true
    }

    open spec fn from_spec(value: String) -> Self {
        CliError { message: value }
    }
}

impl<'a> From<&'a str> for CliError {
    /// Creates a new error from a string.
    fn from(value: &'a str) -> (error: Self)
        ensures
            error@ == value@,
    {
        CliError { message: value.to_owned() }
    }
}

impl<'a> vstd::std_specs::convert::FromSpecImpl<&'a str> for CliError {
    open spec fn obeys_from_spec() -> bool {
        false
    }

    open spec fn from_spec(value: &'a str) -> Self {
        arbitrary()
    }
}

/// A trait that allows you to transform any error into an `ErrorResponse` by
/// assigning additional parameters.
pub trait Consider<T>: Sized {
    /// Whether `r` is what becomes of `self` when it is considered with the
    /// status `status`, the replacement `replacement` for its message and the
    /// visibility `public`.
    spec fn considered(
        self,
        status: Option<u16>,
        replacement: Option<Seq<char>>,
        public: bool,
        r: Result<T, ErrorResponse>,
    ) -> bool;

    /// Changes the parameters of a possible error to the specified ones.
    fn consider(
        self,
        status_code: Option<StatusCode>,
        error_text_replacement: Option<String>,
        public: bool,
    ) -> (r: Result<T, ErrorResponse>)
        ensures
            self.considered(
                status_number(status_code),
                text_view(error_text_replacement),
                public,
                r,
            ),
    ;
}

/// A trait that allows you to transform any error into a `CliError`.
pub trait ConsiderCli<T>: Sized {
    /// Whether `r` is what becomes of `self` when it is considered with the
    /// replacement `replacement` for its message.
    spec fn considered_cli(self, replacement: Option<Seq<char>>, r: Result<T, CliError>) -> bool;

    /// Changes the parameters of a possible error to the specified ones.
    fn consider_cli(self, error_text_replacement: Option<String>) -> (r: Result<T, CliError>)
        ensures
            self.considered_cli(text_view(error_text_replacement), r),
    ;
}

/// The error of a failure that shows itself as a text: that text, without a
/// status, and not public.
pub fn displayed<E: Display>(failure: &E) -> (record: ErrorResponse)
    ensures
        raw_of_displayed(*failure, record@),
{
    let text = failure.to_string();
    assert(shows(*failure, text@));
    ErrorResponse::raw(text)
}

/// The `CliError` of a failure that shows itself as a text: that text.
pub fn displayed_cli<E: Display>(failure: &E) -> (error: CliError)
    ensures
        shows(*failure, error@),
{
    CliError { message: failure.to_string() }
}

/// Hands the failure of `outcome`, a value that shows itself as a text, upward
/// as an error with that text for its message, the status and visibility
/// given and, where there is one, the replacement for its message; the text
/// is then kept as the original message.
pub fn consider_displayed<T, E: Display>(
    outcome: Result<T, E>,
    status_code: Option<StatusCode>,
    error_text_replacement: Option<String>,
    public: bool,
) -> (r: Result<T, ErrorResponse>)
    ensures
        considered_displayed(
            outcome,
            status_number(status_code),
            text_view(error_text_replacement),
            public,
            r,
        ),
{
    match outcome {
        Ok(value) => Ok(value),
        Err(failure) => {
            let text = failure.to_string();
            assert(shows(failure, text@));
            Err(ErrorResponse::raw(text).reclassify(status_code, error_text_replacement, public))
        },
    }
}

/// Hands the failure of `outcome`, a value that shows itself as a text, upward
/// as a `CliError` with that text, or with the replacement, for its message.
pub fn consider_cli_displayed<T, E: Display>(
    outcome: Result<T, E>,
    error_text_replacement: Option<String>,
) -> (r: Result<T, CliError>)
    ensures
        considered_cli_displayed(outcome, text_view(error_text_replacement), r),
{
    match outcome {
        Ok(value) => Ok(value),
        Err(failure) => {
            let text = failure.to_string();
            assert(shows(failure, text@));
            Err(CliError::raw(text).reclassify(error_text_replacement))
        },
    }
}

/// Hands the failure to obtain a value from the depot upward: whatever the
/// failure holds, the error's message is `DEPOT_OBTAIN_FAILED`, reclassified
/// as `reclassified` says.
pub fn consider_obtained<T, E>(
    outcome: Result<T, E>,
    status_code: Option<StatusCode>,
    error_text_replacement: Option<String>,
    public: bool,
) -> (r: Result<T, ErrorResponse>)
    ensures
        outcome matches Ok(value) ==> r == Ok::<T, ErrorResponse>(value),
        outcome is Err ==> (r matches Err(record) && record@ == reclassified(
            raw_record(DEPOT_OBTAIN_FAILED@),
            status_number(status_code),
            text_view(error_text_replacement),
            public,
        )),
{
    match outcome {
        Ok(value) => Ok(value),
        Err(_) => Err(
            ErrorResponse::raw(DEPOT_OBTAIN_FAILED.to_owned()).reclassify(
                status_code,
                error_text_replacement,
                public,
            ),
        ),
    }
}

impl<T> Consider<T> for Result<T, ErrorResponse> {
    open spec fn considered(
        self,
        status: Option<u16>,
        replacement: Option<Seq<char>>,
        public: bool,
        r: Result<T, ErrorResponse>,
    ) -> bool {
        match self {
            Ok(value) => r == Ok::<T, ErrorResponse>(value),
            Err(error) => r matches Err(record) && record@ == reclassified(
                error@,
                status,
                replacement,
                public,
            ),
        }
    }

    fn consider(
        self,
        status_code: Option<StatusCode>,
        error_text_replacement: Option<String>,
        public: bool,
    ) -> (r: Result<T, ErrorResponse>) {
        match self {
            Ok(value) => Ok(value),
            Err(error) => Err(error.reclassify(status_code, error_text_replacement, public)),
        }
    }
}

impl<T> Consider<T> for Result<T, String> {
    open spec fn considered(
        self,
        status: Option<u16>,
        replacement: Option<Seq<char>>,
        public: bool,
        r: Result<T, ErrorResponse>,
    ) -> bool {
        match self {
            Ok(value) => r == Ok::<T, ErrorResponse>(value),
            Err(text) => r matches Err(record) && record@ == reclassified(
                raw_record(text@),
                status,
                replacement,
                public,
            ),
        }
    }

    fn consider(
        self,
        status_code: Option<StatusCode>,
        error_text_replacement: Option<String>,
        public: bool,
    ) -> (r: Result<T, ErrorResponse>) {
        match self {
            Ok(value) => Ok(value),
            Err(text) => Err(
                ErrorResponse::raw(text).reclassify(status_code, error_text_replacement, public),
            ),
        }
    }
}

impl<'a, T> Consider<T> for Result<T, &'a str> {
    open spec fn considered(
        self,
        status: Option<u16>,
        replacement: Option<Seq<char>>,
        public: bool,
        r: Result<T, ErrorResponse>,
    ) -> bool {
        match self {
            Ok(value) => r == Ok::<T, ErrorResponse>(value),
            Err(text) => r matches Err(record) && record@ == reclassified(
                raw_record(text@),
                status,
                replacement,
                public,
            ),
        }
    }

    fn consider(
        self,
        status_code: Option<StatusCode>,
        error_text_replacement: Option<String>,
        public: bool,
    ) -> (r: Result<T, ErrorResponse>) {
        match self {
            Ok(value) => Ok(value),
            Err(text) => Err(
                ErrorResponse::raw(text.to_owned()).reclassify(
                    status_code,
                    error_text_replacement,
                    public,
                ),
            ),
        }
    }
}

impl<T> ConsiderCli<T> for Result<T, CliError> {
    open spec fn considered_cli(self, replacement: Option<Seq<char>>, r: Result<T, CliError>) -> bool {
        match self {
            Ok(value) => r == Ok::<T, CliError>(value),
            Err(error) => r matches Err(handed) && handed@ == remessaged(error@, replacement),
        }
    }

    fn consider_cli(self, error_text_replacement: Option<String>) -> (r: Result<T, CliError>) {
        match self {
            Ok(value) => Ok(value),
            Err(error) => Err(error.reclassify(error_text_replacement)),
        }
    }
}

impl<T> ConsiderCli<T> for Result<T, String> {
    open spec fn considered_cli(self, replacement: Option<Seq<char>>, r: Result<T, CliError>) -> bool {
        match self {
            Ok(value) => r == Ok::<T, CliError>(value),
            Err(text) => r matches Err(handed) && handed@ == remessaged(text@, replacement),
        }
    }

    fn consider_cli(self, error_text_replacement: Option<String>) -> (r: Result<T, CliError>) {
        match self {
            Ok(value) => Ok(value),
            Err(text) => Err(CliError::raw(text).reclassify(error_text_replacement)),
        }
    }
}

impl<'a, T> ConsiderCli<T> for Result<T, &'a str> {
    open spec fn considered_cli(self, replacement: Option<Seq<char>>, r: Result<T, CliError>) -> bool {
        match self {
            Ok(value) => r == Ok::<T, CliError>(value),
            Err(text) => r matches Err(handed) && handed@ == remessaged(text@, replacement),
        }
    }

    fn consider_cli(self, error_text_replacement: Option<String>) -> (r: Result<T, CliError>) {
        match self {
            Ok(value) => Ok(value),
            Err(text) => Err(CliError::raw(text.to_owned()).reclassify(error_text_replacement)),
        }
    }
}

} // verus!
