//! The error value that every layer reports through.
//!
//! An error carries an HTTP-style status, a message, an optional detail, and
//! for diagnostics the chain of causes it was built from and the point where
//! it was captured. Only status, message and detail are ever shown to a
//! client.

use vstd::prelude::*;

verus! {

/// A captured stack trace. Its content depends on the running process, so
/// nothing is known of it here: it is only carried along.
#[verifier::external_type_specification]
#[verifier::external_body]
pub struct ExBacktrace(std::backtrace::Backtrace);

/// `std::backtrace::Backtrace::capture` records the current call stack, or
/// records that capturing is switched off. What it holds depends on the
/// environment, so nothing is stated of the result.
#[verifier::external_body]
fn capture_backtrace() -> (trace: std::backtrace::Backtrace) {
    std::backtrace::Backtrace::capture()
}

/// The causes of an error, outermost first, each as its message.
#[derive(Debug)]
pub struct SourceError {
    /// The messages of the chain
    pub causes: Vec<String>,
}

impl SourceError {
    /// A chain made of the given messages.
    pub fn new(causes: Vec<String>) -> (chain: SourceError)
        ensures
            chain.causes == causes,
    {
        SourceError { causes }
    }

    /// The messages of the chain, as texts.
    pub open spec fn messages(&self) -> Seq<Seq<char>> {
        Seq::new(self.causes@.len(), |i: int| self.causes@[i]@)
    }
}

/// Gives the status code that an error stands for.
pub trait ToErrorCode {
    fn error_code(&self) -> u16;
}

/// Describes an API error
#[derive(Debug)]
pub struct ApiError {
    /// The associated HTTP error code
    pub http: u16,
    /// A custom error message
    pub message: String,
    /// Optional details for the error
    pub details: Option<String>,
    /// The chain of causes, where the error was built from a lower-level one
    pub source: Option<SourceError>,
    /// The backtrace when the error was produced
    pub backtrace: Option<std::backtrace::Backtrace>,
}

/// Status of an internal fault.
pub const HTTP_BACKEND_FAILURE: u16 = 500;

/// Status of a request that could not be understood.
pub const HTTP_INVALID_REQUEST: u16 = 400;

/// Status of a request without a known identity.
pub const HTTP_UNAUTHORIZED: u16 = 401;

/// Status of a request that the identity may not make.
pub const HTTP_FORBIDDEN: u16 = 403;

/// Status of a request for something absent.
pub const HTTP_NOT_FOUND: u16 = 404;

/// Status of a request that conflicts with the current state.
pub const HTTP_CONFLICT: u16 = 409;

/// The text of an optional detail: the detail, or nothing.
pub open spec fn details_text(details: Option<String>) -> Seq<char> {
    match details {
        Some(d) => d@,
        None => Seq::empty(),
    }
}

/// The decimal digit for `d`.
pub open spec fn digit_of(d: int) -> char {
    if d == 0 {
        '0'
    } else if d == 1 {
        '1'
    } else if d == 2 {
        '2'
    } else if d == 3 {
        '3'
    } else if d == 4 {
        '4'
    } else if d == 5 {
        '5'
    } else if d == 6 {
        '6'
    } else if d == 7 {
        '7'
    } else if d == 8 {
        '8'
    } else {
        '9'
    }
}

/// `n` written in decimal, without leading zeros.
pub open spec fn decimal_text(n: nat) -> Seq<char>
    decreases n,
{
    if n < 10 {
        seq![digit_of(n as int)]
    } else {
        decimal_text(n / 10).push(digit_of((n % 10) as int))
    }
}

/// One line of a rendered chain: a tab, the position in brackets, the message.
pub open spec fn cause_line(index: nat, message: Seq<char>) -> Seq<char> {
    "\t ["@ + decimal_text(index) + "] "@ + message + "\n"@
}

/// The first `count` causes, one line each.
pub open spec fn cause_lines(messages: Seq<Seq<char>>, count: nat) -> Seq<char>
    decreases count,
{
    if count == 0 {
        Seq::empty()
    } else {
        cause_lines(messages, (count - 1) as nat) + cause_line(
            (count - 1) as nat,
            messages[count - 1],
        )
    }
}

/// The rendering of an error for a log: the message, the detail in brackets,
/// and, where there is a chain, a line break and each cause on a line.
pub open spec fn error_text(
    message: Seq<char>,
    details: Seq<char>,
    source: Option<Seq<Seq<char>>>,
) -> Seq<char> {
    message + " ("@ + details + ")"@ + match source {
        Some(messages) => "\n"@ + cause_lines(messages, messages.len()),
        None => Seq::empty(),
    }
}

/// Appends the decimal digit `d`.
fn push_digit(out: &mut String, d: usize)
    requires
        d < 10,
    ensures
        final(out)@ == old(out)@.push(digit_of(d as int)),
{
    let c = if d == 0 {
        '0'
    } else if d == 1 {
        '1'
    } else if d == 2 {
        '2'
    } else if d == 3 {
        '3'
    } else if d == 4 {
        '4'
    } else if d == 5 {
        '5'
    } else if d == 6 {
        '6'
    } else if d == 7 {
        '7'
    } else if d == 8 {
        '8'
    } else {
        '9'
    };
    out.push(c);
}

/// Appends `n` in decimal.
pub fn push_decimal(out: &mut String, n: usize)
    ensures
        final(out)@ == old(out)@ + decimal_text(n as nat),
    decreases n,
{
    if n < 10 {
        push_digit(out, n);
        assert(old(out)@.push(digit_of(n as int)) =~= old(out)@ + decimal_text(n as nat));
    } else {
        push_decimal(out, n / 10);
        push_digit(out, n % 10);
        assert((old(out)@ + decimal_text((n / 10) as nat)).push(digit_of((n % 10) as int))
            =~= old(out)@ + decimal_text(n as nat));
    }
}

impl ApiError {
    /// Creates a new error, captured where it is made and without a cause.
    #[must_use]
    pub fn new(http: u16, message: &str, details: Option<String>) -> (error: ApiError)
        ensures
            error.http == http,
            error.message@ == message@,
            error.details == details,
            error.source is None,
            error.backtrace is Some,
    {
        ApiError {
            http,
            message: message.to_owned(),
            details,
            source: None,
            backtrace: Some(capture_backtrace()),
        }
    }

    /// The error for a failure of a lower layer: an internal fault with the
    /// backend-failure message, no detail, the given chain of causes, captured
    /// where it is made.
    pub fn from(source: SourceError) -> (error: ApiError)
        ensures
            error.http == HTTP_BACKEND_FAILURE,
            error.message@ == BACKEND_FAILURE_MESSAGE@,
            error.details is None,
            error.source == Some(source),
            error.backtrace is Some,
    {
        ApiError {
            http: HTTP_BACKEND_FAILURE,
            message: BACKEND_FAILURE_MESSAGE.to_owned(),
            details: None,
            source: Some(source),
            backtrace: Some(capture_backtrace()),
        }
    }

    /// The messages of the chain of causes, if there is one.
    pub open spec fn source_messages(&self) -> Option<Seq<Seq<char>>> {
        match self.source {
            Some(chain) => Some(chain.messages()),
            None => None,
        }
    }

    /// The rendering of this error for a log.
    pub fn to_string(&self) -> (text: String)
        ensures
            text@ == error_text(self.message@, details_text(self.details), self.source_messages()),
    {
        let mut out = String::new();
        out.append(self.message.as_str());
        out.append(" (");
        match &self.details {
            Some(d) => {
                out.append(d.as_str());
            },
            None => {},
        }
        out.append(")");
        let ghost head = self.message@ + " ("@ + details_text(self.details) + ")"@;
        assert(out@ =~= head);
        match &self.source {
            Some(chain) => {
                out.append("\n");
                let n = chain.causes.len();
                let ghost messages = chain.messages();
                let mut i: usize = 0;
                while i < n
                    invariant
                        i <= n,
                        n == chain.causes@.len(),
                        messages == chain.messages(),
                        out@ == head + "\n"@ + cause_lines(messages, i as nat),
                    decreases n - i,
                {
                    let ghost before = out@;
                    out.append("\t [");
                    push_decimal(&mut out, i);
                    out.append("] ");
                    out.append(chain.causes[i].as_str());
                    out.append("\n");
                    assert(out@ =~= before + cause_line(i as nat, messages[i as int]));
                    assert(out@ =~= head + "\n"@ + cause_lines(messages, (i + 1) as nat));
                    i += 1;
                }
                assert(out@ =~= head + ("\n"@ + cause_lines(messages, messages.len())));
            },
            None => {
                assert(out@ =~= head + Seq::<char>::empty());
            },
        }
        out
    }
}

impl Clone for ApiError {
    /// A copy keeps what a client is shown. The chain of causes and the
    /// capture point stay with the original.
    fn clone(&self) -> (copy: Self)
        ensures
            copy.http == self.http,
            copy.message == self.message,
            copy.details == self.details,
            copy.source is None,
            copy.backtrace is None,
    {
        ApiError {
            http: self.http,
            message: self.message.clone(),
            details: clone_detail(&self.details),
            source: None,
            backtrace: None,
        }
    }
}

/// A copy of an optional text.
pub fn clone_detail(details: &Option<String>) -> (copy: Option<String>)
    ensures
        copy == *details,
{
    match details {
        Some(d) => Some(d.clone()),
        None => None,
    }
}

/// Specializes an API error with additional details: the detail is replaced,
/// everything else is kept.
pub fn specialize(original: ApiError, details: String) -> (error: ApiError)
    ensures
        error.http == original.http,
        error.message == original.message,
        error.details == Some(details),
        error.source == original.source,
        error.backtrace == original.backtrace,
{
    ApiError {
        http: original.http,
        message: original.message,
        details: Some(details),
        source: original.source,
        backtrace: original.backtrace,
    }
}

/// Message of an internal fault.
pub const BACKEND_FAILURE_MESSAGE: &'static str = "The operation failed in the backend.";

/// Message of a request that could not be understood.
pub const INVALID_REQUEST_MESSAGE: &'static str =
    "The request could not be understood by the server.";

/// Message of a request without a known identity.
pub const UNAUTHORIZED_MESSAGE: &'static str = "User is not authenticated.";

/// Message of a request that the identity may not make.
pub const FORBIDDEN_MESSAGE: &'static str = "This action is forbidden to the user.";

/// Message of a request for something absent.
pub const NOT_FOUND_MESSAGE: &'static str = "The requested resource cannot be found.";

/// Message of a request that conflicts with the current state.
pub const CONFLICT_MESSAGE: &'static str =
    "The request could not be processed because of conflict in the current state of the resource.";

/// Whether `error` is a freshly made error of the given class: that status,
/// that message, no detail and no cause.
pub open spec fn is_plain_error(error: ApiError, http: u16, message: Seq<char>) -> bool {
    &&& error.http == http
    &&& error.message@ == message
    &&& error.details is None
    &&& error.source is None
    &&& error.backtrace is Some
}

/// Error when the operation failed in the backend
#[must_use]
pub fn error_backend_failure() -> (error: ApiError)
    ensures
        is_plain_error(error, HTTP_BACKEND_FAILURE, BACKEND_FAILURE_MESSAGE@),
{
    ApiError::new(HTTP_BACKEND_FAILURE, BACKEND_FAILURE_MESSAGE, None)
}

/// Error when the operation failed due to invalid input
#[must_use]
pub fn error_invalid_request() -> (error: ApiError)
    ensures
        is_plain_error(error, HTTP_INVALID_REQUEST, INVALID_REQUEST_MESSAGE@),
{
    ApiError::new(HTTP_INVALID_REQUEST, INVALID_REQUEST_MESSAGE, None)
}

/// Error when the user is not authorized (not logged in)
#[must_use]
pub fn error_unauthorized() -> (error: ApiError)
    ensures
        is_plain_error(error, HTTP_UNAUTHORIZED, UNAUTHORIZED_MESSAGE@),
{
    ApiError::new(HTTP_UNAUTHORIZED, UNAUTHORIZED_MESSAGE, None)
}

/// Error when the requested action is forbidden to the (otherwise authenticated) user
#[must_use]
pub fn error_forbidden() -> (error: ApiError)
    ensures
        is_plain_error(error, HTTP_FORBIDDEN, FORBIDDEN_MESSAGE@),
{
    ApiError::new(HTTP_FORBIDDEN, FORBIDDEN_MESSAGE, None)
}

/// Error when the requested resource cannot be found
#[must_use]
pub fn error_not_found() -> (error: ApiError)
    ensures
        is_plain_error(error, HTTP_NOT_FOUND, NOT_FOUND_MESSAGE@),
{
    ApiError::new(HTTP_NOT_FOUND, NOT_FOUND_MESSAGE, None)
}

/// Error when the request conflicts with the current state
#[must_use]
pub fn error_conflict() -> (error: ApiError)
    ensures
        is_plain_error(error, HTTP_CONFLICT, CONFLICT_MESSAGE@),
{
    ApiError::new(HTTP_CONFLICT, CONFLICT_MESSAGE, None)
}

/// An error of the given class that carries `details`: what `specialize`
/// makes of a plain error.
pub open spec fn is_specialized(
    error: ApiError,
    http: u16,
    message: Seq<char>,
    details: Seq<char>,
) -> bool {
    &&& error.http == http
    &&& error.message@ == message
    &&& error.details matches Some(d) && d@ == details
    &&& error.source is None
}

/// What is left of an API error where only its texts are wanted.
#[derive(Debug)]
pub struct UnApiError {
    pub message: String,
    pub details: Option<String>,
}

/// The rendering of an `UnApiError`: a headline with the message, then the
/// detail on a line of its own where there is one.
pub open spec fn un_api_error_text(message: Seq<char>, details: Option<Seq<char>>) -> Seq<char> {
    "UnApiError : "@ + message + "\n"@ + match details {
        Some(d) => "\t "@ + d + "\n"@,
        None => Seq::empty(),
    }
}

impl UnApiError {
    /// Keeps the message and the detail of `value`, and drops the rest.
    pub fn from(value: ApiError) -> (error: UnApiError)
        ensures
            error.message == value.message,
            error.details == value.details,
    {
        UnApiError { message: value.message, details: value.details }
    }

    /// The rendering of this error.
    pub fn to_string(&self) -> (text: String)
        ensures
            text@ == un_api_error_text(
                self.message@,
                match self.details {
                    Some(d) => Some(d@),
                    None => None,
                },
            ),
    {
        let mut out = String::new();
        out.append("UnApiError : ");
        out.append(self.message.as_str());
        out.append("\n");
        let ghost head = "UnApiError : "@ + self.message@ + "\n"@;
        assert(out@ =~= head);
        match &self.details {
            Some(d) => {
                out.append("\t ");
                out.append(d.as_str());
                out.append("\n");
                assert(out@ =~= head + ("\t "@ + d@ + "\n"@));
            },
            None => {
                assert(out@ =~= head + Seq::<char>::empty());
            },
        }
        out
    }
}

} // verus!
