//! The closed set of failures that the client reports.

use vstd::prelude::*;
use vstd::string::StringExecFns;

verus! {

/// A failure of a gateway call. A call either succeeds with a complete result
/// or fails with exactly one of these.
#[derive(Debug, Clone, PartialEq)]
pub enum GatewayError {
    /// The connection or the transfer failed.
    HttpError(String),
    /// The gateway answered with a status outside the success class.
    ApiError { status: u16, message: String },
    /// Required configuration is missing, or the client could not be set up.
    ConfigError(String),
    /// Text that the gateway generated could not be read as what was asked for.
    ParseError(String),
    /// A well-formed answer that lacks what was asked for.
    EmptyResponse,
    /// The body of a successful answer does not have the expected shape.
    JsonError(String),
}

/// A failure as a mathematical value.
pub enum ErrorView {
    HttpError(Seq<char>),
    ApiError { status: u16, message: Seq<char> },
    ConfigError(Seq<char>),
    ParseError(Seq<char>),
    EmptyResponse,
    JsonError(Seq<char>),
}

impl View for GatewayError {
    type V = ErrorView;

    open spec fn view(&self) -> ErrorView {
        match self {
            GatewayError::HttpError(m) => ErrorView::HttpError(m@),
            GatewayError::ApiError { status, message } => ErrorView::ApiError {
                status: *status,
                message: message@,
            },
            GatewayError::ConfigError(m) => ErrorView::ConfigError(m@),
            GatewayError::ParseError(m) => ErrorView::ParseError(m@),
            GatewayError::EmptyResponse => ErrorView::EmptyResponse,
            GatewayError::JsonError(m) => ErrorView::JsonError(m@),
        }
    }
}

/// The decimal digit for a number below ten.
pub open spec fn digit(d: nat) -> Seq<char> {
    if d == 0 {
        "0"@
    } else if d == 1 {
        "1"@
    } else if d == 2 {
        "2"@
    } else if d == 3 {
        "3"@
    } else if d == 4 {
        "4"@
    } else if d == 5 {
        "5"@
    } else if d == 6 {
        "6"@
    } else if d == 7 {
        "7"@
    } else if d == 8 {
        "8"@
    } else {
        "9"@
    }
}

/// A number written in decimal, without leading zeros.
pub open spec fn decimal(n: nat) -> Seq<char>
    decreases n,
{
    if n < 10 {
        digit(n)
    } else {
        decimal(n / 10) + digit(n % 10)
    }
}

impl ErrorView {
    /// The message that describes the failure.
    pub open spec fn message(self) -> Seq<char> {
        match self {
            ErrorView::HttpError(m) => "HTTP error: "@ + m,
            ErrorView::ApiError { status, message } => "API error ("@ + decimal(status as nat)
                + "): "@ + message,
            ErrorView::ConfigError(m) => "Configuration error: "@ + m,
            ErrorView::ParseError(m) => "Parse error: "@ + m,
            ErrorView::EmptyResponse => "Empty response from API"@,
            ErrorView::JsonError(m) => "JSON error: "@ + m,
        }
    }
}

fn digit_text(d: u16) -> (s: &'static str)
    requires
        d < 10,
    ensures
        s@ == digit(d as nat),
{
    if d == 0 {
        "0"
    } else if d == 1 {
        "1"
    } else if d == 2 {
        "2"
    } else if d == 3 {
        "3"
    } else if d == 4 {
        "4"
    } else if d == 5 {
        "5"
    } else if d == 6 {
        "6"
    } else if d == 7 {
        "7"
    } else if d == 8 {
        "8"
    } else {
        "9"
    }
}

/// A status code written in decimal.
pub fn decimal_text(n: u16) -> (s: String)
    ensures
        s@ == decimal(n as nat),
    decreases n,
{
    if n < 10 {
        digit_text(n).to_owned()
    } else {
        decimal_text(n / 10).concat(digit_text(n % 10))
    }
}

impl GatewayError {
    /// The message that describes the failure.
    pub fn message(&self) -> (text: String)
        ensures
            text@ == self@.message(),
    {
        match self {
            GatewayError::HttpError(m) => "HTTP error: ".to_owned().concat(m.as_str()),
            GatewayError::ApiError { status, message } => {
                let code = decimal_text(*status);
                "API error (".to_owned().concat(code.as_str()).concat("): ").concat(
                    message.as_str(),
                )
            },
            GatewayError::ConfigError(m) => "Configuration error: ".to_owned().concat(m.as_str()),
            GatewayError::ParseError(m) => "Parse error: ".to_owned().concat(m.as_str()),
            GatewayError::EmptyResponse => "Empty response from API".to_owned(),
            GatewayError::JsonError(m) => "JSON error: ".to_owned().concat(m.as_str()),
        }
    }
}

} // verus!
