use crate::boundary::response::ErrorResponse;
use crate::text::{join, join3, render_signed, render_unsigned};
use vstd::prelude::*;

verus! {

/// Why a request to the remote side failed.
#[derive(Clone, Debug)]
pub enum Error {
    /// The command could not be run or its output not read; holds the cause.
    Io(String),
    /// The command ended with an exit code that stands for no answer; holds
    /// the code, where there was one, and what the command wrote to stderr.
    CliError(Option<i32>, String),
    /// The remote side refused the request; holds its status and message.
    ApiError(u16, String),
    /// An answer could not be read as JSON; holds the cause.
    JsonError(String),
}

/// How an exit code reads in an error message: `None`, or `Some(..)` round the
/// decimal code.
pub open spec fn exit_code_text(code: Option<i32>) -> Seq<char> {
    match code {
        None => "None"@,
        Some(c) => "Some("@ + crate::text::signed_decimal(c as int) + ")"@,
    }
}

impl Error {
    /// The message shown for the error.
    pub open spec fn message_text(&self) -> Seq<char> {
        match self {
            Error::Io(cause) => "An error occurred while executing the command: "@ + cause@,
            Error::CliError(code, _) => "boundary cli returned an error code: "@ + exit_code_text(
                *code,
            ),
            Error::ApiError(status, message) => crate::text::decimal(*status as nat) + ": "@
                + message@,
            Error::JsonError(cause) => "An error occurred while parsing JSON: "@ + cause@,
        }
    }

    /// The message shown for the error.
    pub fn message(&self) -> (text: String)
        ensures
            text@ == self.message_text(),
    {
        match self {
            Error::Io(cause) => join(
                "An error occurred while executing the command: ",
                cause.as_str(),
            ),
            Error::CliError(code, _) => {
                let code_text = match code {
                    None => "None".to_owned(),
                    Some(c) => {
                        let digits = render_signed(*c as i64);
                        join3("Some(", digits.as_str(), ")")
                    },
                };
                join("boundary cli returned an error code: ", code_text.as_str())
            },
            Error::ApiError(status, message) => {
                let digits = render_unsigned(*status as u64);
                join3(digits.as_str(), ": ", message.as_str())
            },
            Error::JsonError(cause) => join(
                "An error occurred while parsing JSON: ",
                cause.as_str(),
            ),
        }
    }

    /// The error that a refusal of the remote side stands for.
    pub fn from_error_response(response: ErrorResponse) -> (e: Error)
        ensures
            e == Error::ApiError(response.status_code, response.api_error.message),
    {
        Error::ApiError(response.status_code, response.api_error.message)
    }
}

} // verus!
