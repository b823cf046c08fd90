use vstd::prelude::*;
use vstd::string::*;
use crate::decimal::{append_integer, integer_text};

verus! {

/// What the service answers when it refuses a request.
#[derive(Clone, PartialEq, Eq)]
pub struct Error {
    pub code: i32,
    pub message: String,
}

/// What an `Error` holds, as plain values.
pub struct ErrorView {
    pub code: i32,
    pub message: Seq<char>,
}

impl View for Error {
    type V = ErrorView;

    open spec fn view(&self) -> ErrorView {
        ErrorView { code: self.code, message: self.message@ }
    }
}

impl ErrorView {
    /// The error with both of its parts spelled out.
    pub open spec fn debug_text(self) -> Seq<char> {
        "AppError { code: "@ + integer_text(self.code as int) + ", message: "@ + self.message
            + " }"@
    }
}

impl Error {
    /// The error as shown to a reader: the service's message.
    pub fn to_string(&self) -> (text: String)
        ensures
            text@ == self@.message,
    {
        self.message.clone()
    }

    /// The error with both of its parts spelled out.
    pub fn to_debug_string(&self) -> (text: String)
        ensures
            text@ == self@.debug_text(),
    {
        let mut text = "AppError { code: ".to_string();
        append_integer(&mut text, self.code);
        text.append(", message: ");
        text.append(self.message.as_str());
        text.append(" }");
        text
    }
}

/// Why a call to the service gave no result.
pub enum Failure<E> {
    /// The request could not be sent, or no response could be read.
    Transport(E),
    /// The service refused the request.
    Service(Error),
    /// The body of the response was not of the expected shape.
    Decoding(E),
}

} // verus!
