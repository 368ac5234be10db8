use vstd::prelude::*;

verus! {

/// The tag that marks a reply body as an error in the Maelstrom protocol.
#[derive(Debug, Clone, Copy, PartialEq, Eq)]
pub enum ErrorTag {
    Error,
}

/// The error codes of the Maelstrom protocol.
#[derive(Debug, Clone, Copy, PartialEq, Eq)]
pub enum ErrorCode {
    Timeout,
    NotSupported,
    TemporarilyUnavailable,
    MalformedRequest,
    Crash,
    Abort,
    KeyDoesNotExist,
    PreconditionFailed,
    TxnConflict,
}

/// The number by which the protocol writes an error code.
pub open spec fn code_number(c: ErrorCode) -> usize {
    match c {
        ErrorCode::Timeout => 0,
        ErrorCode::NotSupported => 10,
        ErrorCode::TemporarilyUnavailable => 11,
        ErrorCode::MalformedRequest => 12,
        ErrorCode::Crash => 13,
        ErrorCode::Abort => 14,
        ErrorCode::KeyDoesNotExist => 20,
        ErrorCode::PreconditionFailed => 22,
        ErrorCode::TxnConflict => 30,
    }
}

/// The code that a number stands for; a number that stands for no code is taken as a crash.
pub open spec fn code_for(n: usize) -> ErrorCode {
    if n == 0 {
        ErrorCode::Timeout
    } else if n == 10 {
        ErrorCode::NotSupported
    } else if n == 11 {
        ErrorCode::TemporarilyUnavailable
    } else if n == 12 {
        ErrorCode::MalformedRequest
    } else if n == 14 {
        ErrorCode::Abort
    } else if n == 20 {
        ErrorCode::KeyDoesNotExist
    } else if n == 22 {
        ErrorCode::PreconditionFailed
    } else if n == 30 {
        ErrorCode::TxnConflict
    } else {
        ErrorCode::Crash
    }
}

/// Reading back the number of a code gives the code.
pub proof fn law_code_round_trip(c: ErrorCode)
    ensures
        code_for(code_number(c)) == c,
{
}

impl ErrorCode {
    pub fn from_code(n: usize) -> (c: ErrorCode)
        ensures
            c == code_for(n),
    {
        match n {
            0 => ErrorCode::Timeout,
            10 => ErrorCode::NotSupported,
            11 => ErrorCode::TemporarilyUnavailable,
            12 => ErrorCode::MalformedRequest,
            14 => ErrorCode::Abort,
            20 => ErrorCode::KeyDoesNotExist,
            22 => ErrorCode::PreconditionFailed,
            30 => ErrorCode::TxnConflict,
            _ => ErrorCode::Crash,
        }
    }
}

/// An error reply: which request it answers, its code and a human readable text.
#[derive(Debug, Clone, PartialEq, Eq)]
pub struct Error {
    error: ErrorTag,
    in_reply_to: usize,
    code: ErrorCode,
    text: String,
}

impl Error {
    /// The code of this error, as a value for contracts.
    pub closed spec fn spec_code(&self) -> ErrorCode {
        self.code
    }

    /// The text of this error, as a value for contracts.
    pub closed spec fn spec_text(&self) -> Seq<char> {
        self.text@
    }

    /// The id of the request that this error answers, as a value for contracts.
    pub closed spec fn spec_in_reply_to(&self) -> usize {
        self.in_reply_to
    }

    /// The text that a crash error carries.
    pub open spec fn crash_text() -> Seq<char> {
        "internal server error"@
    }

    /// A crash error answering the request `msg_id`.
    pub fn crash(msg_id: usize) -> (e: Self)
        ensures
            e.spec_code() == ErrorCode::Crash,
            e.spec_in_reply_to() == msg_id,
            e.spec_text() == Self::crash_text(),
    {
        Self {
            error: ErrorTag::Error,
            in_reply_to: msg_id,
            code: ErrorCode::Crash,
            text: String::from_str("internal server error"),
        }
    }

    /// An error with the given code and text answering the request `in_reply_to`.
    pub fn new(code: ErrorCode, text: String, in_reply_to: usize) -> (e: Self)
        ensures
            e.spec_code() == code,
            e.spec_in_reply_to() == in_reply_to,
            e.spec_text() == text@,
    {
        Self { error: ErrorTag::Error, in_reply_to, code, text }
    }

    pub fn code(&self) -> (c: ErrorCode)
        ensures
            c == self.spec_code(),
    {
        self.code
    }

    pub fn text(&self) -> (t: &str)
        ensures
            t@ == self.spec_text(),
    {
        self.text.as_str()
    }

    pub fn in_reply_to(&self) -> (id: usize)
        ensures
            id == self.spec_in_reply_to(),
    {
        self.in_reply_to
    }
}

} // verus!
