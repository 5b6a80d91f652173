//! The error that a failed call is reported as, and the kinds of failure.

use vstd::prelude::*;
use crate::sys::{
    RawValue, Status, NAPI_ARRAY_EXPECTED, NAPI_BOOLEAN_EXPECTED, NAPI_CANCELLED,
    NAPI_ESCAPE_CALLED_TWICE, NAPI_FUNCTION_EXPECTED, NAPI_GENERIC_FAILURE, NAPI_INVALID_ARG,
    NAPI_NAME_EXPECTED, NAPI_NUMBER_EXPECTED, NAPI_OBJECT_EXPECTED, NAPI_PENDING_EXCEPTION,
    NAPI_STRING_EXPECTED,
};

verus! {

/// What kind of failure a status code stands for. There is one kind for each
/// failure code that has a name, and `Unknown` for every other code.
#[derive(Clone, Copy, Debug, PartialEq, Eq, Structural)]
pub enum ErrorKind {
    InvalidArg,
    ObjectExpected,
    StringExpected,
    NameExpected,
    FunctionExpected,
    NumberExpected,
    BooleanExpected,
    ArrayExpected,
    GenericFailure,
    PendingException,
    Cancelled,
    EscapeCalledTwice,
    Unknown,
}

/// The kind that a status code maps to. The map is total: a code without a
/// name, and the code of success, which is no failure, map to `Unknown`.
pub open spec fn kind_of(code: i32) -> ErrorKind {
    if code == NAPI_INVALID_ARG {
        ErrorKind::InvalidArg
    } else if code == NAPI_OBJECT_EXPECTED {
        ErrorKind::ObjectExpected
    } else if code == NAPI_STRING_EXPECTED {
        ErrorKind::StringExpected
    } else if code == NAPI_NAME_EXPECTED {
        ErrorKind::NameExpected
    } else if code == NAPI_FUNCTION_EXPECTED {
        ErrorKind::FunctionExpected
    } else if code == NAPI_NUMBER_EXPECTED {
        ErrorKind::NumberExpected
    } else if code == NAPI_BOOLEAN_EXPECTED {
        ErrorKind::BooleanExpected
    } else if code == NAPI_ARRAY_EXPECTED {
        ErrorKind::ArrayExpected
    } else if code == NAPI_GENERIC_FAILURE {
        ErrorKind::GenericFailure
    } else if code == NAPI_PENDING_EXCEPTION {
        ErrorKind::PendingException
    } else if code == NAPI_CANCELLED {
        ErrorKind::Cancelled
    } else if code == NAPI_ESCAPE_CALLED_TWICE {
        ErrorKind::EscapeCalledTwice
    } else {
        ErrorKind::Unknown
    }
}

impl ErrorKind {
    /// The kind of failure that `status` stands for.
    pub fn from_napi_status(status: Status) -> (kind: ErrorKind)
        ensures
            kind == kind_of(status.code),
    {
        let code: i32 = status.code;
        if code == NAPI_INVALID_ARG {
            ErrorKind::InvalidArg
        } else if code == NAPI_OBJECT_EXPECTED {
            ErrorKind::ObjectExpected
        } else if code == NAPI_STRING_EXPECTED {
            ErrorKind::StringExpected
        } else if code == NAPI_NAME_EXPECTED {
            ErrorKind::NameExpected
        } else if code == NAPI_FUNCTION_EXPECTED {
            ErrorKind::FunctionExpected
        } else if code == NAPI_NUMBER_EXPECTED {
            ErrorKind::NumberExpected
        } else if code == NAPI_BOOLEAN_EXPECTED {
            ErrorKind::BooleanExpected
        } else if code == NAPI_ARRAY_EXPECTED {
            ErrorKind::ArrayExpected
        } else if code == NAPI_GENERIC_FAILURE {
            ErrorKind::GenericFailure
        } else if code == NAPI_PENDING_EXCEPTION {
            ErrorKind::PendingException
        } else if code == NAPI_CANCELLED {
            ErrorKind::Cancelled
        } else if code == NAPI_ESCAPE_CALLED_TWICE {
            ErrorKind::EscapeCalledTwice
        } else {
            ErrorKind::Unknown
        }
    }
}

/// No two codes share a kind other than `Unknown`: from such a kind the code
/// that was translated can be told.
pub proof fn lemma_named_kinds_are_distinct(a: i32, b: i32)
    requires
        kind_of(a) == kind_of(b),
        kind_of(a) != ErrorKind::Unknown,
    ensures
        a == b,
{
}

/// A failed call, as this crate reports it: the kind of failure, the runtime's
/// message where it had one, and the exception that was waiting where there was
/// one. All three are owned by the error; nothing in it points back into the
/// runtime's records.
#[derive(Debug)]
pub struct Error {
    pub kind: ErrorKind,
    pub message: Option<String>,
    pub exception: Option<RawValue>,
}

/// An [`Error`] with its message as a sequence of characters.
pub struct ErrorView {
    pub kind: ErrorKind,
    pub message: Option<Seq<char>>,
    pub exception: Option<RawValue>,
}

impl View for Error {
    type V = ErrorView;

    open spec fn view(&self) -> ErrorView {
        ErrorView {
            kind: self.kind,
            message: match self.message {
                Some(text) => Some(text@),
                None => None,
            },
            exception: self.exception,
        }
    }
}

} // verus!
