//! Plain values that stand for what crosses the boundary to the runtime: the
//! two handles and the status code.

use vstd::prelude::*;

verus! {

/// The status of a call that succeeded.
pub const NAPI_OK: i32 = 0;

pub const NAPI_INVALID_ARG: i32 = 1;

pub const NAPI_OBJECT_EXPECTED: i32 = 2;

pub const NAPI_STRING_EXPECTED: i32 = 3;

pub const NAPI_NAME_EXPECTED: i32 = 4;

pub const NAPI_FUNCTION_EXPECTED: i32 = 5;

pub const NAPI_NUMBER_EXPECTED: i32 = 6;

pub const NAPI_BOOLEAN_EXPECTED: i32 = 7;

pub const NAPI_ARRAY_EXPECTED: i32 = 8;

pub const NAPI_GENERIC_FAILURE: i32 = 9;

/// The status of a call that left a JavaScript exception waiting.
pub const NAPI_PENDING_EXCEPTION: i32 = 10;

pub const NAPI_CANCELLED: i32 = 11;

pub const NAPI_ESCAPE_CALLED_TWICE: i32 = 12;

/// The handle by which the runtime names the invocation that is under way,
/// kept as the address it was handed over at. The runtime owns what it names;
/// the handle is good for the length of that invocation and no longer.
#[derive(Clone, Copy, Debug, PartialEq, Eq, Structural)]
pub struct RawEnv {
    pub addr: usize,
}

/// A handle to a JavaScript value, kept as its address. Address zero is the
/// null handle, which names no value.
#[derive(Clone, Copy, Debug, PartialEq, Eq, Structural)]
pub struct RawValue {
    pub addr: usize,
}

impl RawValue {
    /// The handle that names no value.
    pub fn null() -> (value: RawValue)
        ensures
            value.addr == 0,
            value.is_null(),
    {
        RawValue { addr: 0 }
    }

    pub open spec fn spec_is_null(self) -> bool {
        self.addr == 0
    }

    /// Whether this is the null handle.
    #[verifier::when_used_as_spec(spec_is_null)]
    pub fn is_null(self) -> (null: bool)
        ensures
            null == (self.addr == 0),
    {
        self.addr == 0
    }
}

/// The status code that a call into the runtime returned, as the runtime wrote
/// it. Codes that this crate has no name for are values of the type like any
/// other.
#[derive(Clone, Copy, Debug, PartialEq, Eq, Structural)]
pub struct Status {
    pub code: i32,
}

impl Status {
    pub open spec fn spec_is_ok(self) -> bool {
        self.code == NAPI_OK
    }

    /// Whether the call succeeded.
    #[verifier::when_used_as_spec(spec_is_ok)]
    pub fn is_ok(self) -> (ok: bool)
        ensures
            ok == (self.code == NAPI_OK),
    {
        self.code == NAPI_OK
    }

    pub open spec fn spec_is_pending_exception(self) -> bool {
        self.code == NAPI_PENDING_EXCEPTION
    }

    /// Whether the code is the one by which the runtime says that an exception
    /// is waiting.
    #[verifier::when_used_as_spec(spec_is_pending_exception)]
    pub fn is_pending_exception(self) -> (pending: bool)
        ensures
            pending == (self.code == NAPI_PENDING_EXCEPTION),
    {
        self.code == NAPI_PENDING_EXCEPTION
    }
}

} // verus!
