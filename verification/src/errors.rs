//! The unified error model: every fallible operation in this crate reports a
//! single error type holding an integer code and a message.

use vstd::prelude::*;

use crate::native::NativeError;

verus! {

/// No failure.
pub const ERR_NONE: i32 = 0;

/// A sought object (an element, a capability) was not found.
pub const ERR_NOTFOUND: i32 = 1;

/// A wait ran out of time.
pub const ERR_TIMEOUT: i32 = 2;

/// A control wrapper was constructed from an element of another control type.
pub const ERR_TYPE: i32 = 3;

/// The status the native layer reports when an identity cast fails because
/// the object does not implement the requested interface.
pub const HR_NOINTERFACE: i32 = -2147467262;

/// The status the native layer reports for a parameter it does not accept.
pub const HR_INVALIDARG: i32 = -2147024809;

/// One failure: an integer code and a human-readable message.
///
/// Codes `0` and above denote locally-defined conditions (`ERR_NONE`,
/// `ERR_NOTFOUND`, `ERR_TIMEOUT`, `ERR_TYPE`); negative codes are reserved
/// for statuses reported by the native layer, surfaced verbatim.
#[derive(Debug, PartialEq, Eq)]
pub struct Error {
    pub code: i32,
    pub message: String,
}

/// The result type used by every fallible operation in this crate.
pub type Result<T> = core::result::Result<T, Error>;

/// The error that captures a native failure: its status code and its message,
/// both kept unchanged.
pub open spec fn spec_from_native(e: NativeError) -> Error {
    Error { code: e.code, message: e.message }
}

/// The status `result()` reports: the code itself when negative, else absent.
pub open spec fn spec_result(e: Error) -> Option<i32> {
    if e.code < 0 {
        Some(e.code)
    } else {
        None
    }
}

impl Error {
    /// Builds an error from a code and a message.
    pub fn new(code: i32, message: &str) -> (e: Error)
        ensures
            e.code == code,
            e.message@ == message@,
    {
        Error { code, message: String::from_str(message) }
    }

    /// The error's code.
    pub fn code(&self) -> (c: i32)
        ensures
            c == self.code,
    {
        self.code
    }

    /// The native status carried by this error: present exactly when the
    /// error originates from the native layer, that is when the code is
    /// negative.
    pub fn result(&self) -> (r: Option<i32>)
        ensures
            r == spec_result(*self),
    {
        if self.code < 0 {
            Some(self.code)
        } else {
            None
        }
    }

    /// The error's message.
    pub fn message(&self) -> (m: &str)
        ensures
            m@ == self.message@,
    {
        self.message.as_str()
    }
}

/// Errors constructed from a negative code report their native status as
/// present and equal to that code; errors constructed from a non-negative
/// code report it as absent.
pub proof fn lemma_native_status(e: Error)
    ensures
        spec_result(e) is Some <==> e.code < 0,
        e.code < 0 ==> spec_result(e) == Some(e.code),
        e.code >= 0 ==> spec_result(e) is None,
{
}

/// The error the identity cast fails with when an opaque reference's object
/// does not implement the requested capability interface.
pub open spec fn is_no_interface_error(e: Error) -> bool {
    e.code == HR_NOINTERFACE && e.message@ == "No such interface supported"@
}

/// Builds the identity-cast failure.
pub fn no_interface_error() -> (e: Error)
    ensures
        is_no_interface_error(e),
{
    Error::new(HR_NOINTERFACE, "No such interface supported")
}

/// The error a capability lookup fails with when the element does not expose
/// the requested capability at runtime.
pub open spec fn is_pattern_not_found_error(e: Error) -> bool {
    e.code == ERR_NOTFOUND && e.message@ == "the element does not support this pattern"@
}

/// Builds the capability-lookup failure.
pub fn pattern_not_found_error() -> (e: Error)
    ensures
        is_pattern_not_found_error(e),
{
    Error::new(ERR_NOTFOUND, "the element does not support this pattern")
}

/// The error the view switchboard fails with when asked about a view the
/// native layer does not know.
pub open spec fn is_unknown_view_error(e: Error) -> bool {
    e.code == HR_INVALIDARG && e.message@ == "The parameter is incorrect."@
}

/// Builds the unknown-view failure.
pub fn unknown_view_error() -> (e: Error)
    ensures
        is_unknown_view_error(e),
{
    Error::new(HR_INVALIDARG, "The parameter is incorrect.")
}

/// The error an item-container search fails with when no item matches.
pub open spec fn is_item_not_found_error(e: Error) -> bool {
    e.code == ERR_NOTFOUND && e.message@ == "no item matches the property value"@
}

/// Builds the no-matching-item failure.
pub fn item_not_found_error() -> (e: Error)
    ensures
        is_item_not_found_error(e),
{
    Error::new(ERR_NOTFOUND, "no item matches the property value")
}

/// The error a control wrapper's construction fails with when the element's
/// control-type tag is not the one the wrapper expects.
pub open spec fn is_wrong_type_error(e: Error) -> bool {
    e.code == ERR_TYPE && e.message@ == "Error Control Type"@
}

/// Builds the control-type mismatch failure.
pub fn wrong_type_error() -> (e: Error)
    ensures
        is_wrong_type_error(e),
{
    Error::new(ERR_TYPE, "Error Control Type")
}

/// Builds the error for a native failure without consuming it.
pub fn error_from_native(e: &NativeError) -> (r: Error)
    ensures
        r == spec_from_native(*e),
{
    Error { code: e.code, message: e.message.clone() }
}

impl From<NativeError> for Error {
    /// Captures a native failure, keeping its code and message.
    fn from(e: NativeError) -> (r: Error) {
        Error { code: e.code, message: e.message }
    }
}

impl vstd::std_specs::convert::FromSpecImpl<NativeError> for Error {
    open spec fn obeys_from_spec() -> bool {
        true
    }

    open spec fn from_spec(e: NativeError) -> Error {
        spec_from_native(e)
    }
}

impl From<String> for Error {
    /// Wraps a plain message; the code defaults to `ERR_NONE`, meaning no
    /// native status is attached.
    fn from(message: String) -> (r: Error) {
        Error { code: ERR_NONE, message }
    }
}

impl vstd::std_specs::convert::FromSpecImpl<String> for Error {
    open spec fn obeys_from_spec() -> bool {
        true
    }

    open spec fn from_spec(message: String) -> Error {
        Error { code: ERR_NONE, message }
    }
}

} // verus!
