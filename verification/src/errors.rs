//! The one error type of the agent.
use crate::text::{decimal, decimal_text};
use vstd::prelude::*;
use vstd::string::*;

verus! {

/// Status the debug interface reports for a failure inside the agent.
pub const JVMTI_ERROR_INTERNAL: i32 = 113;

/// Status with which the debug interface says that a method carries no local
/// variable information.
pub const JVMTI_ERROR_ABSENT_INFORMATION: i32 = 101;

/// Status with which the debug interface says that a method is native.
pub const JVMTI_ERROR_NATIVE_METHOD: i32 = 104;

/// A failure of the agent.
#[derive(Debug, PartialEq, Eq)]
pub enum Error {
    /// A call into the managed runtime failed: it left an exception pending,
    /// or returned null where an object was required.
    Jni(String),
    /// A debug interface entry point returned a status other than success.
    /// Carries what was attempted and the status.
    JvmTi(String, i32),
    /// The agent itself was used wrongly.
    Internal(String),
}

/// The mathematical content of an [`Error`].
pub enum ErrorView {
    Jni(Seq<char>),
    JvmTi(Seq<char>, i32),
    Internal(Seq<char>),
}

impl View for Error {
    type V = ErrorView;

    open spec fn view(&self) -> ErrorView {
        match self {
            Error::Jni(s) => ErrorView::Jni(s@),
            Error::JvmTi(s, rc) => ErrorView::JvmTi(s@, *rc),
            Error::Internal(s) => ErrorView::Internal(s@),
        }
    }
}

/// The error for text that cannot be handed to the runtime because it holds
/// a zero byte.
pub open spec fn interior_nul() -> ErrorView {
    ErrorView::Internal("Unexpected interior nul byte"@)
}

/// The error for a reply that does not answer the request that is
/// outstanding.
pub open spec fn unexpected_reply() -> ErrorView {
    ErrorView::Internal("unexpected reply"@)
}

/// The error for a local variable whose type signature is empty or starts
/// with no known code.
pub open spec fn bad_signature() -> ErrorView {
    ErrorView::Jni("bad local variable signature"@)
}

impl ErrorView {
    /// Whether the error says that a method has no local variable table to
    /// offer: it was compiled without one, or it is native.
    pub open spec fn unavailable(self) -> bool {
        match self {
            ErrorView::JvmTi(_, rc) => rc == JVMTI_ERROR_ABSENT_INFORMATION || rc
                == JVMTI_ERROR_NATIVE_METHOD,
            _ => false,
        }
    }

    /// The line that describes the error.
    pub open spec fn text(self) -> Seq<char> {
        match self {
            ErrorView::Jni(s) => "JNI call failed: '"@ + s + "'"@,
            ErrorView::JvmTi(s, rc) => s + ": "@ + decimal_text(rc),
            ErrorView::Internal(s) => "internal error: '"@ + s + "'"@,
        }
    }

    /// The status handed to the runtime when loading the agent fails with
    /// this error.
    pub open spec fn exit_code(self) -> i32 {
        match self {
            ErrorView::JvmTi(_, rc) => rc,
            ErrorView::Internal(_) => JVMTI_ERROR_INTERNAL,
            ErrorView::Jni(_) => 0,
        }
    }
}

impl Error {
    /// The error for text that cannot be handed to the runtime because it
    /// holds a zero byte.
    pub fn interior_nul() -> (e: Error)
        ensures
            e@ == interior_nul(),
    {
        Error::Internal(String::from_str("Unexpected interior nul byte"))
    }

    /// The error for a reply that does not answer the request that is
    /// outstanding.
    pub fn unexpected_reply() -> (e: Error)
        ensures
            e@ == unexpected_reply(),
    {
        Error::Internal(String::from_str("unexpected reply"))
    }

    /// The error for a local variable whose type signature is empty or
    /// starts with no known code.
    pub fn bad_signature() -> (e: Error)
        ensures
            e@ == bad_signature(),
    {
        Error::Jni(String::from_str("bad local variable signature"))
    }

    /// Whether the error says that a method has no local variable table to
    /// offer. Callers treat this as an ordinary outcome, not as a failure.
    pub fn is_unavailable(&self) -> (unavailable: bool)
        ensures
            unavailable == self@.unavailable(),
    {
        match self {
            Error::JvmTi(_, rc) => *rc == JVMTI_ERROR_ABSENT_INFORMATION || *rc
                == JVMTI_ERROR_NATIVE_METHOD,
            _ => false,
        }
    }

    /// The line that describes the error.
    pub fn to_string(&self) -> (line: String)
        ensures
            line@ == self@.text(),
    {
        match self {
            Error::Jni(s) => String::from_str("JNI call failed: '").concat(s.as_str()).concat("'"),
            Error::JvmTi(s, rc) => s.clone().concat(": ").concat(decimal(*rc).as_str()),
            Error::Internal(s) => String::from_str("internal error: '").concat(s.as_str()).concat(
                "'",
            ),
        }
    }

    /// The status handed to the runtime when loading the agent fails with
    /// this error: the native status of a debug interface failure, the
    /// internal-error status for an internal failure, and zero otherwise.
    pub fn exit_code(&self) -> (code: i32)
        ensures
            code == self@.exit_code(),
    {
        match self {
            Error::JvmTi(_, rc) => *rc,
            Error::Internal(_) => JVMTI_ERROR_INTERNAL,
            Error::Jni(_) => 0,
        }
    }
}

} // verus!
