//! What the C boundary decides: how a call's outcome becomes the value
//! handed back and the error left behind, and how a panic is described.
use vstd::prelude::*;

use crate::error::HioLastError;

verus! {

broadcast use vstd::string::group_string_axioms;

/// A value handed across the C boundary behind a pointer.
pub struct FfiHandle<T>(T);

impl<T> FfiHandle<T> {
    /// The value held.
    pub closed spec fn value(&self) -> T {
        self.0
    }

    pub fn new(t: T) -> (h: Self)
        ensures
            h.value() == t,
    {
        FfiHandle(t)
    }

    pub fn get(&self) -> (r: &T)
        ensures
            *r == self.value(),
    {
        &self.0
    }
}

/// How a call behind the C boundary ended.
pub enum CallOutcome<R> {
    /// It returned a value or an error.
    Returned(Result<R, HioLastError>),
    /// It panicked.
    Panicked,
}

/// What a panic carried, as far as it can be read.
pub enum PanicPayload<'a> {
    Str(&'a str),
    Text(String),
    Unknown,
}

/// The value a call hands back across the boundary and the error it leaves
/// as the last error: its value and `Success`, or the fallback and its
/// error, or the fallback and `Failed` when it panicked.
pub fn settle<R>(fallback: R, outcome: CallOutcome<R>) -> (r: (R, HioLastError))
    ensures
        match outcome {
            CallOutcome::Returned(Ok(v)) => r == (v, HioLastError::Success),
            CallOutcome::Returned(Err(e)) => r == (fallback, e),
            CallOutcome::Panicked => r == (fallback, HioLastError::Failed),
        },
{
    match outcome {
        CallOutcome::Returned(Ok(v)) => (v, HioLastError::Success),
        CallOutcome::Returned(Err(e)) => (fallback, e),
        CallOutcome::Panicked => (fallback, HioLastError::Failed),
    }
}

/// The message that describes a panic: its text when it carried one.
pub fn panic_message(payload: &PanicPayload) -> (m: String)
    ensures
        match payload {
            PanicPayload::Str(s) => m@ == s@,
            PanicPayload::Text(t) => m@ == t@,
            PanicPayload::Unknown => m@ == "unknown panic"@,
        },
{
    match payload {
        PanicPayload::Str(s) => (*s).to_owned(),
        PanicPayload::Text(t) => t.clone(),
        PanicPayload::Unknown => "unknown panic".to_string(),
    }
}

/// The settings a runtime is built from.
pub struct HioRuntimeConfig {}

impl HioRuntimeConfig {
    pub fn new() -> (c: Self)
        ensures
            c == (HioRuntimeConfig {}),
    {
        HioRuntimeConfig {}
    }
}

/// A runtime built from a configuration.
pub struct HioRuntime {}

impl HioRuntime {
    pub fn new(cfg_ref: &HioRuntimeConfig) -> (r: Self)
        ensures
            r == (HioRuntime {}),
    {
        HioRuntime {}
    }
}

} // verus!
