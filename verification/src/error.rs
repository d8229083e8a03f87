use vstd::prelude::*;

verus! {

/// Error codes reported by the library, also kept as the thread's last error.
///
/// Across the C boundary each variant travels as the number that `code`
/// gives it.
#[derive(Debug, Clone, Copy, PartialEq, Eq, Structural)]
pub enum HioLastError {
    Success,
    Failed,
    InvalidParam,
    InvalidState,
    InvalidOperation,
    ResourceUnavailable,
    Timeout,
    MutexPoisoned,
    WouldBlock,
}

/// The number that stands for an error code at the C boundary.
pub open spec fn error_code(e: HioLastError) -> u32 {
    match e {
        HioLastError::Success => 0,
        HioLastError::Failed => 1,
        HioLastError::InvalidParam => 1000,
        HioLastError::InvalidState => 1001,
        HioLastError::InvalidOperation => 1002,
        HioLastError::ResourceUnavailable => 1003,
        HioLastError::Timeout => 1004,
        HioLastError::MutexPoisoned => 1005,
        HioLastError::WouldBlock => 1006,
    }
}

impl HioLastError {
    /// The number that stands for this error at the C boundary.
    pub fn code(self) -> (c: u32)
        ensures
            c == error_code(self),
    {
        match self {
            HioLastError::Success => 0,
            HioLastError::Failed => 1,
            HioLastError::InvalidParam => 1000,
            HioLastError::InvalidState => 1001,
            HioLastError::InvalidOperation => 1002,
            HioLastError::ResourceUnavailable => 1003,
            HioLastError::Timeout => 1004,
            HioLastError::MutexPoisoned => 1005,
            HioLastError::WouldBlock => 1006,
        }
    }

    /// The error that a number stands for, if any.
    pub fn from_code(c: u32) -> (r: Option<HioLastError>)
        ensures
            match r {
                Some(e) => error_code(e) == c,
                None => forall|e: HioLastError| error_code(e) != c,
            },
    {
        if c == 0 {
            Some(HioLastError::Success)
        } else if c == 1 {
            Some(HioLastError::Failed)
        } else if c == 1000 {
            Some(HioLastError::InvalidParam)
        } else if c == 1001 {
            Some(HioLastError::InvalidState)
        } else if c == 1002 {
            Some(HioLastError::InvalidOperation)
        } else if c == 1003 {
            Some(HioLastError::ResourceUnavailable)
        } else if c == 1004 {
            Some(HioLastError::Timeout)
        } else if c == 1005 {
            Some(HioLastError::MutexPoisoned)
        } else if c == 1006 {
            Some(HioLastError::WouldBlock)
        } else {
            None
        }
    }
}

/// Distinct errors travel as distinct numbers, and each number read back
/// gives the error it was made from.
pub proof fn lemma_error_code_round_trip(a: HioLastError, b: HioLastError)
    ensures
        error_code(a) == error_code(b) <==> a == b,
{
}

} // verus!
