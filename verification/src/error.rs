//! Errors that belong to no single operation: a breach of the protocol
//! between the platform and this library, and the platform's general
//! failure code.

use vstd::prelude::*;

verus! {

/// The platform's general result code for success.
pub const RESULT_OK: i32 = 1;

/// The platform answered outside the protocol.
///
/// These are kept apart from the errors of the single operations: an
/// operation's own error is something that the platform said, this one
/// says that its answer could not be read.
#[derive(Clone, Copy, Debug, PartialEq, Eq, Structural)]
pub enum IntegrityError {
    /// A status that the operation or event it came with does not know.
    UnknownResultCode(i32),
    /// An event payload whose size is not the one declared for its kind.
    UnexpectedPayloadSize { expected: i32, delivered: i32 },
    /// A count of bytes written that the buffer handed over cannot hold.
    LengthOutOfBounds { reported: u32, capacity: usize },
}

/// Why a call into the platform did not do what was asked.
#[derive(Debug, PartialEq, Eq)]
pub enum CallError<E> {
    /// The platform reported one of the operation's own errors.
    Reported(E),
    /// The platform's answer is outside the protocol.
    Integrity(IntegrityError),
}

/// What comparing a payload's size with the declared one comes to.
pub open spec fn payload_size_outcome(expected: i32, delivered: i32) -> Result<(), IntegrityError> {
    if delivered == expected {
        Ok(())
    } else {
        Err(IntegrityError::UnexpectedPayloadSize { expected, delivered })
    }
}

/// Accepts an event payload only if it has exactly the size declared for its
/// kind. A payload of another size must not be decoded.
pub fn check_payload_size(expected: i32, delivered: i32) -> (r: Result<(), IntegrityError>)
    ensures
        r == payload_size_outcome(expected, delivered),
{
    if delivered == expected {
        Ok(())
    } else {
        Err(IntegrityError::UnexpectedPayloadSize { expected, delivered })
    }
}

/// A general result code of the platform that reports a failure.
///
/// The code is kept as the platform sent it. It is never [`RESULT_OK`].
#[derive(Clone, Copy, Debug, PartialEq, Eq, Structural, Hash)]
pub struct SteamError {
    code: i32,
}

impl View for SteamError {
    type V = i32;

    closed spec fn view(&self) -> i32 {
        self.code
    }
}

impl SteamError {
    #[verifier::type_invariant]
    spec fn is_failure(self) -> bool {
        self.code != RESULT_OK
    }

    /// Reads a general result code: success, or the failure it names.
    pub fn from_code(code: i32) -> (r: Result<(), SteamError>)
        ensures
            code == RESULT_OK <==> r is Ok,
            r matches Err(e) ==> e@ == code,
    {
        if code == RESULT_OK {
            Ok(())
        } else {
            Err(SteamError { code })
        }
    }

    /// Reads a result code where only a failure can stand, such as the
    /// reason of a lost connection. Success is no reason.
    pub fn reason(code: i32) -> (r: Result<SteamError, IntegrityError>)
        ensures
            code != RESULT_OK <==> r is Ok,
            r matches Ok(e) ==> e@ == code,
            r matches Err(e) ==> e == IntegrityError::UnknownResultCode(code),
    {
        if code == RESULT_OK {
            Err(IntegrityError::UnknownResultCode(code))
        } else {
            Ok(SteamError { code })
        }
    }

    /// The code as the platform sent it.
    pub fn code(&self) -> (r: i32)
        ensures
            r == self@,
            r != RESULT_OK,
    {
        proof {
            use_type_invariant(self);
        }
        self.code
    }

    /// Failures with the same code are the same failure.
    pub proof fn lemma_equal_by_code(a: SteamError, b: SteamError)
        ensures
            (a == b) <==> (a@ == b@),
    {
    }
}

} // verus!
