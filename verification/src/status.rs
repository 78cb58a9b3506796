//! Protocol status codes and the failure classes the retry policy acts on.

use vstd::prelude::*;

verus! {

/// The transport's status value, carried through unopened.
#[verifier::external_type_specification]
#[verifier::external_body]
pub struct ExStatus(tonic::Status);

/// The numeric code that a status value carries.
pub uninterp spec fn status_code_number(status: tonic::Status) -> int;

/// Reads the code out of a status value with `tonic::Status::code` and
/// converts it with `i32::from`. The transport's code enumeration has the
/// seventeen discriminants 0 to 16, so the number lies in that range.
#[verifier::external_body]
fn read_status_code(status: &tonic::Status) -> (n: i32)
    ensures
        n == status_code_number(*status),
        0 <= n <= 16,
{
    i32::from(status.code())
}

/// The protocol's status codes.
#[derive(Clone, Copy, Debug, PartialEq, Eq, Structural)]
pub enum Code {
    Success,
    Cancelled,
    Unknown,
    InvalidArgument,
    DeadlineExceeded,
    NotFound,
    AlreadyExists,
    PermissionDenied,
    ResourceExhausted,
    FailedPrecondition,
    Aborted,
    OutOfRange,
    Unimplemented,
    Internal,
    Unavailable,
    DataLoss,
    Unauthenticated,
}

impl Code {
    /// The code that a wire number stands for; numbers outside the protocol's
    /// range read as `Unknown`.
    pub open spec fn of_number(n: int) -> Code {
        if n == 0 {
            Code::Success
        } else if n == 1 {
            Code::Cancelled
        } else if n == 3 {
            Code::InvalidArgument
        } else if n == 4 {
            Code::DeadlineExceeded
        } else if n == 5 {
            Code::NotFound
        } else if n == 6 {
            Code::AlreadyExists
        } else if n == 7 {
            Code::PermissionDenied
        } else if n == 8 {
            Code::ResourceExhausted
        } else if n == 9 {
            Code::FailedPrecondition
        } else if n == 10 {
            Code::Aborted
        } else if n == 11 {
            Code::OutOfRange
        } else if n == 12 {
            Code::Unimplemented
        } else if n == 13 {
            Code::Internal
        } else if n == 14 {
            Code::Unavailable
        } else if n == 15 {
            Code::DataLoss
        } else if n == 16 {
            Code::Unauthenticated
        } else {
            Code::Unknown
        }
    }

    /// The wire number of a code.
    pub open spec fn spec_number(self) -> int {
        match self {
            Code::Success => 0,
            Code::Cancelled => 1,
            Code::Unknown => 2,
            Code::InvalidArgument => 3,
            Code::DeadlineExceeded => 4,
            Code::NotFound => 5,
            Code::AlreadyExists => 6,
            Code::PermissionDenied => 7,
            Code::ResourceExhausted => 8,
            Code::FailedPrecondition => 9,
            Code::Aborted => 10,
            Code::OutOfRange => 11,
            Code::Unimplemented => 12,
            Code::Internal => 13,
            Code::Unavailable => 14,
            Code::DataLoss => 15,
            Code::Unauthenticated => 16,
        }
    }

    pub fn from_number(n: i32) -> (code: Code)
        ensures
            code == Code::of_number(n as int),
    {
        match n {
            0 => Code::Success,
            1 => Code::Cancelled,
            3 => Code::InvalidArgument,
            4 => Code::DeadlineExceeded,
            5 => Code::NotFound,
            6 => Code::AlreadyExists,
            7 => Code::PermissionDenied,
            8 => Code::ResourceExhausted,
            9 => Code::FailedPrecondition,
            10 => Code::Aborted,
            11 => Code::OutOfRange,
            12 => Code::Unimplemented,
            13 => Code::Internal,
            14 => Code::Unavailable,
            15 => Code::DataLoss,
            16 => Code::Unauthenticated,
            _ => Code::Unknown,
        }
    }

    /// The wire number of a code.
    pub fn number(self) -> (n: i32)
        ensures
            n == self.spec_number(),
            0 <= n <= 16,
    {
        match self {
            Code::Success => 0,
            Code::Cancelled => 1,
            Code::Unknown => 2,
            Code::InvalidArgument => 3,
            Code::DeadlineExceeded => 4,
            Code::NotFound => 5,
            Code::AlreadyExists => 6,
            Code::PermissionDenied => 7,
            Code::ResourceExhausted => 8,
            Code::FailedPrecondition => 9,
            Code::Aborted => 10,
            Code::OutOfRange => 11,
            Code::Unimplemented => 12,
            Code::Internal => 13,
            Code::Unavailable => 14,
            Code::DataLoss => 15,
            Code::Unauthenticated => 16,
        }
    }
}

/// How the retry policy treats a failed attempt.
#[derive(Clone, Copy, Debug, PartialEq, Eq, Structural)]
pub enum FailureClass {
    /// The session token was rejected: refresh it, then try again.
    AuthExpired,
    /// The transport had no member to serve the call: try again at once.
    Transient,
    /// Anything else: trying again cannot help.
    Fatal,
}

pub open spec fn spec_classify(code: Code) -> FailureClass {
    match code {
        Code::Unauthenticated => FailureClass::AuthExpired,
        Code::Unavailable => FailureClass::Transient,
        _ => FailureClass::Fatal,
    }
}

/// The failure class of a status code.
#[verifier::when_used_as_spec(spec_classify)]
pub fn classify(code: Code) -> (class: FailureClass)
    ensures
        class == spec_classify(code),
{
    match code {
        Code::Unauthenticated => FailureClass::AuthExpired,
        Code::Unavailable => FailureClass::Transient,
        _ => FailureClass::Fatal,
    }
}

/// The code of a status value, as a spec term.
pub open spec fn spec_code_of(status: tonic::Status) -> Code {
    Code::of_number(status_code_number(status))
}

/// The failure class of a status value, as a spec term.
pub open spec fn failure_class_of(status: tonic::Status) -> FailureClass {
    spec_classify(spec_code_of(status))
}

/// The code of a status value.
pub fn code_of(status: &tonic::Status) -> (code: Code)
    ensures
        code == spec_code_of(*status),
{
    let n: i32 = read_status_code(status);
    Code::from_number(n)
}

} // verus!
